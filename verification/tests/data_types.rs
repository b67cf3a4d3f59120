use mqtt::common::authentication::{deserialize_username_password, serialize_username_password};
use mqtt::common::data_types::{
    parse_bool_flag, parse_u8, read_byte, read_four_byte_integer, read_two_byte_integer,
    read_utf8_encoded_string, variable_byte_integer_decode, variable_byte_integer_encode,
    variable_byte_integer_from_be_bytes, variable_byte_integer_length, MqttError,
};
use mqtt::data_structures::data_types;

fn encoded(value: u32) -> Vec<u8> {
    let mut bytes = Vec::new();
    variable_byte_integer_encode(&mut bytes, value);
    bytes
}

#[test]
fn variable_byte_integer_encodings() {
    assert_eq!(encoded(0), vec![0x00]);
    assert_eq!(encoded(127), vec![0x7F]);
    assert_eq!(encoded(128), vec![0x80, 0x01]);
    assert_eq!(encoded(16_383), vec![0xFF, 0x7F]);
    assert_eq!(encoded(16_384), vec![0x80, 0x80, 0x01]);
    assert_eq!(encoded(268_435_455), vec![0xFF, 0xFF, 0xFF, 0x7F]);
    assert_eq!(variable_byte_integer_length(0), 1);
    assert_eq!(variable_byte_integer_length(128), 2);
    assert_eq!(variable_byte_integer_length(2_097_152), 4);
}

#[test]
fn variable_byte_integer_reads_back() {
    for value in [0u32, 1, 127, 128, 300, 16_383, 16_384, 2_097_151, 268_435_455] {
        let bytes = encoded(value);
        let mut stream = bytes.as_slice();
        assert_eq!(variable_byte_integer_decode(&mut stream), Ok(value));
        assert!(stream.is_empty());
        let mut cursor = 0usize;
        assert_eq!(variable_byte_integer_from_be_bytes(&bytes, &mut cursor), value);
        assert_eq!(cursor, bytes.len());
    }
}

#[test]
fn variable_byte_integer_errors() {
    let bytes = [0x80u8, 0x80];
    let mut stream: &[u8] = &bytes;
    assert_eq!(variable_byte_integer_decode(&mut stream), Err(MqttError::UnexpectedEof));
    let bytes = [0x80u8, 0x80, 0x80, 0x80, 0x01];
    let mut stream: &[u8] = &bytes;
    assert_eq!(
        variable_byte_integer_decode(&mut stream),
        Err(MqttError::MalformedVariableByteInteger)
    );
    let bytes = [0x80u8, 0x80, 0x80, 0x80, 0x7F, 9];
    let mut stream: &[u8] = &bytes;
    assert_eq!(
        variable_byte_integer_decode(&mut stream),
        Err(MqttError::MalformedVariableByteInteger)
    );
    assert_eq!(stream, &[9u8][..]);
    let bytes = [0xFFu8, 0xFF, 0xFF, 0xFF, 0xFF];
    let mut stream: &[u8] = &bytes;
    assert_eq!(
        variable_byte_integer_decode(&mut stream),
        Err(MqttError::MalformedVariableByteInteger)
    );
}

#[test]
fn stream_readers() {
    let bytes = [1u8, 2, 3, 4, 5, 6, 7];
    let mut stream: &[u8] = &bytes;
    assert_eq!(read_byte(&mut stream), Ok(1));
    assert_eq!(read_two_byte_integer(&mut stream), Ok(0x0203));
    assert_eq!(read_four_byte_integer(&mut stream), Ok(0x04050607));
    assert_eq!(read_byte(&mut stream), Err(MqttError::UnexpectedEof));

    let bytes = [0xFFu8, 0xFE, 0x41];
    let mut stream: &[u8] = &bytes;
    assert_eq!(read_utf8_encoded_string(&mut stream, 2), Err(MqttError::InvalidUtf8));
    assert_eq!(stream, &[0x41u8][..]);
    assert_eq!(read_utf8_encoded_string(&mut stream, 2), Err(MqttError::UnexpectedEof));
    assert!(stream.is_empty());
}

#[test]
fn older_stream_readers() {
    let bytes = [9u8, 0, 3, b'a', b'b', b'c', 0, 0, 1, 0];
    let mut stream: &[u8] = &bytes;
    assert_eq!(data_types::read_byte(&mut stream), Ok(9));
    assert_eq!(data_types::read_two_byte_integer(&mut stream), Ok(3));
    assert_eq!(data_types::read_utf8_encoded_string(&mut stream, 3), Ok("abc".to_string()));
    assert_eq!(data_types::_read_four_byte_integer(&mut stream), Ok(256));
}

#[test]
fn text_values() {
    assert_eq!(parse_bool_flag(&"true".to_string()), Ok(1));
    assert_eq!(parse_bool_flag(&"false".to_string()), Ok(0));
    assert_eq!(parse_bool_flag(&"True".to_string()), Err(MqttError::InvalidFlag));
    assert_eq!(parse_u8(&"0".to_string()), Ok(0));
    assert_eq!(parse_u8(&"+42".to_string()), Ok(42));
    assert_eq!(parse_u8(&"007".to_string()), Ok(7));
    assert_eq!(parse_u8(&"255".to_string()), Ok(255));
    assert_eq!(parse_u8(&"256".to_string()), Err(MqttError::InvalidNumber));
    assert_eq!(parse_u8(&"".to_string()), Err(MqttError::InvalidNumber));
    assert_eq!(parse_u8(&"+".to_string()), Err(MqttError::InvalidNumber));
    assert_eq!(parse_u8(&"-1".to_string()), Err(MqttError::InvalidNumber));
    assert_eq!(parse_u8(&"1a".to_string()), Err(MqttError::InvalidNumber));
}

#[test]
fn credentials_roundtrip() {
    let bytes = serialize_username_password(&"user".to_string(), &"pässword".to_string());
    assert_eq!(&bytes[..7], &[0, 4, b'u', b's', b'e', b'r', 0]);
    assert_eq!(bytes[7], 9);
    let (user, pass) = deserialize_username_password(bytes);
    assert_eq!(user, "user".to_string());
    assert_eq!(pass, "pässword".to_string());
}
