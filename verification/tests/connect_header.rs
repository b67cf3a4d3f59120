use mqtt::common::data_types::MqttError;
use mqtt::control_packets::mqtt_connect::connect_payload::{ConnectPayload, ConnectPayloadFields};
use mqtt::control_packets::mqtt_connect::connect_properties::ConnectProperties;
use mqtt::control_packets::mqtt_connect::variable_header::{
    new_connect_properties, ConnectVariableHeader, VariableHeaderProtocolName,
};
use mqtt::control_packets::mqtt_connect::variable_header_properties::{
    VariableHeaderProperties, VariableHeaderProperty,
};
use mqtt::control_packets::mqtt_packet::variable_header_properties::VariableHeaderProperties as PropertiesBlock;

fn usize_len_bytes(n: usize) -> Vec<u8> {
    n.to_be_bytes().to_vec()
}

#[test]
fn test_connect_block_lengths() {
    let mut props = VariableHeaderProperties::new();
    assert_eq!(props.bytes_length, 0);
    props.add_property_session_expiry_interval(10);
    assert_eq!(props.bytes_length, 5);
    props.add_property_authentication_method("abc".to_string());
    assert_eq!(props.bytes_length, 11);
    props.add_property_user_property("k".to_string(), "vv".to_string());
    assert_eq!(props.bytes_length, 19);
    props.add_property_maximum_qos(1);
    assert_eq!(props.bytes_length, 21);
    props.add_property_server_keep_alive(300);
    assert_eq!(props.bytes_length, 24);
    assert_eq!(props.properties.len(), 5);
}

#[test]
fn test_connect_block_bytes() {
    let mut props = VariableHeaderProperties::new();
    props.add_property_server_keep_alive(0x0102);
    props.add_property_reason_string("ok".to_string());
    let bytes = props.as_bytes();
    let mut expected = usize_len_bytes(8);
    expected.extend_from_slice(&[19, 1, 2, 31, 0, 2, b'o', b'k']);
    assert_eq!(bytes, expected);
}

#[test]
fn test_connect_block_roundtrip() {
    let mut props = VariableHeaderProperties::new();
    props.add_property_assigned_client_identifier("client".to_string());
    props.add_property_server_keep_alive(60);
    props.add_property_response_information("info".to_string());
    props.add_property_server_reference("server".to_string());
    props.add_property_reason_string("reason".to_string());
    props.add_property_maximum_qos(2);
    props.add_property_retain_available(1);
    props.add_property_wildcard_subscription_available(1);
    props.add_property_subscription_identifiers_available(0);
    props.add_property_shared_subscription_available(1);
    props.add_property_session_expiry_interval(3600);
    props.add_property_authentication_method("method".to_string());
    props.add_property_authentication_data(7);
    props.add_property_request_problem_information(1);
    props.add_property_request_response_information(0);
    props.add_property_receive_maximum(100);
    props.add_property_topic_alias_maximum(10);
    props.add_property_user_property("key".to_string(), "value".to_string());
    props.add_property_maximum_packet_size(1024);

    let bytes = props.as_bytes();
    let width = std::mem::size_of::<usize>();
    assert_eq!(bytes.len(), width + props.bytes_length);
    let decoded = VariableHeaderProperties::from_be_bytes(&bytes[width..]).unwrap();
    assert_eq!(decoded.bytes_length, props.bytes_length);
    assert_eq!(decoded.properties.len(), 19);
    match &decoded.properties[0] {
        VariableHeaderProperty::AsignedClientIdentifier { id, property } => {
            assert_eq!(*id, 18);
            assert_eq!(property, "client");
        }
        _ => panic!("wrong property"),
    }
    match &decoded.properties[17] {
        VariableHeaderProperty::UserProperty { id, property } => {
            assert_eq!(*id, 38);
            assert_eq!(property.0, "key");
            assert_eq!(property.1, "value");
        }
        _ => panic!("wrong property"),
    }
    match &decoded.properties[18] {
        VariableHeaderProperty::MaximumPacketSize { id, property } => {
            assert_eq!(*id, 39);
            assert_eq!(*property, 1024);
        }
        _ => panic!("wrong property"),
    }
}

#[test]
fn test_connect_block_skips_unknown_ids() {
    // 1 is not a CONNECT property here: it is skipped a byte at a time.
    let bytes = [1u8, 36, 2];
    let decoded = VariableHeaderProperties::from_be_bytes(&bytes).unwrap();
    assert_eq!(decoded.bytes_length, 3);
    assert_eq!(decoded.properties.len(), 1);
    match &decoded.properties[0] {
        VariableHeaderProperty::MaximumQoS { id, property } => {
            assert_eq!(*id, 36);
            assert_eq!(*property, 2);
        }
        _ => panic!("wrong property"),
    }
}

#[test]
fn test_connect_block_bad_utf8_method() {
    let bytes = [21u8, 0, 1, 0xff];
    assert!(matches!(
        VariableHeaderProperties::from_be_bytes(&bytes),
        Err(MqttError::InvalidUtf8)
    ));
}

#[test]
fn test_connect_block_bad_utf8_user_property() {
    let bytes = [38u8, 0, 1, b'k', 0, 1, 0xfe];
    assert!(matches!(
        VariableHeaderProperties::from_be_bytes(&bytes),
        Err(MqttError::InvalidUtf8)
    ));
}

#[test]
fn test_new_connect_properties_order() {
    let mut props = ConnectProperties::default();
    props.maximum_packet_size = Some(20);
    props.session_expiry_interval = Some(5);
    let block = new_connect_properties(&props).unwrap();
    assert_eq!(block.properties.len(), 2);
    assert_eq!(block.properties[0].id(), 17);
    assert_eq!(block.properties[1].id(), 39);
    assert_eq!(block.bytes_length, 10);
}

#[test]
fn test_connect_variable_header_roundtrip() {
    let mut props = ConnectProperties::default();
    props.connect_flags = 0b1100_0010;
    props.keep_alive = 30;
    props.receive_maximum = Some(5);
    let header = ConnectVariableHeader::new(&props).unwrap();
    assert_eq!(header.protocol_name.length, 4);
    assert_eq!(header.protocol_name.name, "MQTT");
    assert_eq!(header.length(), 2 + 4 + 1 + 1 + 2 + 3);
    let bytes = header.as_bytes();
    assert_eq!(
        bytes,
        vec![0, 4, b'M', b'Q', b'T', b'T', 5, 0b1100_0010, 0, 30, 0, 3, 33, 0, 5]
    );
    let mut stream: &[u8] = &bytes;
    let read = ConnectVariableHeader::read_from(&mut stream).unwrap();
    assert_eq!(read.protocol_name.length, 4);
    assert_eq!(read.protocol_name.name, "MQTT");
    assert_eq!(read.protocol_version, 5);
    assert_eq!(read.connect_flags, 0b1100_0010);
    assert_eq!(read.keep_alive, 30);
    assert_eq!(read.properties.bytes_length, 3);
    assert_eq!(read.properties.properties.len(), 1);
    assert!(stream.is_empty());
}

#[test]
fn test_connect_variable_header_short_stream() {
    let bytes = [0u8, 4, b'M', b'Q'];
    let mut stream: &[u8] = &bytes;
    assert!(matches!(
        ConnectVariableHeader::read_from(&mut stream),
        Err(MqttError::UnexpectedEof)
    ));
}

#[test]
fn test_connect_variable_header_fields() {
    let header = ConnectVariableHeader {
        protocol_name: VariableHeaderProtocolName { length: 4, name: "MQTT".to_string() },
        protocol_version: 5,
        connect_flags: 0,
        keep_alive: 0,
        properties: PropertiesBlock::new(),
    };
    assert_eq!(header.length(), 10);
    assert_eq!(header.as_bytes(), vec![0, 4, b'M', b'Q', b'T', b'T', 5, 0, 0, 0, 0, 0]);
}

#[test]
fn test_connect_payload_first_form() {
    let fields = ConnectPayloadFields::new("abc".to_string());
    assert_eq!(fields.length(), 5);
    let payload = ConnectPayload::new("client".to_string());
    assert_eq!(payload.length(), 8);
    let bytes = payload.as_bytes();
    assert_eq!(bytes, vec![0, 6, b'c', b'l', b'i', b'e', b'n', b't']);
    let mut stream: &[u8] = &bytes;
    let read = ConnectPayload::read_from(&mut stream, 8).unwrap();
    assert_eq!(read.fields.client_id, "client");
    assert_eq!(read.bytes_length, 8);
    let mut empty: &[u8] = &[];
    assert!(matches!(
        ConnectPayload::read_from(&mut empty, 0),
        Err(MqttError::UnexpectedEof)
    ));
}
