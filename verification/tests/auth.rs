use mqtt::control_packets::mqtt_auth::auth::Auth;
use mqtt::control_packets::mqtt_auth::auth_properties::AuthProperties;
use mqtt::control_packets::mqtt_packet::fixed_header::{PacketFixedHeader, AUTH_PACKET};
use mqtt::control_packets::mqtt_packet::reason_codes::ReasonCode;

#[test]
fn test_auth() {
    let properties = AuthProperties {
        reason_code: ReasonCode::ContinueAuthentication.get_id(),
        authentication_method: Some("method".to_string()),
        authentication_data: Some("data".to_string()),
        reason_string: Some("string".to_string()),
        user_property: Some(("key".to_string(), "value".to_string())),
    };

    let auth = Auth::new(properties);

    let mut buffer: Vec<u8> = Vec::new();
    auth.write_to(&mut buffer).unwrap();

    let mut buffer = buffer.as_slice();
    let auth_fixed_header = PacketFixedHeader::read_from(&mut buffer).unwrap();
    let auth = Auth::read_from(&mut buffer, auth_fixed_header.remaining_length).unwrap();

    assert_eq!(auth_fixed_header.packet_type, AUTH_PACKET);

    let props = auth.properties;
    assert_eq!(props.reason_code, ReasonCode::ContinueAuthentication.get_id());

    if let Some(value) = props.authentication_method {
        assert_eq!(value, "method".to_string());
    } else {
        panic!("Invalid property");
    }

    if let Some(value) = props.authentication_data {
        assert_eq!(value, "data".to_string());
    } else {
        panic!("Invalid property");
    }

    if let Some(value) = props.reason_string {
        assert_eq!(value, "string".to_string());
    } else {
        panic!("Invalid property");
    }

    if let Some(value) = props.user_property {
        assert_eq!(value.0, "key".to_string());
        assert_eq!(value.1, "value".to_string());
    } else {
        panic!("Invalid property");
    }
}

#[test]
fn test_auth_success() {
    let properties = AuthProperties {
        reason_code: ReasonCode::Success.get_id(),
        authentication_method: Some("passkey".to_string()),
        authentication_data: Some("squidward".to_string()),
        reason_string: Some("reason str".to_string()),
        user_property: Some(("newkey".to_string(), "newvalue".to_string())),
    };

    let auth = Auth::new(properties);

    let mut buffer: Vec<u8> = Vec::new();
    auth.write_to(&mut buffer).unwrap();

    let mut buffer = buffer.as_slice();
    let auth_fixed_header = PacketFixedHeader::read_from(&mut buffer).unwrap();
    let auth = Auth::read_from(&mut buffer, auth_fixed_header.remaining_length).unwrap();

    assert_eq!(auth_fixed_header.packet_type, AUTH_PACKET);

    let props = auth.properties;
    assert_eq!(props.reason_code, ReasonCode::Success.get_id());

    if let Some(value) = props.authentication_method {
        assert_eq!(value, "passkey".to_string());
    } else {
        panic!("Invalid property");
    }

    if let Some(value) = props.authentication_data {
        assert_eq!(value, "squidward".to_string());
    } else {
        panic!("Invalid property");
    }

    if let Some(value) = props.reason_string {
        assert_eq!(value, "reason str".to_string());
    } else {
        panic!("Invalid property");
    }

    if let Some(value) = props.user_property {
        assert_eq!(value.0, "newkey".to_string());
        assert_eq!(value.1, "newvalue".to_string());
    } else {
        panic!("Invalid property");
    }
}

#[test]
fn test_empty_properties() {
    let properties = AuthProperties {
        reason_code: ReasonCode::ReAuthenticate.get_id(),
        ..Default::default()
    };

    let auth = Auth::new(properties);

    let mut buffer: Vec<u8> = Vec::new();
    auth.write_to(&mut buffer).unwrap();

    let mut buffer = buffer.as_slice();
    let auth_fixed_header = PacketFixedHeader::read_from(&mut buffer).unwrap();
    let auth = Auth::read_from(&mut buffer, auth_fixed_header.remaining_length).unwrap();

    assert_eq!(auth_fixed_header.packet_type, AUTH_PACKET);

    let props = auth.properties;
    assert_eq!(props.reason_code, ReasonCode::ReAuthenticate.get_id());

    assert_eq!(props.authentication_method, None);
    assert_eq!(props.authentication_data, None);
    assert_eq!(props.reason_string, None);
    assert_eq!(props.user_property, None);
}

#[test]
fn auth_bytes_on_the_wire() {
    let properties = AuthProperties {
        reason_code: 0x18,
        authentication_method: Some("m".to_string()),
        authentication_data: Some("d".to_string()),
        reason_string: None,
        user_property: None,
    };
    let mut buffer: Vec<u8> = Vec::new();
    Auth::new(properties).write_to(&mut buffer).unwrap();
    // fixed header, reason code, property length, method (21), data (22) as binary data
    assert_eq!(
        buffer,
        vec![0xF0, 11, 0x18, 0, 8, 21, 0, 1, b'm', 22, 0, 1, b'd']
    );
}

#[test]
fn auth_truncated_stream_is_an_error() {
    let bytes = [0x18u8, 0, 5, 21];
    let mut stream: &[u8] = &bytes;
    assert!(Auth::read_from(&mut stream, 4).is_err());
}
