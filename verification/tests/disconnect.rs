use mqtt::control_packets::mqtt_disconnect::disconnect::{
    Disconnect, _Disconnect, _DisconnectProperties,
};
use mqtt::control_packets::mqtt_disconnect::disconnect_properties::DisconnectProperties;
use mqtt::control_packets::mqtt_disconnect::variable_header::_DisconnectVariableHeader;
use mqtt::control_packets::mqtt_packet::fixed_header::{PacketFixedHeader, DISCONNECT_PACKET};
use mqtt::control_packets::mqtt_packet::variable_header_property::{
    VariableHeaderProperty, REASON_STRING, SERVER_REFERENCE, SESSION_EXPIRY_INTERVAL, USER_PROPERTY,
};

#[test]
fn disconnect_test_disconnect() {
    let disconnect = _Disconnect::_new(
        0,
        _DisconnectProperties {
            session_expiry_interval: 0,
            reason_string: "reason".to_string(),
            user_property: ("name".to_string(), "value".to_string()),
            server_reference: "server".to_string(),
        },
    )
    .unwrap();

    let mut buf = Vec::new();
    disconnect._write_to(&mut buf).unwrap();

    let mut buf = buf.as_slice();
    let disconnect = _Disconnect::_read_from(&mut buf).unwrap();

    assert_eq!(disconnect.fixed_header.packet_type, DISCONNECT_PACKET);
    assert_eq!(disconnect.variable_header.disconnect_reason_code, 0);
  
    let props = &disconnect.variable_header.properties;

    if let VariableHeaderProperty::SessionExpiryInterval(value) =
        props._get_property(SESSION_EXPIRY_INTERVAL).unwrap()
    {
        assert_eq!(*value, 0);
    } else {
        panic!("Error");
    }

    if let VariableHeaderProperty::ReasonString(value) =
        props._get_property(REASON_STRING).unwrap()
    {
        assert_eq!(value, "reason");
    } else {
        panic!("Error");
    }

    if let VariableHeaderProperty::UserProperty(value) =
        props._get_property(USER_PROPERTY).unwrap()
    {
        assert_eq!(value.0, "name");
        assert_eq!(value.1, "value");
    } else {
        panic!("Error");
    }

    if let VariableHeaderProperty::ServerReference(value) =
        props._get_property(SERVER_REFERENCE).unwrap()
    {
        assert_eq!(value, "server");
    } else {
        panic!("Error");
    }
}

#[test]
fn variable_header_test_disconnect() {
    let disconnect_variable_header = _DisconnectVariableHeader::_new(
        0,
        _DisconnectProperties {
            session_expiry_interval: 0,
            reason_string: "reason".to_string(),
            user_property: ("name".to_string(), "value".to_string()),
            server_reference: "server".to_string(),
        },
    )
    .unwrap();

    let mut buf = Vec::new();
    disconnect_variable_header
        ._as_bytes()
        .iter()
        .for_each(|b| buf.push(*b));

    let mut stream = buf.as_slice();
    let disconnect_variable_header =
        _DisconnectVariableHeader::_read_from(&mut stream).unwrap();

    assert_eq!(disconnect_variable_header.disconnect_reason_code, 0);

    if let VariableHeaderProperty::SessionExpiryInterval(session_expiry_interval) =
        &disconnect_variable_header
            .properties
            ._get_property(SESSION_EXPIRY_INTERVAL)
            .unwrap()
    {
        assert_eq!(*session_expiry_interval, 0);
    } else {
        panic!("Error");
    }

    if let VariableHeaderProperty::ReasonString(reason_string) = &disconnect_variable_header
        .properties
        ._get_property(REASON_STRING)
        .unwrap()
    {
        assert_eq!(reason_string, "reason");
    } else {
        panic!("Error");
    }

    if let VariableHeaderProperty::UserProperty(user_property) = &disconnect_variable_header
        .properties
        ._get_property(USER_PROPERTY)
        .unwrap()
    {
        assert_eq!(user_property.0, "name");
        assert_eq!(user_property.1, "value");
    } else {
        panic!("Error");
    }

    if let VariableHeaderProperty::ServerReference(server_reference) =
        &disconnect_variable_header
            .properties
            ._get_property(SERVER_REFERENCE)
            .unwrap()
    {
        assert_eq!(server_reference, "server");
    } else {
        panic!("Error");
    }
}

#[test]
fn disconnect_variable_header_properties_lenght() {
    let disconnect_variable_header = _DisconnectVariableHeader::_new(
        0, //1
        _DisconnectProperties {
            session_expiry_interval: 0,                               // 1 + 4
            reason_string: "reason".to_string(),                      // 3 + 6
            user_property: ("name".to_string(), "value".to_string()), // 5 + 4 + 5
            server_reference: "server".to_string(),                   //3 + 6
        },
    )
    .unwrap();

    let variable_header_lenght = 1
        + 1
        + 4
        + 3
        + "reason".to_string().len()
        + 5
        + "name".to_string().len()
        + "value".to_string().len()
        + 3
        + "server".to_string().len();
    assert_eq!(
        disconnect_variable_header._length(),
        variable_header_lenght as u8
    );
}

#[test]
fn disconnect_packet_roundtrip() {
    let properties = DisconnectProperties {
        disconnect_reason_code: 4,
        session_expiry_interval: Some(30),
        reason_string: None,
        user_property: Some(("k".to_string(), "v".to_string())),
        server_reference: Some("s".to_string()),
    };
    let mut buffer: Vec<u8> = Vec::new();
    Disconnect::new(properties).write_to(&mut buffer).unwrap();
    assert_eq!(
        buffer,
        vec![0xE0, 19, 4, 0, 16, 17, 0, 0, 0, 30, 38, 0, 1, b'k', 0, 1, b'v', 28, 0, 1, b's']
    );
    let mut stream = buffer.as_slice();
    let header = PacketFixedHeader::read_from(&mut stream).unwrap();
    let read = Disconnect::read_from(&mut stream, header.remaining_length).unwrap();
    assert_eq!(read.properties.disconnect_reason_code, 4);
    assert_eq!(read.properties.session_expiry_interval, Some(30));
    assert_eq!(read.properties.reason_string, None);
    assert_eq!(read.properties.user_property, Some(("k".to_string(), "v".to_string())));
    assert_eq!(read.properties.server_reference, Some("s".to_string()));
}
