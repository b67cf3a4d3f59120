use mqtt::control_packets::mqtt_connack::connack::Connack;
use mqtt::control_packets::mqtt_connack::connack_properties::ConnackProperties;
use mqtt::control_packets::mqtt_connack::connect_reason_code::ConnectReasonMode;
use mqtt::control_packets::mqtt_connack::fixed_header::ConnackFixedHeader;
use mqtt::control_packets::mqtt_connack::variable_header::{new_connack_properties, ConnackVariableHeader};
use mqtt::control_packets::mqtt_packet::fixed_header::{PacketFixedHeader, CONNACK_PACKET};
use mqtt::control_packets::mqtt_packet::reason_codes::ReasonCode;

#[test]
fn test_write_to() {
    let properties = ConnackProperties {
        connect_acknowledge_flags: 0,
        connect_reason_code: ReasonCode::Success.get_id(),
        session_expiry_interval: Some(0),
        assigned_client_identifier: Some("client".to_string()),
        server_keep_alive: Some(0),
        authentication_method: Some("auth".to_string()),
        authentication_data: Some("auth_data".to_string()),
        response_information: Some("response".to_string()),
        server_reference: Some("server".to_string()),
        reason_string: Some("reason".to_string()),
        receive_maximum: Some(0),
        topic_alias_maximum: Some(0),
        maximum_qos: Some(0),
        retain_available: Some(0),
        wildcard_subscription_available: Some(0),
        subscription_identifiers_available: Some(0),
        shared_subscription_available: Some(0),
        user_property: Some(("test_key".to_string(), "test_value".to_string())),
        maximum_packet_size: Some(0),
    };

    let connack = Connack::new(properties);

    let mut buffer: Vec<u8> = Vec::new();
    connack.write_to(&mut buffer).unwrap();

    let mut buffer = buffer.as_slice();
    let connack_fixed_header = PacketFixedHeader::read_from(&mut buffer).unwrap();

    let connack =
        Connack::read_from(&mut buffer, connack_fixed_header.remaining_length).unwrap();

    assert_eq!(connack_fixed_header.get_packet_type(), CONNACK_PACKET);
    assert_eq!(connack.properties.connect_acknowledge_flags, 0);
    assert_eq!(connack.properties.connect_reason_code, 0);
    assert_eq!(connack.properties.variable_props_size(), 17);

    let props = connack.properties;

    if let Some(value) = props.session_expiry_interval {
        assert_eq!(value, 0);
    } else {
        panic!("Invalid Session Expiry Interval");
    }

    if let Some(value) = props.assigned_client_identifier {
        assert_eq!(value, "client");
    } else {
        panic!("Invalid Assigned Client Identifier");
    }

    if let Some(value) = props.server_keep_alive {
        assert_eq!(value, 0);
    } else {
        panic!("Invalid Server Keep Alive");
    }

    if let Some(value) = props.authentication_method {
        assert_eq!(value, "auth");
    } else {
        panic!("Invalid Authentication Method");
    }

    if let Some(value) = props.authentication_data {
        assert_eq!(value, "auth_data");
    } else {
        panic!("Invalid Authentication Data");
    }

    if let Some(value) = props.response_information {
        assert_eq!(value, "response");
    } else {
        panic!("Invalid Response Information");
    }

    if let Some(value) = props.server_reference {
        assert_eq!(value, "server");
    } else {
        panic!("Invalid Server Reference");
    }

    if let Some(value) = props.reason_string {
        assert_eq!(value, "reason");
    } else {
        panic!("Invalid Reason String");
    }

    if let Some(value) = props.receive_maximum {
        assert_eq!(value, 0);
    } else {
        panic!("Invalid Receive Maximum");
    }

    if let Some(value) = props.topic_alias_maximum {
        assert_eq!(value, 0);
    } else {
        panic!("Invalid Topic Alias Maximum");
    }

    if let Some(value) = props.maximum_qos {
        assert_eq!(value, 0);
    } else {
        panic!("Invalid Maximum QoS");
    }

    if let Some(value) = props.retain_available {
        assert_eq!(value, 0);
    } else {
        panic!("Invalid Retain Available");
    }

    if let Some(value) = props.wildcard_subscription_available {
        assert_eq!(value, 0);
    } else {
        panic!("Invalid Wildcard Subscription Available");
    }

    if let Some(value) = props.subscription_identifiers_available {
        assert_eq!(value, 0);
    } else {
        panic!("Invalid Subscription Identifiers Available");
    }

    if let Some(value) = props.shared_subscription_available {
        assert_eq!(value, 0);
    } else {
        panic!("Invalid Shared Subscription Available");
    }

    if let Some(value) = props.user_property {
        assert_eq!(value.0, "test_key");
        assert_eq!(value.1, "test_value");
    } else {
        panic!("Invalid User Property");
    }

    if let Some(value) = props.maximum_packet_size {
        assert_eq!(value, 0);
    } else {
        panic!("Invalid Maximum Packet Size");
    }
}


fn empty_connack(flags: u8, code: u8) -> ConnackProperties {
    ConnackProperties {
        connect_acknowledge_flags: flags,
        connect_reason_code: code,
        session_expiry_interval: None,
        assigned_client_identifier: None,
        server_keep_alive: None,
        authentication_method: None,
        authentication_data: None,
        response_information: None,
        server_reference: None,
        reason_string: None,
        receive_maximum: None,
        topic_alias_maximum: None,
        maximum_qos: None,
        retain_available: None,
        wildcard_subscription_available: None,
        subscription_identifiers_available: None,
        shared_subscription_available: None,
        user_property: None,
        maximum_packet_size: None,
    }
}

#[test]
fn connack_without_properties_on_the_wire() {
    let connack = Connack::new(empty_connack(1, ConnectReasonMode::_NotAuthorized.get_id()));
    let mut buffer: Vec<u8> = Vec::new();
    connack.write_to(&mut buffer).unwrap();
    assert_eq!(buffer, vec![0x20, 4, 1, 135, 0, 0]);
    assert_eq!(connack.properties.size_of(), 4);
    assert_eq!(connack.properties.variable_props_size(), 0);
}

#[test]
fn connack_variable_header_reads_back() {
    let mut props = empty_connack(0, ConnectReasonMode::Success.get_id());
    props.server_keep_alive = Some(60);
    props.maximum_qos = Some(1);
    let header = ConnackVariableHeader::new(&props).unwrap();
    assert_eq!(header.length(), 2 + 3 + 2);
    let bytes = header.as_bytes();
    assert_eq!(bytes, vec![0, 0, 0, 5, 19, 0, 60, 36, 1]);
    let mut stream = bytes.as_slice();
    let read = ConnackVariableHeader::read_from(&mut stream).unwrap();
    assert_eq!(read.connect_reason_code, 0);
    assert_eq!(read.properties.bytes_length, 5);
    assert_eq!(read.properties.properties.len(), 2);
    assert_eq!(new_connack_properties(&props).unwrap().properties.len(), 2);
}

#[test]
fn connect_reason_mode_values() {
    assert_eq!(ConnectReasonMode::Success.get_id(), 0);
    assert_eq!(ConnectReasonMode::_BadAuthenticationMethod.get_id(), 140);
    assert_eq!(ConnectReasonMode::_ConnectionRateExceeded.get_id(), 159);
    let header = ConnackFixedHeader::new(CONNACK_PACKET, 3);
    assert_eq!(header.packet_type_and_flags, 0x20);
    assert_eq!(header.remaining_length, 3);
}
