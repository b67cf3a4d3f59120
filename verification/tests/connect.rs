use mqtt::control_packets::mqtt_connect::connect::Connect;
use mqtt::control_packets::mqtt_connect::connect_properties::ConnectProperties;
use mqtt::control_packets::mqtt_connect::payload::ConnectPayload;
use mqtt::control_packets::mqtt_packet::fixed_header::{PacketFixedHeader, CONNECT_PACKET};

#[test]
fn test_connect() {
    let properties = ConnectProperties {
        protocol_name: "MQTT".to_string(),
        protocol_version: 5,
        connect_flags: 0b11000000,
        keep_alive: 10,
        session_expiry_interval: Some(0),
        authentication_method: Some("test".to_string()),
        authentication_data: Some("auth".to_string()),
        request_problem_information: Some(0),
        request_response_information: Some(0),
        receive_maximum: Some(0),
        topic_alias_maximum: Some(10),
        user_property: Some(("test_key".to_string(), "test_value".to_string())),
        maximum_packet_size: Some(20),
    };

    let payload = ConnectPayload {
        client_id: "Marcus".to_string(),
        will_delay_interval: Some(30),
        payload_format_indicator: Some(1),
        message_expiry_interval: Some(20),
        content_type: Some("content".to_string()),
        response_topic: Some("response".to_string()),
        correlation_data: Some("correlation".to_string()),
        user_property: Some(("key".to_string(), "value".to_string())),

        will_topic: Some("topic".to_string()),
        will_payload: Some("payload".to_string()),
        username: Some("username".to_string()),
        password: Some("password".to_string()),
    };

    let connect = Connect::new(properties, payload);

    // ESCRIBE EL PACKET EN EL BUFFER
    let mut buffer: Vec<u8> = Vec::new();
    connect.write_to(&mut buffer).unwrap();

    // LEE EL PACKET DEL BUFFER
    let mut buffer = buffer.as_slice();
    let connect_fixed_header = PacketFixedHeader::read_from(&mut buffer).unwrap();
    let connect =
        Connect::read_from(&mut buffer, connect_fixed_header.remaining_length).unwrap();

    assert_eq!(connect_fixed_header.get_packet_type(), CONNECT_PACKET);
    assert_eq!(connect.properties.protocol_name, "MQTT".to_string());
    assert_eq!(connect.properties.protocol_version, 5);
    assert_eq!(connect.properties.connect_flags, 0b11000000);
    assert_eq!(connect.properties.keep_alive, 10);
    assert_eq!(connect.properties.variable_props_size(), 9);

    let props = connect.properties;

    if let Some(value) = props.session_expiry_interval {
        assert_eq!(value, 0);
    } else {
        panic!("Invalid property");
    }

    if let Some(value) = props.authentication_method {
        assert_eq!(value, "test".to_string());
    } else {
        panic!("Invalid property");
    }

    if let Some(value) = props.authentication_data {
        assert_eq!(value, "auth".to_string());
    } else {
        panic!("Invalid property");
    }

    if let Some(value) = props.request_problem_information {
        assert_eq!(value, 0);
    } else {
        panic!("Invalid property");
    }

    if let Some(value) = props.request_response_information {
        assert_eq!(value, 0);
    } else {
        panic!("Invalid property");
    }

    if let Some(value) = props.receive_maximum {
        assert_eq!(value, 0);
    } else {
        panic!("Invalid property");
    }

    if let Some(value) = props.topic_alias_maximum {
        assert_eq!(value, 10);
    } else {
        panic!("Invalid property");
    }

    if let Some(value) = props.user_property {
        assert_eq!(value.0, "test_key".to_string());
        assert_eq!(value.1, "test_value".to_string());
    } else {
        panic!("Invalid property");
    }

    if let Some(value) = props.maximum_packet_size {
        assert_eq!(value, 20);
    } else {
        panic!("Invalid property");
    }

    assert_eq!(connect.payload.client_id, "Marcus".to_string());
    assert_eq!(connect.payload.variable_props_size(), 7);

    let payload_props = connect.payload;

    if let Some(value) = payload_props.will_delay_interval {
        assert_eq!(value, 30);
    } else {
        panic!("Invalid property");
    }

    if let Some(value) = payload_props.payload_format_indicator {
        assert_eq!(value, 1);
    } else {
        panic!("Invalid property");
    }

    if let Some(value) = payload_props.message_expiry_interval {
        assert_eq!(value, 20);
    } else {
        panic!("Invalid property");
    }

    if let Some(value) = payload_props.content_type {
        assert_eq!(value, "content".to_string());
    } else {
        panic!("Invalid property");
    }

    if let Some(value) = payload_props.response_topic {
        assert_eq!(value, "response".to_string());
    } else {
        panic!("Invalid property");
    }

    if let Some(value) = payload_props.correlation_data {
        assert_eq!(value, "correlation".to_string());
    } else {
        panic!("Invalid property");
    }

    if let Some(value) = payload_props.user_property {
        assert_eq!(value.0, "key".to_string());
        assert_eq!(value.1, "value".to_string());
    } else {
        panic!("Invalid property");
    }

    if let Some(value) = payload_props.will_topic {
        assert_eq!(value, "topic".to_string());
    } else {
        panic!("Invalid property");
    }

    if let Some(value) = payload_props.will_payload {
        assert_eq!(value, "payload".to_string());
    } else {
        panic!("Invalid property");
    }

    if let Some(value) = payload_props.username {
        assert_eq!(value, "username".to_string());
    } else {
        panic!("Invalid property");
    }

    if let Some(value) = payload_props.password {
        assert_eq!(value, "password".to_string());
    } else {
        panic!("Invalid property");
    }
}

#[test]
fn test_connect_empty_payload_and_properties() {
    let properties = ConnectProperties {
        protocol_name: String::from("MQTT"),
        protocol_version: 5,
        connect_flags: 0b11000000,
        keep_alive: 10,
        session_expiry_interval: None,
        authentication_method: None,
        authentication_data: None,
        request_problem_information: None,
        request_response_information: None,
        receive_maximum: None,
        topic_alias_maximum: None,
        user_property: None,
        maximum_packet_size: None,
    };

    let payload = ConnectPayload {
        client_id: "test2".to_string(),
        will_delay_interval: None,
        payload_format_indicator: None,
        message_expiry_interval: None,
        content_type: None,
        response_topic: None,
        correlation_data: None,
        user_property: None,

        will_topic: None,
        will_payload: None,
        username: None,
        password: None,
    };

    let connect = Connect::new(properties, payload);

    // ESCRIBE EL PACKET EN EL BUFFER
    let mut buffer: Vec<u8> = Vec::new();
    connect.write_to(&mut buffer).unwrap();

    // LEE EL PACKET DEL BUFFER
    let mut buffer = buffer.as_slice();
    let connect_fixed_header = PacketFixedHeader::read_from(&mut buffer).unwrap();
    let new_connect =
        Connect::read_from(&mut buffer, connect_fixed_header.remaining_length).unwrap();

    assert_eq!(connect_fixed_header.get_packet_type(), CONNECT_PACKET);
    assert_eq!(new_connect.properties.protocol_name, "MQTT".to_string());
    assert_eq!(new_connect.properties.protocol_version, 5);
    assert_eq!(new_connect.properties.connect_flags, 0b11000000);
    assert_eq!(new_connect.properties.keep_alive, 10);
    assert_eq!(new_connect.properties.variable_props_size(), 0);

    assert_eq!(new_connect.properties.session_expiry_interval, None);
    assert_eq!(new_connect.properties.authentication_method, None);
    assert_eq!(new_connect.properties.authentication_data, None);
    assert_eq!(new_connect.properties.request_problem_information, None);
    assert_eq!(new_connect.properties.request_response_information, None);
    assert_eq!(new_connect.properties.receive_maximum, None);
    assert_eq!(new_connect.properties.topic_alias_maximum, None);
    assert_eq!(new_connect.properties.user_property, None);
    assert_eq!(new_connect.properties.maximum_packet_size, None);

    assert_eq!(new_connect.payload.client_id, "test2".to_string());
    assert_eq!(new_connect.payload.variable_props_size(), 0);

    assert_eq!(new_connect.payload.will_topic, None);
    assert_eq!(new_connect.payload.will_payload, None);
    assert_eq!(new_connect.payload.username, None);
    assert_eq!(new_connect.payload.password, None);
}

#[test]
fn connect_default_properties() {
    let properties = ConnectProperties::default();
    assert_eq!(properties.protocol_name, "MQTT".to_string());
    assert_eq!(properties.protocol_version, 5);
    assert_eq!(properties.connect_flags, 0);
    assert_eq!(properties.keep_alive, 0);
    assert_eq!(properties.variable_props_size(), 0);
    // name (2 + 4), version, flags, keep alive (2), empty block (2)
    assert_eq!(properties.size_of(), 12);
    assert_eq!(
        properties.as_bytes().unwrap(),
        vec![0, 4, b'M', b'Q', b'T', b'T', 5, 0, 0, 0, 0, 0]
    );
}

#[test]
fn connect_payload_optional_fields_on_the_wire() {
    let payload = ConnectPayload {
        client_id: "c".to_string(),
        will_topic: Some("t".to_string()),
        will_payload: Some("".to_string()),
        username: Some("u".to_string()),
        ..Default::default()
    };
    let bytes = payload.as_bytes().unwrap();
    assert_eq!(bytes, vec![0, 1, b'c', 0, 0, 0, 1, b't', 0, 0, 0, 1, b'u']);
    assert_eq!(payload.size_of(), bytes.len() as u16);
    let mut stream = bytes.as_slice();
    let read = ConnectPayload::read_from(&mut stream).unwrap();
    assert_eq!(read.client_id, "c".to_string());
    assert_eq!(read.will_topic, Some("t".to_string()));
    assert_eq!(read.will_payload, Some("".to_string()));
    assert_eq!(read.username, Some("u".to_string()));
    assert_eq!(read.password, None);
}

#[test]
fn connect_payload_absent_will_topic_takes_the_next_field() {
    // Without a will topic, the length of the user name is read as the will topic's.
    let payload = ConnectPayload {
        client_id: "c".to_string(),
        username: Some("u".to_string()),
        ..Default::default()
    };
    let bytes = payload.as_bytes().unwrap();
    let mut stream = bytes.as_slice();
    let read = ConnectPayload::read_from(&mut stream).unwrap();
    assert_eq!(read.will_topic, Some("u".to_string()));
    assert_eq!(read.username, None);
}
