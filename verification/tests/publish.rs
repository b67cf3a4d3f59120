use mqtt::control_packets::mqtt_packet::fixed_header::{PacketFixedHeader, PUBLISH_PACKET};
use mqtt::control_packets::mqtt_packet::flags::flags_handler;
use mqtt::control_packets::mqtt_packet::variable_header_property::{
    VariableHeaderProperty, CONTENT_TYPE, CORRELATION_DATA, MESSAGE_EXPIRY_INTERVAL,
    PAYLOAD_FORMAT_INDICATOR, RESPONSE_TOPIC, SUBSCRIPTION_IDENTIFIER, TOPIC_ALIAS, USER_PROPERTY,
};
use mqtt::control_packets::mqtt_publish::payload::_PublishPayload;
use mqtt::control_packets::mqtt_publish::publish::Publish;
use mqtt::control_packets::mqtt_publish::publish_properties::PublishProperties;
use mqtt::control_packets::mqtt_publish::variable_header::{
    _PublishProperties as LegacyPublishProperties, _PublishVariableHeader,
};

#[test]
fn publish_test_publish() {
    let properties = PublishProperties {
        topic_name: "mensajeria".to_string(),
        packet_identifier: 1,
        payload_format_indicator: Some(1),
        message_expiry_interval: Some(0),
        topic_alias: Some(0),
        response_topic: Some("response".to_string()),
        correlation_data: Some("data".to_string()),
        user_property: Some(("test_key".to_string(), "test_value".to_string())),
        subscription_identifier: Some(0),
        content_type: Some("type".to_string()),
        application_message: Some("message".to_string()),
    };

    let publish = Publish::new(1, 2, 1, properties);

    // ESCRIBE EL PACKET EN EL BUFFER
    let mut bytes = Vec::new();
    publish.write_to(&mut bytes).unwrap();

    // LEE EL PACKET DEL BUFFER
    let mut buffer = bytes.as_slice();
    let publish_fixed_header = PacketFixedHeader::read_from(&mut buffer).unwrap();
    //let publish_fixed_header = PacketFixedHeader::read_from_buffer(&mut buffer).unwrap();

    let publish =
        Publish::read_from(&mut buffer, publish_fixed_header.remaining_length).unwrap();

    assert_eq!(publish_fixed_header.get_packet_type(), PUBLISH_PACKET);
    assert_eq!(
        flags_handler::get_publish_dup_flag(publish_fixed_header.packet_type),
        1
    );
    assert_eq!(
        flags_handler::get_publish_qos_level(publish_fixed_header.packet_type),
        2
    );
    assert_eq!(
        flags_handler::get_publish_retain(publish_fixed_header.packet_type),
        1
    );

    assert_eq!(publish.properties.topic_name, "mensajeria".to_string());
    assert_eq!(publish.properties.packet_identifier, 1);

    let props = publish.properties;

    if let Some(value) = props.payload_format_indicator {
        assert_eq!(value, 1);
    } else {
        panic!("Error");
    }

    if let Some(value) = props.message_expiry_interval {
        assert_eq!(value, 0);
    } else {
        panic!("Error");
    }

    if let Some(value) = props.topic_alias {
        assert_eq!(value, 0);
    } else {
        panic!("Error");
    }

    if let Some(value) = props.response_topic {
        assert_eq!(value, "response");
    } else {
        panic!("Error");
    }

    if let Some(value) = props.correlation_data {
        assert_eq!(value, "data".to_string());
    } else {
        panic!("Error");
    }

    if let Some(value) = props.user_property {
        assert_eq!(value.0, "test_key");
        assert_eq!(value.1, "test_value");
    } else {
        panic!("Error");
    }

    if let Some(value) = props.subscription_identifier {
        assert_eq!(value, 0);
    } else {
        panic!("Error");
    }

    if let Some(value) = props.content_type {
        assert_eq!(value, "type");
    } else {
        panic!("Error");
    }

    if let Some(value) = props.application_message {
        assert_eq!(value, "message");
    } else {
        panic!("Error");
    }
}

#[test]
fn test_publish_empty_optional_fields() {
    let properties = PublishProperties {
        topic_name: "mensajeria".to_string(),
        packet_identifier: 2,
        ..Default::default()
    };

    let publish = Publish::new(0, 0, 0, properties);

    // ESCRIBE EL PACKET EN EL BUFFER
    let mut bytes = Vec::new();
    publish.write_to(&mut bytes).unwrap();

    // LEE EL PACKET DEL BUFFER
    let mut buffer = bytes.as_slice();
    let publish_fixed_header = PacketFixedHeader::read_from(&mut buffer).unwrap();
    //let publish_fixed_header = PacketFixedHeader::read_from_buffer(&mut buffer).unwrap();
    let publish =
        Publish::read_from(&mut buffer, publish_fixed_header.remaining_length).unwrap();

    assert_eq!(publish_fixed_header.get_packet_type(), PUBLISH_PACKET);
    assert_eq!(
        flags_handler::get_publish_dup_flag(publish_fixed_header.packet_type),
        0
    );
    assert_eq!(
        flags_handler::get_publish_qos_level(publish_fixed_header.packet_type),
        0
    );
    assert_eq!(
        flags_handler::get_publish_retain(publish_fixed_header.packet_type),
        0
    );

    assert_eq!(publish.properties.topic_name, "mensajeria".to_string());
    assert_eq!(publish.properties.packet_identifier, 2);

    assert_eq!(publish.properties.payload_format_indicator, None);
    assert_eq!(publish.properties.message_expiry_interval, None);
    assert_eq!(publish.properties.topic_alias, None);
    assert_eq!(publish.properties.response_topic, None);
    assert_eq!(publish.properties.correlation_data, None);
    assert_eq!(publish.properties.user_property, None);
    assert_eq!(publish.properties.subscription_identifier, None);
    assert_eq!(publish.properties.content_type, None);

    assert_eq!(publish.properties.application_message, None);
}

#[test]
fn variable_header_test_publish() {
    let topic = "topic".to_string();

    let publish_varible_header = _PublishVariableHeader::_new(
        topic.len() as u16,
        topic,
        1,
        LegacyPublishProperties {
            payload_format_indicator: 1,
            message_expiry_interval: 1,
            content_type: "type".to_string(),
            response_topic: "response".to_string(),
            correlation_data: 1,
            subscription_identifier: 1,
            topic_alias: 1,
            user_property_key: "key".to_string(),
            user_property_value: "value".to_string(),
        },
    )
    .unwrap();

    let mut buf = Vec::new();
    publish_varible_header
        ._as_bytes()
        .iter()
        .for_each(|b| buf.push(*b));

    let mut stream = buf.as_slice();
    let publish_varible_header = _PublishVariableHeader::_read_from(&mut stream).unwrap();

    assert_eq!(publish_varible_header.topic_name.length, 5);
    assert_eq!(publish_varible_header.topic_name.name, "topic");
    assert_eq!(publish_varible_header.packet_identifier, 1);

    if let VariableHeaderProperty::PayloadFormatIndicator(payload_format_indicator) =
        &publish_varible_header
            .properties
            ._get_property(PAYLOAD_FORMAT_INDICATOR)
            .unwrap()
    {
        assert_eq!(*payload_format_indicator, 1);
    } else {
        panic!("Error");
    }

    if let VariableHeaderProperty::MessageExpiryInterval(message_expiry_interval) =
        &publish_varible_header
            .properties
            ._get_property(MESSAGE_EXPIRY_INTERVAL)
            .unwrap()
    {
        assert_eq!(*message_expiry_interval, 1);
    } else {
        panic!("Error");
    }

    if let VariableHeaderProperty::ContentType(content_type) = &publish_varible_header
        .properties
        ._get_property(CONTENT_TYPE)
        .unwrap()
    {
        assert_eq!(content_type, "type");
    } else {
        panic!("Error");
    }

    if let VariableHeaderProperty::ResponseTopic(response_topic) = &publish_varible_header
        .properties
        ._get_property(RESPONSE_TOPIC)
        .unwrap()
    {
        assert_eq!(response_topic, "response");
    } else {
        panic!("Error");
    }

    if let VariableHeaderProperty::CorrelationData(correlation_data) = &publish_varible_header
        .properties
        ._get_property(CORRELATION_DATA)
        .unwrap()
    {
        assert_eq!(*correlation_data, 1);
    } else {
        panic!("Error");
    }

    if let VariableHeaderProperty::SubscriptionIdentifier(subscription_identifier) =
        &publish_varible_header
            .properties
            ._get_property(SUBSCRIPTION_IDENTIFIER)
            .unwrap()
    {
        assert_eq!(*subscription_identifier, 1);
    } else {
        panic!("Error");
    }

    if let VariableHeaderProperty::TopicAlias(topic_alias) = &publish_varible_header
        .properties
        ._get_property(TOPIC_ALIAS)
        .unwrap()
    {
        assert_eq!(*topic_alias, 1);
    } else {
        panic!("Error");
    }

    if let VariableHeaderProperty::UserProperty(user_property) = &publish_varible_header
        .properties
        ._get_property(USER_PROPERTY)
        .unwrap()
    {
        assert_eq!(user_property.0, "key");
        assert_eq!(user_property.1, "value");
    } else {
        panic!("Error");
    }
}

#[test]
fn test_publish_variable_properties_length() {
    let topic = "topic".to_string();

    let publish_varible_header = _PublishVariableHeader::_new(
        topic.len() as u16, // 2
        topic,              // 5
        1,                  // 2
        LegacyPublishProperties {
            payload_format_indicator: 1,              // 1 + 1
            message_expiry_interval: 1,               // 1 + 4
            content_type: "type".to_string(),         // 3 + 4
            response_topic: "response".to_string(),   // 3 + 8
            correlation_data: 1,                      // 1 + 2
            subscription_identifier: 1,               // 1 + 4
            topic_alias: 1,                           // 1 + 2
            user_property_key: "key".to_string(),     // 1 + 2 + 3
            user_property_value: "value".to_string(), // 2 + 5
        },
    )
    .unwrap();

    let variable_header_length = 2
        + "topic".to_string().len()
        + 2
        + 1
        + 1
        + 1
        + 4
        + 3
        + "type".to_string().len()
        + 3
        + "response".to_string().len()
        + 1
        + 2
        + 1
        + 4
        + 1
        + 2
        + 5
        + "key".to_string().len()
        + "value".to_string().len();
    assert_eq!(
        publish_varible_header._length(),
        variable_header_length as u8
    );
}

#[test]
fn publish_bytes_on_the_wire() {
    let properties = PublishProperties {
        topic_name: "a/b".to_string(),
        packet_identifier: 5,
        subscription_identifier: Some(300),
        correlation_data: Some("x".to_string()),
        application_message: Some("hi".to_string()),
        ..Default::default()
    };
    let publish = Publish::new(0, 1, 0, properties);
    assert_eq!(publish.fixed_header_flags, 2);
    let mut buffer = Vec::new();
    publish.write_to(&mut buffer).unwrap();
    assert_eq!(
        buffer,
        vec![
            0x32, 20, 0, 3, b'a', b'/', b'b', 0, 5, 0, 7, 9, 0, 1, b'x', 11, 0xAC, 0x02, 0, 2,
            b'h', b'i',
        ]
    );
    let mut stream = buffer.as_slice();
    let header = PacketFixedHeader::read_from(&mut stream).unwrap();
    let read = Publish::read_from(&mut stream, header.remaining_length).unwrap();
    assert_eq!(read.fixed_header_flags, 0);
    assert_eq!(read.properties.subscription_identifier, Some(300));
    assert_eq!(read.properties.correlation_data, Some("x".to_string()));
    assert_eq!(read.properties.application_message, Some("hi".to_string()));
}

#[test]
fn publish_payload_roundtrip() {
    let payload = _PublishPayload::_new("message".to_string());
    assert_eq!(payload._length(), 7);
    let bytes = payload._as_bytes();
    assert_eq!(bytes, vec![0, 7, b'm', b'e', b's', b's', b'a', b'g', b'e']);
    let mut stream = bytes.as_slice();
    let read = _PublishPayload::_read_from(&mut stream).unwrap();
    assert_eq!(read.bytes_length, 7);
    assert_eq!(read.message, "message".to_string());
}
