use mqtt::control_packets::mqtt_packet::fixed_header::PacketFixedHeader;
use mqtt::control_packets::mqtt_unsubscribe::unsubscribe::Unsubscribe;
use mqtt::control_packets::mqtt_unsubscribe::unsubscribe_properties::UnsubscribeProperties;

#[test]
fn test_unsubscribe_to_one_topic() {
    let properties = UnsubscribeProperties {
        packet_identifier: 1,
        user_property: None,
        topic_filters: vec!["topic".to_string()],
    };

    let unsubscribe = Unsubscribe::new(properties);

    //ESCRIBE EL PACKET EN EL BUFFER
    let mut bytes = Vec::new();
    unsubscribe.write_to(&mut bytes).unwrap();

    //LEE EL PACKET DEL BUFFER
    let mut buffer = bytes.as_slice();
    let unsubscribe_fixed_header = PacketFixedHeader::read_from(&mut buffer).unwrap();
    assert!(unsubscribe_fixed_header.verify_reserved_bits_for_subscribe_packets());

    let unsubscribe =
        Unsubscribe::read_from(&mut buffer, unsubscribe_fixed_header.remaining_length).unwrap();

    assert_eq!(unsubscribe.properties.packet_identifier, 1);
    assert_eq!(unsubscribe.properties.topic_filters.len(), 1);
    assert_eq!(unsubscribe.properties.topic_filters[0], "topic");
}

#[test]
fn test_unsubscribe_to_multiple_topics() {
    let properties = UnsubscribeProperties {
        packet_identifier: 1,
        user_property: None,
        topic_filters: vec![
            "topic1".to_string(),
            "topic2".to_string(),
            "topic3".to_string(),
        ],
    };

    let unsubscribe = Unsubscribe::new(properties);

    //ESCRIBE EL PACKET EN EL BUFFER
    let mut bytes = Vec::new();
    unsubscribe.write_to(&mut bytes).unwrap();

    //LEE EL PACKET DEL BUFFER
    let mut buffer = bytes.as_slice();
    let unsubscribe_fixed_header = PacketFixedHeader::read_from(&mut buffer).unwrap();
    assert!(unsubscribe_fixed_header.verify_reserved_bits_for_subscribe_packets());

    let unsubscribe =
        Unsubscribe::read_from(&mut buffer, unsubscribe_fixed_header.remaining_length).unwrap();

    assert_eq!(unsubscribe.properties.packet_identifier, 1);
    assert_eq!(unsubscribe.properties.topic_filters.len(), 3);
    assert_eq!(unsubscribe.properties.topic_filters[0], "topic1");
    assert_eq!(unsubscribe.properties.topic_filters[1], "topic2");
    assert_eq!(unsubscribe.properties.topic_filters[2], "topic3");
}

#[test]
fn unsubscribe_bytes_on_the_wire() {
    let properties = UnsubscribeProperties {
        packet_identifier: 3,
        user_property: None,
        topic_filters: vec!["t".to_string()],
    };
    let mut buffer = Vec::new();
    Unsubscribe::new(properties).write_to(&mut buffer).unwrap();
    assert_eq!(buffer, vec![0xA2, 9, 0, 3, 0, 0, 0, 1, 0, 1, b't']);
}
