use mqtt::control_packets::mqtt_packet::fixed_header::PacketFixedHeader;
use mqtt::control_packets::mqtt_packet::reason_codes::ReasonCode;
use mqtt::control_packets::mqtt_suback::suback::Suback;
use mqtt::control_packets::mqtt_suback::suback_properties::SubackProperties;

#[test]
fn test_suback() {
    let properties = SubackProperties {
        packet_identifier: 1,
        reason_string: Some("reason_string".to_string()),
        user_property: Some(("test_key".to_string(), "test_value".to_string())),

        // Payload
        reason_codes: vec![
            ReasonCode::ReceiveMaximumExceeded.get_id(), 
            ReasonCode::BadUserNameOrPassword.get_id(), 
            ReasonCode::NotAuthorized.get_id(), 
            ReasonCode::ServerUnavailable.get_id()
        ],
    };

    let suback = Suback::new(properties);

    // ESCRIBE EL PACKET EN EL BUFFER
    let mut buffer = Vec::new();
    suback.write_to(&mut buffer).unwrap();

    // LEE EL PACKET DEL BUFFER
    let mut buffer = buffer.as_slice();
    let suback_fixed_header = PacketFixedHeader::read_from(&mut buffer).unwrap();
    let suback = Suback::read_from(&mut buffer, suback_fixed_header.remaining_length).unwrap();

    assert_eq!(suback.properties.packet_identifier, 1);

    if let Some(reason_string) = &suback.properties.reason_string {
        assert_eq!(reason_string, "reason_string");
    } else {
        panic!("Error");
    }

    if let Some(user_property) = &suback.properties.user_property {
        assert_eq!(user_property.0, "test_key");
        assert_eq!(user_property.1, "test_value");
    } else {
        panic!("Error");
    }
    assert_eq!(suback.properties.reason_codes, vec![147, 134, 135, 136]);
}

#[test]
fn suback_bytes_on_the_wire() {
    let properties = SubackProperties {
        packet_identifier: 9,
        reason_codes: vec![0, 1, 2],
        ..Default::default()
    };
    let mut buffer = Vec::new();
    Suback::new(properties).write_to(&mut buffer).unwrap();
    assert_eq!(buffer, vec![0x90, 7, 0, 9, 0, 0, 0, 1, 2]);
}
