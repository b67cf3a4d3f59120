use mqtt::control_packets::mqtt_packet::fixed_header::PacketFixedHeader;
use mqtt::control_packets::mqtt_packet::reason_codes::ReasonCode;
use mqtt::control_packets::mqtt_unsuback::unsuback::Unsuback;
use mqtt::control_packets::mqtt_unsuback::unsuback_properties::UnsubackProperties;

#[test]
fn test_unsuback(){
    let properties = UnsubackProperties{
        packet_identifier: 1,
        reason_string: Some("reason_string".to_string()),
        user_property: Some(("test_key".to_string(), "test_value".to_string())),
        reason_codes: vec![
            ReasonCode::NotAuthorized.get_id(),
        ],
    };

    let unsuback = Unsuback::new(properties);

    // ESCRIBE EL PACKET EN EL BUFFER
    let mut buffer = Vec::new();
    unsuback.write_to(&mut buffer).unwrap();

    // LEE EL PACKET DEL BUFFER
    let mut buffer = buffer.as_slice();
    let unsuback_fixed_header = PacketFixedHeader::read_from(&mut buffer).unwrap();
    let unsuback = Unsuback::read_from(&mut buffer, unsuback_fixed_header.remaining_length).unwrap();   

    assert_eq!(unsuback.properties.packet_identifier, 1);

    if let Some(reason_string) = &unsuback.properties.reason_string {
        assert_eq!(reason_string, "reason_string");
    } else {
        panic!("Error");
    }

    if let Some(user_property) = &unsuback.properties.user_property {
        assert_eq!(user_property.0, "test_key");
        assert_eq!(user_property.1, "test_value");
    } else {
        panic!("Error");
    }

    assert_eq!(unsuback.properties.reason_codes, vec![135]);
}

#[test]
fn test_unsuback_with_empty_optional_fields() {
    let properties = UnsubackProperties {
        packet_identifier: 1,
        reason_codes: vec![],
        ..Default::default()
    };

    let unsuback = Unsuback::new(properties);

    // ESCRIBE EL PACKET EN EL BUFFER
    let mut buffer = Vec::new();
    unsuback.write_to(&mut buffer).unwrap();

    // LEE EL PACKET DEL BUFFER
    let mut buffer = buffer.as_slice();
    let unsuback_fixed_header = PacketFixedHeader::read_from(&mut buffer).unwrap();
    let unsuback = Unsuback::read_from(&mut buffer, unsuback_fixed_header.remaining_length).unwrap();

    assert_eq!(unsuback.properties.packet_identifier, 1);
    assert_eq!(unsuback.properties.reason_codes, Vec::new());
    assert_eq!(unsuback.properties.reason_string, None);
    assert_eq!(unsuback.properties.user_property, None);
}
