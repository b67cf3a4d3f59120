use mqtt::control_packets::mqtt_packet::fixed_header::{PacketFixedHeader, PUBACK_PACKET};
use mqtt::control_packets::mqtt_packet::packet_property::{PacketProperty, REASON_STRING, USER_PROPERTY};
use mqtt::control_packets::mqtt_puback::puback::Puback;
use mqtt::control_packets::mqtt_puback::puback_properties::PubackProperties;
use mqtt::control_packets::mqtt_puback::variable_header::{
    _PubackProperties as LegacyPubackProperties, _PubackVariableHeader,
};

#[test]
fn puback_test_puback() {
    let properties = PubackProperties {
        packet_id: 1,
        puback_reason_code: 0,
        reason_string: Some("reason".to_string()),
        user_property: Some(("name".to_string(), "value".to_string())),
    };
    let puback = Puback::new(properties);

    // ESCRIBE EL PACKET EN EL BUFFER
    let mut buf = Vec::new();
    puback.write_to(&mut buf).unwrap();

    // LEE EL PACKET DEL BUFFER
    let mut buf = buf.as_slice();
    let puback_fixed_header = PacketFixedHeader::read_from(&mut buf).unwrap();

    let puback = Puback::read_from(&mut buf, puback_fixed_header.remaining_length).unwrap();

    assert_eq!(puback_fixed_header.get_packet_type(), PUBACK_PACKET);
    assert_eq!(puback.properties.packet_id, 1);
    assert_eq!(puback.properties.puback_reason_code, 0);

    let props = puback.properties;

    if let Some(value) = props.reason_string {
        assert_eq!(value, "reason");
    } else {
        panic!("Invalid Reason String");
    }

    if let Some(value) = props.user_property {
        assert_eq!(value.0, "name");
        assert_eq!(value.1, "value");
    } else {
        panic!("Invalid User Property");
    }
}

#[test]
fn test_puback_no_properties() {
    let properties = PubackProperties {
        packet_id: 2,
        ..Default::default()
    };

    let puback = Puback::new(properties);

    // ESCRIBE EL PACKET EN EL BUFFER
    let mut buf = Vec::new();
    puback.write_to(&mut buf).unwrap();

    // LEE EL PACKET DEL BUFFER
    let mut buf = buf.as_slice();
    let puback_fixed_header = PacketFixedHeader::read_from(&mut buf).unwrap();

    let puback = Puback::read_from(&mut buf, puback_fixed_header.remaining_length).unwrap();

    assert_eq!(puback_fixed_header.get_packet_type(), PUBACK_PACKET);
    assert_eq!(puback.properties.packet_id, 2);
    assert_eq!(puback.properties.puback_reason_code, 0);

    assert_eq!(puback.properties.reason_string, None);
    assert_eq!(puback.properties.user_property, None);
}

#[test]
fn variable_header_test_puback() {
    let puback_varible_header = _PubackVariableHeader::_new(
        1,
        0,
        LegacyPubackProperties {
            reason_string: "reason".to_string(),
            user_property: ("name".to_string(), "value".to_string()),
        },
    )
    .unwrap();

    let mut buf = Vec::new();
    puback_varible_header
        ._as_bytes()
        .iter()
        .for_each(|b| buf.push(*b));

    let mut stream = buf.as_slice();
    let puback_varible_header = _PubackVariableHeader::_read_from(&mut stream).unwrap();

    assert_eq!(puback_varible_header.packet_id, 1);
    assert_eq!(puback_varible_header.puback_reason_code, 0);
    if let PacketProperty::ReasonString(reason_string) = &puback_varible_header
        .properties
        ._get_property(REASON_STRING)
        .unwrap()
    {
        assert_eq!(reason_string, "reason");
    } else {
        panic!("Error");
    }

    if let PacketProperty::UserProperty(user_property) = &puback_varible_header
        .properties
        ._get_property(USER_PROPERTY)
        .unwrap()
    {
        assert_eq!(user_property.0, "name");
        assert_eq!(user_property.1, "value");
    } else {
        panic!("Error");
    }
}

#[test]
fn puback_bytes_on_the_wire() {
    let properties = PubackProperties {
        packet_id: 0x0102,
        puback_reason_code: 16,
        reason_string: Some("r".to_string()),
        user_property: None,
    };
    let mut buffer = Vec::new();
    Puback::new(properties).write_to(&mut buffer).unwrap();
    assert_eq!(buffer, vec![0x40, 9, 1, 2, 16, 0, 4, 31, 0, 1, b'r']);
}

#[test]
fn puback_legacy_header_length() {
    let header = _PubackVariableHeader::_new(
        7,
        0,
        LegacyPubackProperties {
            reason_string: "ab".to_string(),
            user_property: ("k".to_string(), "vv".to_string()),
        },
    )
    .unwrap();
    // packet id (2), code (1), reason string (3 + 2), user property (5 + 1 + 2)
    assert_eq!(header._length(), 3 + 5 + 8);
}
