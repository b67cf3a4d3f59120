use mqtt::common::data_types::MqttError;
use mqtt::control_packets::mqtt_packet::fixed_header::PacketFixedHeader;
use mqtt::control_packets::mqtt_packet::packet::{
    get_packet, pack_bytes, PacketReceived, PacketType, Serialization,
};
use mqtt::control_packets::mqtt_pingreq::pingreq::PingReq;
use mqtt::control_packets::mqtt_pingresp::pingresp::PingResp;
use mqtt::control_packets::mqtt_publish::publish::Publish;
use mqtt::control_packets::mqtt_publish::publish_properties::PublishProperties;

#[test]
fn test_get_packet_unknown_kind() {
    let mut stream: &[u8] = &[1, 2, 3];
    assert!(matches!(
        get_packet(&mut stream, PacketType::Unknow, 3),
        Err(MqttError::UnknownPacket)
    ));
}

#[test]
fn test_get_packet_ping() {
    let mut stream: &[u8] = &[];
    assert!(matches!(
        get_packet(&mut stream, PacketType::PingReqType, 0),
        Ok(PacketReceived::PingReq(_))
    ));
    let mut stream: &[u8] = &[];
    assert!(matches!(
        pack_bytes::<PingResp>(&mut stream, 0),
        Ok(PacketReceived::PingResp(_))
    ));
    let mut stream: &[u8] = &[0];
    assert!(matches!(
        pack_bytes::<PingResp>(&mut stream, 1),
        Err(MqttError::InvalidRemainingLength)
    ));
}

#[test]
fn test_serialization_write_and_read() {
    let mut bytes = Vec::new();
    Serialization::write_to(&PingReq, &mut bytes).unwrap();
    assert_eq!(bytes, vec![0xC0, 0]);

    let mut properties = PublishProperties::default();
    properties.topic_name = "t".to_string();
    properties.packet_identifier = 3;
    properties.application_message = Some("hi".to_string());
    let publish = Publish::new(0, 0, 0, properties);
    let mut bytes = Vec::new();
    Serialization::write_to(&publish, &mut bytes).unwrap();

    let mut stream: &[u8] = &bytes;
    let header = PacketFixedHeader::read_from(&mut stream).unwrap();
    assert_eq!(header.remaining_length as usize, stream.len());
    assert!(matches!(header.get_package_type(), PacketType::PublishType));
    match get_packet(&mut stream, header.get_package_type(), header.remaining_length).unwrap() {
        PacketReceived::Publish(p) => {
            assert_eq!(p.properties.topic_name, "t");
            assert_eq!(p.properties.packet_identifier, 3);
            assert_eq!(p.properties.application_message, Some("hi".to_string()));
        }
        _ => panic!("wrong packet"),
    }
    let packed = <PingReq as Serialization>::packed_package(PingReq);
    assert!(matches!(packed, PacketReceived::PingReq(_)));
}

#[test]
fn test_fixed_header_remaining_length_is_a_variable_byte_integer() {
    assert_eq!(PacketFixedHeader::new(0x30, 5).as_bytes(), vec![0x30, 5]);
    assert_eq!(PacketFixedHeader::new(0x30, 200).as_bytes(), vec![0x30, 0xC8, 0x01]);
    assert_eq!(PacketFixedHeader::new(0x30, 65535).as_bytes(), vec![0x30, 0xFF, 0xFF, 0x03]);

    let bytes = [0x30u8, 0xC8, 0x01, 7];
    let mut stream: &[u8] = &bytes;
    let header = PacketFixedHeader::read_from(&mut stream).unwrap();
    assert_eq!(header.remaining_length, 200);
    assert_eq!(stream, &[7u8][..]);

    let bytes = [0x30u8, 0x80, 0x80, 0x04];
    let mut stream: &[u8] = &bytes;
    assert_eq!(
        PacketFixedHeader::read_from(&mut stream).err(),
        Some(MqttError::InvalidRemainingLength)
    );

    let bytes = [0x30u8, 0x80, 0x80, 0x80, 0x80, 0x7F];
    let mut stream: &[u8] = &bytes;
    assert_eq!(
        PacketFixedHeader::read_from(&mut stream).err(),
        Some(MqttError::MalformedVariableByteInteger)
    );
}

#[test]
fn test_package_types() {
    let kinds = [
        (0x10u8, PacketType::ConnectType),
        (0x20, PacketType::ConnackType),
        (0x32, PacketType::PublishType),
        (0x40, PacketType::PubackType),
        (0x80, PacketType::SubscribeType),
        (0x90, PacketType::SubackType),
        (0xA0, PacketType::Unsubscribe),
        (0xB0, PacketType::Unsuback),
        (0xC0, PacketType::PingReqType),
        (0xD0, PacketType::PingRespType),
        (0xE0, PacketType::DisconnectType),
        (0xF0, PacketType::AuthType),
        (0x00, PacketType::Unknow),
        (0x50, PacketType::Unknow),
    ];
    for (t, kind) in kinds {
        let header = PacketFixedHeader { packet_type: t, remaining_length: 0 };
        assert_eq!(
            format!("{:?}", header.get_package_type()),
            format!("{:?}", kind)
        );
    }
}
