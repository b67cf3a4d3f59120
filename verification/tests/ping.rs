use mqtt::common::data_types::MqttError;
use mqtt::control_packets::mqtt_packet::fixed_header::{
    PacketFixedHeader, PINGREQ_PACKET, PINGRESP_PACKET,
};
use mqtt::control_packets::mqtt_pingreq::pingreq::PingReq;
use mqtt::control_packets::mqtt_pingresp::pingresp::PingResp;

#[test]
fn pingreq() {
    let pingreq = PingReq;

    let mut buffer = Vec::new();
    pingreq.write_to(&mut buffer).unwrap();

    let mut buffer = buffer.as_slice();
    let pingreq_fixed_header = PacketFixedHeader::read_from(&mut buffer).unwrap();

    assert_eq!(pingreq_fixed_header.get_packet_type(), PINGREQ_PACKET);
}

#[test]
fn pingresp() {
    let pingresp = PingResp;

    let mut buffer = Vec::new();
    pingresp.write_to(&mut buffer).unwrap();

    let mut buffer = buffer.as_slice();
    let pingresp_fixed_header = PacketFixedHeader::read_from(&mut buffer).unwrap();
    //let pingresp_fixed_header = PacketFixedHeader::read_from_buffer(&mut buffer).unwrap();

    assert_eq!(pingresp_fixed_header.get_packet_type(), PINGRESP_PACKET);
}

#[test]
fn ping_with_a_remaining_length_is_refused() {
    let bytes = [1u8, 2, 3];
    let mut stream: &[u8] = &bytes;
    assert_eq!(PingReq::read_from(&mut stream, 1).err(), Some(MqttError::InvalidRemainingLength));
    assert_eq!(PingResp::read_from(&mut stream, 2).err(), Some(MqttError::InvalidRemainingLength));
    assert!(PingResp::read_from(&mut stream, 0).is_ok());
    assert_eq!(stream.len(), 3);
}

#[test]
fn pingreq_bytes() {
    let mut buffer = Vec::new();
    PingReq.write_to(&mut buffer).unwrap();
    assert_eq!(buffer, vec![0xC0, 0]);
}
