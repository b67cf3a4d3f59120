use vstd::prelude::*;

use crate::common::data_types::MqttError;
use crate::control_packets::mqtt_packet::fixed_header::{PacketFixedHeader, PINGRESP_PACKET};
use crate::control_packets::mqtt_packet::fixed_header;
use crate::control_packets::mqtt_packet::packet_property::append_bytes;

verus! {

/// A PINGRESP packet: the server's answer to a PINGREQ; it has no variable header.
pub struct PingResp;

impl PingResp {
    /// Reads the rest of the packet: there is none, so any other remaining length is
    /// refused and the stream is left as it is.
    pub fn read_from(stream: &mut &[u8], remaining_length: u16) -> (res: Result<Self, MqttError>)
        ensures
            final(stream)@ == old(stream)@,
            res is Ok <==> remaining_length == 0,
            res matches Err(e) ==> e == MqttError::InvalidRemainingLength,
    {
        if remaining_length != 0 {
            return Err(MqttError::InvalidRemainingLength);
        }
        Ok(PingResp)
    }

    /// Writes the packet to a stream: the fixed header, with a remaining length of zero.
    pub fn write_to(&self, stream: &mut Vec<u8>) -> (res: Result<(), MqttError>)
        ensures
            res is Ok,
            final(stream)@ == old(stream)@ + fixed_header::fixed_header_bytes(PINGRESP_PACKET, 0),
    {
        let fixed_header = PacketFixedHeader::new(PINGRESP_PACKET, 0);
        let fixed_header_bytes = fixed_header.as_bytes();
        append_bytes(stream, fixed_header_bytes.as_slice());
        Ok(())
    }
}

/// A PINGRESP packet is the two bytes 0xD0 0x00: type 13 with no flags, and a
/// remaining length of zero.
pub proof fn lemma_pingresp_bytes()
    ensures
        fixed_header::fixed_header_bytes(PINGRESP_PACKET, 0) =~= seq![0xD0u8, 0x00u8],
{
    assert(crate::common::data_types::vbi_bytes(0) == seq![0u8]);
}

} // verus!
