use vstd::prelude::*;

use crate::common::data_types::{take_bytes, MqttError};
use crate::common::data_types;
use crate::control_packets::mqtt_unsuback::unsuback_properties::{UnsubackProperties, UnsubackPropertiesView};
use crate::control_packets::mqtt_unsuback::unsuback_properties;
use crate::control_packets::mqtt_packet::fixed_header::{PacketFixedHeader, UNSUBACK_PACKET};
use crate::control_packets::mqtt_packet::fixed_header;
use crate::control_packets::mqtt_packet::packet_property::append_bytes;

verus! {

/// An UNSUBACK packet: the server's answer to an UNSUBSCRIBE, one reason code per topic filter.
pub struct Unsuback {
    pub properties: UnsubackProperties,
}

/// The bytes of a UNSUBACK packet: the fixed header, then the variable header.
pub open spec fn unsuback_bytes(v: UnsubackPropertiesView) -> Seq<u8> {
    fixed_header::fixed_header_bytes(
        fixed_header::header_type(UNSUBACK_PACKET),
        unsuback_properties::unsuback_properties_bytes(v).len() as u16,
    ) + unsuback_properties::unsuback_properties_bytes(v)
}

/// Reading the rest of a UNSUBACK packet of `remaining_length` bytes from a stream: the
/// bytes are taken first, then the variable header is read from them.
pub open spec fn unsuback_read(s: Seq<u8>, remaining_length: u16) -> (Result<UnsubackPropertiesView, MqttError>, Seq<u8>) {
    let (b, s1) = data_types::read_bytes_spec(s, remaining_length as int);
    match b {
        Err(e) => (Err(e), s1),
        Ok(body) => (unsuback_properties::unsuback_properties_read(body).0, s1),
    }
}

/// Reading the rest of the packet from this stream does not hit a decoding panic.
pub open spec fn unsuback_read_safe(s: Seq<u8>, remaining_length: u16) -> bool {
    remaining_length <= s.len() ==> unsuback_properties::unsuback_properties_safe(s.take(remaining_length as int))
}

/// The packet can be written: its variable header can, and its length fits in the two-byte
/// remaining length.
pub open spec fn unsuback_fits(v: UnsubackPropertiesView) -> bool {
    &&& unsuback_properties::unsuback_properties_fit(v)
    &&& unsuback_properties::unsuback_properties_bytes(v).len() <= u16::MAX
}

impl Unsuback {
    pub fn new(properties: UnsubackProperties) -> (res: Unsuback)
        ensures
            res.properties == properties,
    {
        Unsuback { properties }
    }

    /// Reads the rest of a UNSUBACK packet whose fixed header announced `remaining_length`
    /// bytes.
    pub fn read_from(stream: &mut &[u8], remaining_length: u16) -> (res: Result<Unsuback, MqttError>)
        requires
            unsuback_read_safe(old(stream)@, remaining_length),
        ensures
            ({
                let (r, rest) = unsuback_read(old(stream)@, remaining_length);
                &&& final(stream)@ == rest
                &&& match res {
                    Ok(a) => r == Ok::<UnsubackPropertiesView, MqttError>(a.properties@),
                    Err(e) => r == Err::<UnsubackPropertiesView, MqttError>(e),
                }
            }),
    {
        let aux_buffer = take_bytes(stream, remaining_length as usize)?;
        let mut buffer = aux_buffer;
        let properties = UnsubackProperties::read_from(&mut buffer)?;
        Ok(Unsuback { properties })
    }

    /// Writes the packet to a stream.
    pub fn write_to(&self, stream: &mut Vec<u8>) -> (res: Result<(), MqttError>)
        requires
            unsuback_fits(self.properties@),
        ensures
            res is Ok,
            final(stream)@ == old(stream)@ + unsuback_bytes(self.properties@),
    {
        let properties = self.properties.as_bytes()?;
        let remaining_length = self.properties.size_of();
        let fixed_header = PacketFixedHeader::new(UNSUBACK_PACKET, remaining_length as u16);
        let fixed_header_bytes = fixed_header.as_bytes();
        append_bytes(stream, fixed_header_bytes.as_slice());
        append_bytes(stream, properties.as_slice());
        assert(final(stream)@ =~= old(stream)@ + unsuback_bytes(self.properties@));
        Ok(())
    }
}

/// A UNSUBACK packet that can be written reads back as written: the fixed header gives the
/// UNSUBACK type and the length of the rest, and the rest gives the same variable header.
#[verifier::spinoff_prover]
#[verifier::rlimit(30)]
pub proof fn lemma_unsuback_roundtrip(v: UnsubackPropertiesView, rest: Seq<u8>)
    requires
        unsuback_fits(v),
    ensures
        ({
            let body = unsuback_properties::unsuback_properties_bytes(v);
            let (h, s1) = fixed_header::fixed_header_read(unsuback_bytes(v) + rest);
            &&& h == Ok::<(u8, u16), MqttError>((fixed_header::header_type(UNSUBACK_PACKET), body.len() as u16))
            &&& s1 == body + rest
            &&& unsuback_read_safe(s1, body.len() as u16)
            &&& unsuback_read(s1, body.len() as u16) == (Ok::<UnsubackPropertiesView, MqttError>(v), rest)
        }),
{
    let body = unsuback_properties::unsuback_properties_bytes(v);
    let n = body.len() as u16;
    let t = fixed_header::header_type(UNSUBACK_PACKET);
    assert(unsuback_bytes(v) + rest =~= fixed_header::fixed_header_bytes(t, n) + (body + rest));
    fixed_header::lemma_fixed_header_roundtrip(t, n, body + rest);
    fixed_header::lemma_header_type_stable(UNSUBACK_PACKET);
    assert((body + rest).take(n as int) =~= body);
    assert((body + rest).skip(n as int) =~= rest);
    unsuback_properties::lemma_unsuback_properties_roundtrip(v, Seq::empty());
    assert(body + Seq::<u8>::empty() =~= body);
}

/// A UNSUBACK packet starts with the byte 0xB0: type 11 in the high four bits, with no flags;
/// read back, that byte names a UNSUBACK packet.
pub proof fn lemma_unsuback_first_byte(v: UnsubackPropertiesView)
    ensures
        unsuback_bytes(v)[0] == 0xB0u8,
        fixed_header::packet_type_of(unsuback_bytes(v)[0] & 0xF0u8) == crate::control_packets::mqtt_packet::packet::PacketType::Unsuback,
{
    fixed_header::lemma_type_byte_constants();
}

} // verus!
