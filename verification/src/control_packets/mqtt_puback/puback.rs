use vstd::prelude::*;

use crate::common::data_types::{take_bytes, MqttError};
use crate::common::data_types;
use crate::control_packets::mqtt_puback::puback_properties::{PubackProperties, PubackPropertiesView};
use crate::control_packets::mqtt_puback::puback_properties;
use crate::control_packets::mqtt_packet::fixed_header::{PacketFixedHeader, PUBACK_PACKET};
use crate::control_packets::mqtt_packet::fixed_header;
use crate::control_packets::mqtt_packet::packet_property::append_bytes;

verus! {

/// A PUBACK packet: the answer to a PUBLISH of QoS 1.
pub struct Puback {
    pub properties: PubackProperties,
}

/// The bytes of a PUBACK packet: the fixed header, then the variable header.
pub open spec fn puback_bytes(v: PubackPropertiesView) -> Seq<u8> {
    fixed_header::fixed_header_bytes(
        fixed_header::header_type(PUBACK_PACKET),
        puback_properties::puback_properties_bytes(v).len() as u16,
    ) + puback_properties::puback_properties_bytes(v)
}

/// Reading the rest of a PUBACK packet of `remaining_length` bytes from a stream: the
/// bytes are taken first, then the variable header is read from them.
pub open spec fn puback_read(s: Seq<u8>, remaining_length: u16) -> (Result<PubackPropertiesView, MqttError>, Seq<u8>) {
    let (b, s1) = data_types::read_bytes_spec(s, remaining_length as int);
    match b {
        Err(e) => (Err(e), s1),
        Ok(body) => (puback_properties::puback_properties_read(body).0, s1),
    }
}

/// Reading the rest of the packet from this stream does not hit a decoding panic.
pub open spec fn puback_read_safe(s: Seq<u8>, remaining_length: u16) -> bool {
    remaining_length <= s.len() ==> puback_properties::puback_properties_safe(s.take(remaining_length as int))
}

/// The packet can be written: its variable header can, and its length fits in the two-byte
/// remaining length.
pub open spec fn puback_fits(v: PubackPropertiesView) -> bool {
    &&& puback_properties::puback_properties_fit(v)
    &&& puback_properties::puback_properties_bytes(v).len() <= u16::MAX
}

impl Puback {
    pub fn new(properties: PubackProperties) -> (res: Puback)
        ensures
            res.properties == properties,
    {
        Puback { properties }
    }

    /// Reads the rest of a PUBACK packet whose fixed header announced `remaining_length`
    /// bytes.
    pub fn read_from(stream: &mut &[u8], remaining_length: u16) -> (res: Result<Puback, MqttError>)
        requires
            puback_read_safe(old(stream)@, remaining_length),
        ensures
            ({
                let (r, rest) = puback_read(old(stream)@, remaining_length);
                &&& final(stream)@ == rest
                &&& match res {
                    Ok(a) => r == Ok::<PubackPropertiesView, MqttError>(a.properties@),
                    Err(e) => r == Err::<PubackPropertiesView, MqttError>(e),
                }
            }),
    {
        let aux_buffer = take_bytes(stream, remaining_length as usize)?;
        let mut buffer = aux_buffer;
        let properties = PubackProperties::read_from(&mut buffer)?;
        Ok(Puback { properties })
    }

    /// Writes the packet to a stream.
    pub fn write_to(&self, stream: &mut Vec<u8>) -> (res: Result<(), MqttError>)
        requires
            puback_fits(self.properties@),
        ensures
            res is Ok,
            final(stream)@ == old(stream)@ + puback_bytes(self.properties@),
    {
        let properties = self.properties.as_bytes()?;
        let remaining_length = self.properties.size_of();
        let fixed_header = PacketFixedHeader::new(PUBACK_PACKET, remaining_length as u16);
        let fixed_header_bytes = fixed_header.as_bytes();
        append_bytes(stream, fixed_header_bytes.as_slice());
        append_bytes(stream, properties.as_slice());
        assert(final(stream)@ =~= old(stream)@ + puback_bytes(self.properties@));
        Ok(())
    }
}

/// A PUBACK packet that can be written reads back as written: the fixed header gives the
/// PUBACK type and the length of the rest, and the rest gives the same variable header.
#[verifier::spinoff_prover]
#[verifier::rlimit(30)]
pub proof fn lemma_puback_roundtrip(v: PubackPropertiesView, rest: Seq<u8>)
    requires
        puback_fits(v),
    ensures
        ({
            let body = puback_properties::puback_properties_bytes(v);
            let (h, s1) = fixed_header::fixed_header_read(puback_bytes(v) + rest);
            &&& h == Ok::<(u8, u16), MqttError>((fixed_header::header_type(PUBACK_PACKET), body.len() as u16))
            &&& s1 == body + rest
            &&& puback_read_safe(s1, body.len() as u16)
            &&& puback_read(s1, body.len() as u16) == (Ok::<PubackPropertiesView, MqttError>(v), rest)
        }),
{
    let body = puback_properties::puback_properties_bytes(v);
    let n = body.len() as u16;
    let t = fixed_header::header_type(PUBACK_PACKET);
    assert(puback_bytes(v) + rest =~= fixed_header::fixed_header_bytes(t, n) + (body + rest));
    fixed_header::lemma_fixed_header_roundtrip(t, n, body + rest);
    fixed_header::lemma_header_type_stable(PUBACK_PACKET);
    assert((body + rest).take(n as int) =~= body);
    assert((body + rest).skip(n as int) =~= rest);
    puback_properties::lemma_puback_properties_roundtrip(v, Seq::empty());
    assert(body + Seq::<u8>::empty() =~= body);
}

/// A PUBACK packet starts with the byte 0x40: type 4 in the high four bits, with no flags;
/// read back, that byte names a PUBACK packet.
pub proof fn lemma_puback_first_byte(v: PubackPropertiesView)
    ensures
        puback_bytes(v)[0] == 0x40u8,
        fixed_header::packet_type_of(puback_bytes(v)[0] & 0xF0u8) == crate::control_packets::mqtt_packet::packet::PacketType::PubackType,
{
    fixed_header::lemma_type_byte_constants();
}

} // verus!
