use vstd::prelude::*;

use crate::common::data_types::{take_bytes, MqttError};
use crate::common::data_types;
use crate::control_packets::mqtt_suback::suback_properties::{SubackProperties, SubackPropertiesView};
use crate::control_packets::mqtt_suback::suback_properties;
use crate::control_packets::mqtt_packet::fixed_header::{PacketFixedHeader, SUBACK_PACKET};
use crate::control_packets::mqtt_packet::fixed_header;
use crate::control_packets::mqtt_packet::packet_property::append_bytes;

verus! {

/// A SUBACK packet: the server's answer to a SUBSCRIBE, one reason code per subscription.
pub struct Suback {
    pub properties: SubackProperties,
}

/// The bytes of a SUBACK packet: the fixed header, then the variable header.
pub open spec fn suback_bytes(v: SubackPropertiesView) -> Seq<u8> {
    fixed_header::fixed_header_bytes(
        fixed_header::header_type(SUBACK_PACKET),
        suback_properties::suback_properties_bytes(v).len() as u16,
    ) + suback_properties::suback_properties_bytes(v)
}

/// Reading the rest of a SUBACK packet of `remaining_length` bytes from a stream: the
/// bytes are taken first, then the variable header is read from them.
pub open spec fn suback_read(s: Seq<u8>, remaining_length: u16) -> (Result<SubackPropertiesView, MqttError>, Seq<u8>) {
    let (b, s1) = data_types::read_bytes_spec(s, remaining_length as int);
    match b {
        Err(e) => (Err(e), s1),
        Ok(body) => (suback_properties::suback_properties_read(body).0, s1),
    }
}

/// Reading the rest of the packet from this stream does not hit a decoding panic.
pub open spec fn suback_read_safe(s: Seq<u8>, remaining_length: u16) -> bool {
    remaining_length <= s.len() ==> suback_properties::suback_properties_safe(s.take(remaining_length as int))
}

/// The packet can be written: its variable header can, and its length fits in the two-byte
/// remaining length.
pub open spec fn suback_fits(v: SubackPropertiesView) -> bool {
    &&& suback_properties::suback_properties_fit(v)
    &&& suback_properties::suback_properties_bytes(v).len() <= u16::MAX
}

impl Suback {
    pub fn new(properties: SubackProperties) -> (res: Suback)
        ensures
            res.properties == properties,
    {
        Suback { properties }
    }

    /// Reads the rest of a SUBACK packet whose fixed header announced `remaining_length`
    /// bytes.
    pub fn read_from(stream: &mut &[u8], remaining_length: u16) -> (res: Result<Suback, MqttError>)
        requires
            suback_read_safe(old(stream)@, remaining_length),
        ensures
            ({
                let (r, rest) = suback_read(old(stream)@, remaining_length);
                &&& final(stream)@ == rest
                &&& match res {
                    Ok(a) => r == Ok::<SubackPropertiesView, MqttError>(a.properties@),
                    Err(e) => r == Err::<SubackPropertiesView, MqttError>(e),
                }
            }),
    {
        let aux_buffer = take_bytes(stream, remaining_length as usize)?;
        let mut buffer = aux_buffer;
        let properties = SubackProperties::read_from(&mut buffer)?;
        Ok(Suback { properties })
    }

    /// Writes the packet to a stream.
    pub fn write_to(&self, stream: &mut Vec<u8>) -> (res: Result<(), MqttError>)
        requires
            suback_fits(self.properties@),
        ensures
            res is Ok,
            final(stream)@ == old(stream)@ + suback_bytes(self.properties@),
    {
        let properties = self.properties.as_bytes()?;
        let remaining_length = self.properties.size_of();
        let fixed_header = PacketFixedHeader::new(SUBACK_PACKET, remaining_length as u16);
        let fixed_header_bytes = fixed_header.as_bytes();
        append_bytes(stream, fixed_header_bytes.as_slice());
        append_bytes(stream, properties.as_slice());
        assert(final(stream)@ =~= old(stream)@ + suback_bytes(self.properties@));
        Ok(())
    }
}

/// A SUBACK packet that can be written reads back as written: the fixed header gives the
/// SUBACK type and the length of the rest, and the rest gives the same variable header.
#[verifier::spinoff_prover]
#[verifier::rlimit(30)]
pub proof fn lemma_suback_roundtrip(v: SubackPropertiesView, rest: Seq<u8>)
    requires
        suback_fits(v),
    ensures
        ({
            let body = suback_properties::suback_properties_bytes(v);
            let (h, s1) = fixed_header::fixed_header_read(suback_bytes(v) + rest);
            &&& h == Ok::<(u8, u16), MqttError>((fixed_header::header_type(SUBACK_PACKET), body.len() as u16))
            &&& s1 == body + rest
            &&& suback_read_safe(s1, body.len() as u16)
            &&& suback_read(s1, body.len() as u16) == (Ok::<SubackPropertiesView, MqttError>(v), rest)
        }),
{
    let body = suback_properties::suback_properties_bytes(v);
    let n = body.len() as u16;
    let t = fixed_header::header_type(SUBACK_PACKET);
    assert(suback_bytes(v) + rest =~= fixed_header::fixed_header_bytes(t, n) + (body + rest));
    fixed_header::lemma_fixed_header_roundtrip(t, n, body + rest);
    fixed_header::lemma_header_type_stable(SUBACK_PACKET);
    assert((body + rest).take(n as int) =~= body);
    assert((body + rest).skip(n as int) =~= rest);
    suback_properties::lemma_suback_properties_roundtrip(v, Seq::empty());
    assert(body + Seq::<u8>::empty() =~= body);
}

/// A SUBACK packet starts with the byte 0x90: type 9 in the high four bits, with no flags;
/// read back, that byte names a SUBACK packet.
pub proof fn lemma_suback_first_byte(v: SubackPropertiesView)
    ensures
        suback_bytes(v)[0] == 0x90u8,
        fixed_header::packet_type_of(suback_bytes(v)[0] & 0xF0u8) == crate::control_packets::mqtt_packet::packet::PacketType::SubackType,
{
    fixed_header::lemma_type_byte_constants();
}

} // verus!
