use vstd::prelude::*;

use crate::common::data_types::{take_bytes, MqttError};
use crate::common::data_types;
use crate::control_packets::mqtt_unsubscribe::unsubscribe_properties::{UnsubscribeProperties, UnsubscribePropertiesView};
use crate::control_packets::mqtt_unsubscribe::unsubscribe_properties;
use crate::control_packets::mqtt_packet::fixed_header::{PacketFixedHeader, UNSUBSCRIBE_PACKET};
use crate::control_packets::mqtt_packet::fixed_header;
use crate::control_packets::mqtt_packet::packet_property::append_bytes;

verus! {

/// An UNSUBSCRIBE packet: a request to stop receiving the messages of some topic filters.
pub struct Unsubscribe {
    pub properties: UnsubscribeProperties,
}

/// The bytes of a UNSUBSCRIBE packet: the fixed header, then the variable header.
pub open spec fn unsubscribe_bytes(v: UnsubscribePropertiesView) -> Seq<u8> {
    fixed_header::fixed_header_bytes(
        fixed_header::header_type(UNSUBSCRIBE_PACKET),
        unsubscribe_properties::unsubscribe_properties_bytes(v).len() as u16,
    ) + unsubscribe_properties::unsubscribe_properties_bytes(v)
}

/// Reading the rest of a UNSUBSCRIBE packet of `remaining_length` bytes from a stream: the
/// bytes are taken first, then the variable header is read from them.
pub open spec fn unsubscribe_read(s: Seq<u8>, remaining_length: u16) -> (Result<UnsubscribePropertiesView, MqttError>, Seq<u8>) {
    let (b, s1) = data_types::read_bytes_spec(s, remaining_length as int);
    match b {
        Err(e) => (Err(e), s1),
        Ok(body) => (unsubscribe_properties::unsubscribe_properties_read(body).0, s1),
    }
}

/// Reading the rest of the packet from this stream does not hit a decoding panic.
pub open spec fn unsubscribe_read_safe(s: Seq<u8>, remaining_length: u16) -> bool {
    remaining_length <= s.len() ==> unsubscribe_properties::unsubscribe_properties_safe(s.take(remaining_length as int))
}

/// The packet can be written: its variable header can, and its length fits in the two-byte
/// remaining length.
pub open spec fn unsubscribe_fits(v: UnsubscribePropertiesView) -> bool {
    &&& unsubscribe_properties::unsubscribe_properties_fit(v)
    &&& unsubscribe_properties::unsubscribe_properties_bytes(v).len() <= u16::MAX
}

impl Unsubscribe {
    pub fn new(properties: UnsubscribeProperties) -> (res: Unsubscribe)
        ensures
            res.properties == properties,
    {
        Unsubscribe { properties }
    }

    /// Reads the rest of a UNSUBSCRIBE packet whose fixed header announced `remaining_length`
    /// bytes.
    pub fn read_from(stream: &mut &[u8], remaining_length: u16) -> (res: Result<Unsubscribe, MqttError>)
        requires
            unsubscribe_read_safe(old(stream)@, remaining_length),
        ensures
            ({
                let (r, rest) = unsubscribe_read(old(stream)@, remaining_length);
                &&& final(stream)@ == rest
                &&& match res {
                    Ok(a) => r == Ok::<UnsubscribePropertiesView, MqttError>(a.properties@),
                    Err(e) => r == Err::<UnsubscribePropertiesView, MqttError>(e),
                }
            }),
    {
        let aux_buffer = take_bytes(stream, remaining_length as usize)?;
        let mut buffer = aux_buffer;
        let properties = UnsubscribeProperties::read_from(&mut buffer)?;
        Ok(Unsubscribe { properties })
    }

    /// Writes the packet to a stream.
    pub fn write_to(&self, stream: &mut Vec<u8>) -> (res: Result<(), MqttError>)
        requires
            unsubscribe_fits(self.properties@),
        ensures
            res is Ok,
            final(stream)@ == old(stream)@ + unsubscribe_bytes(self.properties@),
    {
        let properties = self.properties.as_bytes()?;
        let remaining_length = self.properties.size_of();
        let fixed_header = PacketFixedHeader::new(UNSUBSCRIBE_PACKET, remaining_length as u16);
        let fixed_header_bytes = fixed_header.as_bytes();
        append_bytes(stream, fixed_header_bytes.as_slice());
        append_bytes(stream, properties.as_slice());
        assert(final(stream)@ =~= old(stream)@ + unsubscribe_bytes(self.properties@));
        Ok(())
    }
}

/// A UNSUBSCRIBE packet that can be written reads back as written: the fixed header gives the
/// UNSUBSCRIBE type and the length of the rest, and the rest gives the same variable header.
#[verifier::spinoff_prover]
#[verifier::rlimit(30)]
pub proof fn lemma_unsubscribe_roundtrip(v: UnsubscribePropertiesView, rest: Seq<u8>)
    requires
        unsubscribe_fits(v),
    ensures
        ({
            let body = unsubscribe_properties::unsubscribe_properties_bytes(v);
            let (h, s1) = fixed_header::fixed_header_read(unsubscribe_bytes(v) + rest);
            &&& h == Ok::<(u8, u16), MqttError>((fixed_header::header_type(UNSUBSCRIBE_PACKET), body.len() as u16))
            &&& s1 == body + rest
            &&& unsubscribe_read_safe(s1, body.len() as u16)
            &&& unsubscribe_read(s1, body.len() as u16) == (Ok::<UnsubscribePropertiesView, MqttError>(v), rest)
        }),
{
    let body = unsubscribe_properties::unsubscribe_properties_bytes(v);
    let n = body.len() as u16;
    let t = fixed_header::header_type(UNSUBSCRIBE_PACKET);
    assert(unsubscribe_bytes(v) + rest =~= fixed_header::fixed_header_bytes(t, n) + (body + rest));
    fixed_header::lemma_fixed_header_roundtrip(t, n, body + rest);
    fixed_header::lemma_header_type_stable(UNSUBSCRIBE_PACKET);
    assert((body + rest).take(n as int) =~= body);
    assert((body + rest).skip(n as int) =~= rest);
    unsubscribe_properties::lemma_unsubscribe_properties_roundtrip(v, Seq::empty());
    assert(body + Seq::<u8>::empty() =~= body);
}

/// A UNSUBSCRIBE packet starts with the byte 0xA2: type 10 in the high four bits, with its reserved flags `0010`;
/// read back, that byte names a UNSUBSCRIBE packet.
pub proof fn lemma_unsubscribe_first_byte(v: UnsubscribePropertiesView)
    ensures
        unsubscribe_bytes(v)[0] == 0xA2u8,
        fixed_header::packet_type_of(unsubscribe_bytes(v)[0] & 0xF0u8) == crate::control_packets::mqtt_packet::packet::PacketType::Unsubscribe,
{
    fixed_header::lemma_type_byte_constants();
}

} // verus!
