use vstd::prelude::*;

use crate::common::data_types::{take_bytes, MqttError};
use crate::common::data_types;
use crate::control_packets::mqtt_connack::connack_properties::{ConnackProperties, ConnackPropertiesView};
use crate::control_packets::mqtt_connack::connack_properties;
use crate::control_packets::mqtt_packet::fixed_header::{PacketFixedHeader, CONNACK_PACKET};
use crate::control_packets::mqtt_packet::fixed_header;
use crate::control_packets::mqtt_packet::packet_property::append_bytes;

verus! {

/// A CONNACK packet: the server's answer to a CONNECT.
pub struct Connack {
    pub properties: ConnackProperties,
}

/// The bytes of a CONNACK packet: the fixed header, then the variable header.
pub open spec fn connack_bytes(v: ConnackPropertiesView) -> Seq<u8> {
    fixed_header::fixed_header_bytes(
        fixed_header::header_type(CONNACK_PACKET),
        connack_properties::connack_properties_bytes(v).len() as u16,
    ) + connack_properties::connack_properties_bytes(v)
}

/// Reading the rest of a CONNACK packet of `remaining_length` bytes from a stream: the
/// bytes are taken first, then the variable header is read from them.
pub open spec fn connack_read(s: Seq<u8>, remaining_length: u16) -> (Result<ConnackPropertiesView, MqttError>, Seq<u8>) {
    let (b, s1) = data_types::read_bytes_spec(s, remaining_length as int);
    match b {
        Err(e) => (Err(e), s1),
        Ok(body) => (connack_properties::connack_properties_read(body).0, s1),
    }
}

/// Reading the rest of the packet from this stream does not hit a decoding panic.
pub open spec fn connack_read_safe(s: Seq<u8>, remaining_length: u16) -> bool {
    remaining_length <= s.len() ==> connack_properties::connack_properties_safe(s.take(remaining_length as int))
}

/// The packet can be written: its variable header can, and its length fits in the two-byte
/// remaining length.
pub open spec fn connack_fits(v: ConnackPropertiesView) -> bool {
    &&& connack_properties::connack_properties_fit(v)
    &&& connack_properties::connack_properties_bytes(v).len() <= u16::MAX
}

impl Connack {
    pub fn new(properties: ConnackProperties) -> (res: Connack)
        ensures
            res.properties == properties,
    {
        Connack { properties }
    }

    /// Reads the rest of a CONNACK packet whose fixed header announced `remaining_length`
    /// bytes.
    pub fn read_from(stream: &mut &[u8], remaining_length: u16) -> (res: Result<Connack, MqttError>)
        requires
            connack_read_safe(old(stream)@, remaining_length),
        ensures
            ({
                let (r, rest) = connack_read(old(stream)@, remaining_length);
                &&& final(stream)@ == rest
                &&& match res {
                    Ok(a) => r == Ok::<ConnackPropertiesView, MqttError>(a.properties@),
                    Err(e) => r == Err::<ConnackPropertiesView, MqttError>(e),
                }
            }),
    {
        let aux_buffer = take_bytes(stream, remaining_length as usize)?;
        let mut buffer = aux_buffer;
        let properties = ConnackProperties::read_from(&mut buffer)?;
        Ok(Connack { properties })
    }

    /// Writes the packet to a stream.
    pub fn write_to(&self, stream: &mut Vec<u8>) -> (res: Result<(), MqttError>)
        requires
            connack_fits(self.properties@),
        ensures
            res is Ok,
            final(stream)@ == old(stream)@ + connack_bytes(self.properties@),
    {
        let properties = self.properties.as_bytes()?;
        let remaining_length = self.properties.size_of();
        let fixed_header = PacketFixedHeader::new(CONNACK_PACKET, remaining_length as u16);
        let fixed_header_bytes = fixed_header.as_bytes();
        append_bytes(stream, fixed_header_bytes.as_slice());
        append_bytes(stream, properties.as_slice());
        assert(final(stream)@ =~= old(stream)@ + connack_bytes(self.properties@));
        Ok(())
    }
}

/// A CONNACK packet that can be written reads back as written: the fixed header gives the
/// CONNACK type and the length of the rest, and the rest gives the same variable header.
#[verifier::spinoff_prover]
#[verifier::rlimit(30)]
pub proof fn lemma_connack_roundtrip(v: ConnackPropertiesView, rest: Seq<u8>)
    requires
        connack_fits(v),
    ensures
        ({
            let body = connack_properties::connack_properties_bytes(v);
            let (h, s1) = fixed_header::fixed_header_read(connack_bytes(v) + rest);
            &&& h == Ok::<(u8, u16), MqttError>((fixed_header::header_type(CONNACK_PACKET), body.len() as u16))
            &&& s1 == body + rest
            &&& connack_read_safe(s1, body.len() as u16)
            &&& connack_read(s1, body.len() as u16) == (Ok::<ConnackPropertiesView, MqttError>(v), rest)
        }),
{
    let body = connack_properties::connack_properties_bytes(v);
    let n = body.len() as u16;
    let t = fixed_header::header_type(CONNACK_PACKET);
    assert(connack_bytes(v) + rest =~= fixed_header::fixed_header_bytes(t, n) + (body + rest));
    fixed_header::lemma_fixed_header_roundtrip(t, n, body + rest);
    fixed_header::lemma_header_type_stable(CONNACK_PACKET);
    assert((body + rest).take(n as int) =~= body);
    assert((body + rest).skip(n as int) =~= rest);
    connack_properties::lemma_connack_properties_roundtrip(v, Seq::empty());
    assert(body + Seq::<u8>::empty() =~= body);
}

/// A CONNACK packet starts with the byte 0x20: type 2 in the high four bits, with no flags;
/// read back, that byte names a CONNACK packet.
pub proof fn lemma_connack_first_byte(v: ConnackPropertiesView)
    ensures
        connack_bytes(v)[0] == 0x20u8,
        fixed_header::packet_type_of(connack_bytes(v)[0] & 0xF0u8) == crate::control_packets::mqtt_packet::packet::PacketType::ConnackType,
{
    fixed_header::lemma_type_byte_constants();
}

} // verus!
