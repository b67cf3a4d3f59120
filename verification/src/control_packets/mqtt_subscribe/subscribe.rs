use vstd::prelude::*;

use crate::common::data_types::{take_bytes, MqttError};
use crate::common::data_types;
use crate::control_packets::mqtt_subscribe::subscribe_properties::{SubscribeProperties, SubscribePropertiesView};
use crate::control_packets::mqtt_subscribe::subscribe_properties;
use crate::control_packets::mqtt_packet::fixed_header::{PacketFixedHeader, SUBSCRIBE_PACKET};
use crate::control_packets::mqtt_packet::fixed_header;
use crate::control_packets::mqtt_packet::packet_property::append_bytes;

verus! {

/// A SUBSCRIBE packet: a request for the messages published on some topic filters.
pub struct Subscribe {
    pub properties: SubscribeProperties,
}

/// The bytes of a SUBSCRIBE packet: the fixed header, then the variable header.
pub open spec fn subscribe_bytes(v: SubscribePropertiesView) -> Seq<u8> {
    fixed_header::fixed_header_bytes(
        fixed_header::header_type(SUBSCRIBE_PACKET),
        subscribe_properties::subscribe_properties_bytes(v).len() as u16,
    ) + subscribe_properties::subscribe_properties_bytes(v)
}

/// Reading the rest of a SUBSCRIBE packet of `remaining_length` bytes from a stream: the
/// bytes are taken first, then the variable header is read from them.
pub open spec fn subscribe_read(s: Seq<u8>, remaining_length: u16) -> (Result<SubscribePropertiesView, MqttError>, Seq<u8>) {
    let (b, s1) = data_types::read_bytes_spec(s, remaining_length as int);
    match b {
        Err(e) => (Err(e), s1),
        Ok(body) => (subscribe_properties::subscribe_properties_read(body).0, s1),
    }
}

/// Reading the rest of the packet from this stream does not hit a decoding panic.
pub open spec fn subscribe_read_safe(s: Seq<u8>, remaining_length: u16) -> bool {
    remaining_length <= s.len() ==> subscribe_properties::subscribe_properties_safe(s.take(remaining_length as int))
}

/// The packet can be written: its variable header can, and its length fits in the two-byte
/// remaining length.
pub open spec fn subscribe_fits(v: SubscribePropertiesView) -> bool {
    &&& subscribe_properties::subscribe_properties_fit(v)
    &&& subscribe_properties::subscribe_properties_bytes(v).len() <= u16::MAX
}

impl Subscribe {
    pub fn new(properties: SubscribeProperties) -> (res: Subscribe)
        ensures
            res.properties == properties,
    {
        Subscribe { properties }
    }

    /// Reads the rest of a SUBSCRIBE packet whose fixed header announced `remaining_length`
    /// bytes.
    pub fn read_from(stream: &mut &[u8], remaining_length: u16) -> (res: Result<Subscribe, MqttError>)
        requires
            subscribe_read_safe(old(stream)@, remaining_length),
        ensures
            ({
                let (r, rest) = subscribe_read(old(stream)@, remaining_length);
                &&& final(stream)@ == rest
                &&& match res {
                    Ok(a) => r == Ok::<SubscribePropertiesView, MqttError>(a.properties@),
                    Err(e) => r == Err::<SubscribePropertiesView, MqttError>(e),
                }
            }),
    {
        let aux_buffer = take_bytes(stream, remaining_length as usize)?;
        let mut buffer = aux_buffer;
        let properties = SubscribeProperties::read_from(&mut buffer)?;
        Ok(Subscribe { properties })
    }

    /// Writes the packet to a stream.
    pub fn write_to(&self, stream: &mut Vec<u8>) -> (res: Result<(), MqttError>)
        requires
            subscribe_fits(self.properties@),
        ensures
            res is Ok,
            final(stream)@ == old(stream)@ + subscribe_bytes(self.properties@),
    {
        let properties = self.properties.as_bytes()?;
        let remaining_length = self.properties.size_of();
        let fixed_header = PacketFixedHeader::new(SUBSCRIBE_PACKET, remaining_length as u16);
        let fixed_header_bytes = fixed_header.as_bytes();
        append_bytes(stream, fixed_header_bytes.as_slice());
        append_bytes(stream, properties.as_slice());
        assert(final(stream)@ =~= old(stream)@ + subscribe_bytes(self.properties@));
        Ok(())
    }
}

/// A SUBSCRIBE packet that can be written reads back as written: the fixed header gives the
/// SUBSCRIBE type and the length of the rest, and the rest gives the same variable header.
#[verifier::spinoff_prover]
#[verifier::rlimit(30)]
pub proof fn lemma_subscribe_roundtrip(v: SubscribePropertiesView, rest: Seq<u8>)
    requires
        subscribe_fits(v),
    ensures
        ({
            let body = subscribe_properties::subscribe_properties_bytes(v);
            let (h, s1) = fixed_header::fixed_header_read(subscribe_bytes(v) + rest);
            &&& h == Ok::<(u8, u16), MqttError>((fixed_header::header_type(SUBSCRIBE_PACKET), body.len() as u16))
            &&& s1 == body + rest
            &&& subscribe_read_safe(s1, body.len() as u16)
            &&& subscribe_read(s1, body.len() as u16) == (Ok::<SubscribePropertiesView, MqttError>(v), rest)
        }),
{
    let body = subscribe_properties::subscribe_properties_bytes(v);
    let n = body.len() as u16;
    let t = fixed_header::header_type(SUBSCRIBE_PACKET);
    assert(subscribe_bytes(v) + rest =~= fixed_header::fixed_header_bytes(t, n) + (body + rest));
    fixed_header::lemma_fixed_header_roundtrip(t, n, body + rest);
    fixed_header::lemma_header_type_stable(SUBSCRIBE_PACKET);
    assert((body + rest).take(n as int) =~= body);
    assert((body + rest).skip(n as int) =~= rest);
    subscribe_properties::lemma_subscribe_properties_roundtrip(v, Seq::empty());
    assert(body + Seq::<u8>::empty() =~= body);
}

/// A SUBSCRIBE packet starts with the byte 0x82: type 8 in the high four bits, with its reserved flags `0010`;
/// read back, that byte names a SUBSCRIBE packet.
pub proof fn lemma_subscribe_first_byte(v: SubscribePropertiesView)
    ensures
        subscribe_bytes(v)[0] == 0x82u8,
        fixed_header::packet_type_of(subscribe_bytes(v)[0] & 0xF0u8) == crate::control_packets::mqtt_packet::packet::PacketType::SubscribeType,
{
    fixed_header::lemma_type_byte_constants();
}

} // verus!
