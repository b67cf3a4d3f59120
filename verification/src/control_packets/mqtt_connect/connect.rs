use vstd::prelude::*;

use crate::common::data_types::{take_bytes, MqttError};
use crate::common::data_types;
use crate::control_packets::mqtt_connect::connect_properties::{
    ConnectProperties, ConnectPropertiesView,
};
use crate::control_packets::mqtt_connect::connect_properties;
use crate::control_packets::mqtt_connect::payload::{ConnectPayload, ConnectPayloadView};
use crate::control_packets::mqtt_connect::payload;
use crate::control_packets::mqtt_packet::fixed_header::{PacketFixedHeader, CONNECT_PACKET};
use crate::control_packets::mqtt_packet::fixed_header;
use crate::control_packets::mqtt_packet::packet_property::append_bytes;

verus! {

/// A CONNECT packet: the first packet a client sends, with its variable header and payload.
pub struct Connect {
    pub properties: ConnectProperties,
    pub payload: ConnectPayload,
}

/// The bytes of the rest of a CONNECT packet: the variable header, then the payload.
pub open spec fn connect_body_bytes(p: ConnectPropertiesView, q: ConnectPayloadView) -> Seq<u8> {
    connect_properties::connect_properties_bytes(p) + payload::connect_payload_bytes(q)
}

/// The bytes of a CONNECT packet: the fixed header, the variable header, then the payload.
pub open spec fn connect_bytes(p: ConnectPropertiesView, q: ConnectPayloadView) -> Seq<u8> {
    fixed_header::fixed_header_bytes(CONNECT_PACKET, connect_body_bytes(p, q).len() as u16)
        + connect_body_bytes(p, q)
}

/// Reading the rest of a CONNECT packet of `remaining_length` bytes from a stream: the
/// bytes are taken first, then the variable header and the payload are read from them.
pub open spec fn connect_read(s: Seq<u8>, remaining_length: u16) -> (
    Result<(ConnectPropertiesView, ConnectPayloadView), MqttError>,
    Seq<u8>,
) {
    let (b, s1) = data_types::read_bytes_spec(s, remaining_length as int);
    match b {
        Err(e) => (Err(e), s1),
        Ok(body) => {
            let (p, rest) = connect_properties::connect_properties_read(body);
            match p {
                Err(e) => (Err(e), s1),
                Ok(props) => match payload::connect_payload_read(rest).0 {
                    Err(e) => (Err(e), s1),
                    Ok(q) => (Ok((props, q)), s1),
                },
            }
        },
    }
}

/// Reading the rest of the packet from this stream does not hit a decoding panic.
pub open spec fn connect_read_safe(s: Seq<u8>, remaining_length: u16) -> bool {
    let body = s.take(remaining_length as int);
    let (p, rest) = connect_properties::connect_properties_read(body);
    remaining_length <= s.len() ==> {
        &&& connect_properties::connect_properties_safe(body)
        &&& p is Ok ==> payload::connect_payload_safe(rest)
    }
}

/// The packet can be written: its variable header and payload can, and their length fits
/// in the two-byte remaining length.
pub open spec fn connect_fits(p: ConnectPropertiesView, q: ConnectPayloadView) -> bool {
    &&& connect_properties::connect_properties_fit(p)
    &&& payload::connect_payload_fit(q)
    &&& connect_body_bytes(p, q).len() <= u16::MAX
}

impl Connect {
    pub fn new(properties: ConnectProperties, payload: ConnectPayload) -> (res: Self)
        ensures
            res.properties == properties,
            res.payload == payload,
    {
        Connect { properties, payload }
    }

    /// Reads the rest of a CONNECT packet whose fixed header announced `remaining_length`
    /// bytes.
    pub fn read_from(stream: &mut &[u8], remaining_length: u16) -> (res: Result<Self, MqttError>)
        requires
            connect_read_safe(old(stream)@, remaining_length),
        ensures
            ({
                let (r, rest) = connect_read(old(stream)@, remaining_length);
                &&& final(stream)@ == rest
                &&& match res {
                    Ok(c) => r == Ok::<(ConnectPropertiesView, ConnectPayloadView), MqttError>(
                        (c.properties@, c.payload@),
                    ),
                    Err(e) => r == Err::<(ConnectPropertiesView, ConnectPayloadView), MqttError>(e),
                }
            }),
    {
        let aux_buffer = take_bytes(stream, remaining_length as usize)?;
        let mut buffer = aux_buffer;
        let properties = ConnectProperties::read_from(&mut buffer)?;
        let payload = ConnectPayload::read_from(&mut buffer)?;
        Ok(Connect { properties, payload })
    }

    /// Writes the packet to a stream.
    pub fn write_to(&self, stream: &mut Vec<u8>) -> (res: Result<(), MqttError>)
        requires
            connect_fits(self.properties@, self.payload@),
        ensures
            res is Ok,
            final(stream)@ == old(stream)@ + connect_bytes(self.properties@, self.payload@),
    {
        let properties = self.properties.as_bytes()?;
        let payload = self.payload.as_bytes()?;
        let remaining_length = self.properties.size_of() + self.payload.size_of();
        let fixed_header = PacketFixedHeader::new(CONNECT_PACKET, remaining_length);
        let fixed_header_bytes = fixed_header.as_bytes();
        append_bytes(stream, fixed_header_bytes.as_slice());
        append_bytes(stream, properties.as_slice());
        append_bytes(stream, payload.as_slice());
        assert(final(stream)@ =~= old(stream)@ + connect_bytes(self.properties@, self.payload@));
        Ok(())
    }
}

/// A CONNECT packet that can be written reads back as written when its optional payload
/// fields can be told apart: the fixed header gives the CONNECT type and the length of the
/// rest, and the rest gives the same variable header and payload.
#[verifier::spinoff_prover]
#[verifier::rlimit(30)]
pub proof fn lemma_connect_roundtrip(p: ConnectPropertiesView, q: ConnectPayloadView, rest: Seq<u8>)
    requires
        connect_fits(p, q),
        payload::connect_tail_readable((q.will_topic, q.will_payload, q.username, q.password)),
    ensures
        ({
            let body = connect_body_bytes(p, q);
            let (h, s1) = fixed_header::fixed_header_read(connect_bytes(p, q) + rest);
            &&& h == Ok::<(u8, u16), MqttError>((CONNECT_PACKET, body.len() as u16))
            &&& s1 == body + rest
            &&& connect_read_safe(s1, body.len() as u16)
            &&& connect_read(s1, body.len() as u16) == (
                Ok::<(ConnectPropertiesView, ConnectPayloadView), MqttError>((p, q)),
                rest,
            )
        }),
{
    let bp = connect_properties::connect_properties_bytes(p);
    let bq = payload::connect_payload_bytes(q);
    let body = connect_body_bytes(p, q);
    let n = body.len() as u16;
    assert(connect_bytes(p, q) + rest =~= fixed_header::fixed_header_bytes(CONNECT_PACKET, n) + (
    body + rest));
    fixed_header::lemma_fixed_header_roundtrip(CONNECT_PACKET, n, body + rest);
    assert((body + rest).take(n as int) =~= body);
    assert((body + rest).skip(n as int) =~= rest);
    connect_properties::lemma_connect_properties_roundtrip(p, bq);
    payload::lemma_connect_payload_roundtrip(q, Seq::empty());
    assert(bq + Seq::<u8>::empty() =~= bq);
}

/// A CONNECT packet starts with the byte 0x10: type 1 in the high four bits, with no flags;
/// read back, that byte names a CONNECT packet.
pub proof fn lemma_connect_first_byte(p: ConnectPropertiesView, q: ConnectPayloadView)
    ensures
        connect_bytes(p, q)[0] == 0x10u8,
        fixed_header::packet_type_of(connect_bytes(p, q)[0] & 0xF0u8) == crate::control_packets::mqtt_packet::packet::PacketType::ConnectType,
{
    fixed_header::lemma_type_byte_constants();
}

} // verus!
