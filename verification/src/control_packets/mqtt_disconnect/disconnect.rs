use vstd::prelude::*;

use crate::common::data_types::{take_bytes, MqttError};
use crate::common::data_types;
use crate::control_packets::mqtt_disconnect::disconnect_properties::{DisconnectProperties, DisconnectPropertiesView};
use crate::control_packets::mqtt_disconnect::disconnect_properties;
use crate::control_packets::mqtt_packet::fixed_header::{PacketFixedHeader, DISCONNECT_PACKET};
use crate::control_packets::mqtt_packet::fixed_header;
use crate::control_packets::mqtt_packet::packet_property::append_bytes;
use crate::control_packets::mqtt_packet::property_model::PropertyModel;
use crate::control_packets::mqtt_packet::property_model;
use crate::control_packets::mqtt_disconnect::variable_header::_DisconnectVariableHeader;
use crate::control_packets::mqtt_disconnect::variable_header;

verus! {

/// A DISCONNECT packet: the last packet of a connection, with the reason for closing it.
pub struct Disconnect {
    pub properties: DisconnectProperties,
}

/// The bytes of a DISCONNECT packet: the fixed header, then the variable header.
pub open spec fn disconnect_bytes(v: DisconnectPropertiesView) -> Seq<u8> {
    fixed_header::fixed_header_bytes(
        fixed_header::header_type(DISCONNECT_PACKET),
        disconnect_properties::disconnect_properties_bytes(v).len() as u16,
    ) + disconnect_properties::disconnect_properties_bytes(v)
}

/// Reading the rest of a DISCONNECT packet of `remaining_length` bytes from a stream: the
/// bytes are taken first, then the variable header is read from them.
pub open spec fn disconnect_read(s: Seq<u8>, remaining_length: u16) -> (Result<DisconnectPropertiesView, MqttError>, Seq<u8>) {
    let (b, s1) = data_types::read_bytes_spec(s, remaining_length as int);
    match b {
        Err(e) => (Err(e), s1),
        Ok(body) => (disconnect_properties::disconnect_properties_read(body).0, s1),
    }
}

/// Reading the rest of the packet from this stream does not hit a decoding panic.
pub open spec fn disconnect_read_safe(s: Seq<u8>, remaining_length: u16) -> bool {
    remaining_length <= s.len() ==> disconnect_properties::disconnect_properties_safe(s.take(remaining_length as int))
}

/// The packet can be written: its variable header can, and its length fits in the two-byte
/// remaining length.
pub open spec fn disconnect_fits(v: DisconnectPropertiesView) -> bool {
    &&& disconnect_properties::disconnect_properties_fit(v)
    &&& disconnect_properties::disconnect_properties_bytes(v).len() <= u16::MAX
}

impl Disconnect {
    pub fn new(properties: DisconnectProperties) -> (res: Disconnect)
        ensures
            res.properties == properties,
    {
        Disconnect { properties }
    }

    /// Reads the rest of a DISCONNECT packet whose fixed header announced `remaining_length`
    /// bytes.
    pub fn read_from(stream: &mut &[u8], remaining_length: u16) -> (res: Result<Disconnect, MqttError>)
        requires
            disconnect_read_safe(old(stream)@, remaining_length),
        ensures
            ({
                let (r, rest) = disconnect_read(old(stream)@, remaining_length);
                &&& final(stream)@ == rest
                &&& match res {
                    Ok(a) => r == Ok::<DisconnectPropertiesView, MqttError>(a.properties@),
                    Err(e) => r == Err::<DisconnectPropertiesView, MqttError>(e),
                }
            }),
    {
        let aux_buffer = take_bytes(stream, remaining_length as usize)?;
        let mut buffer = aux_buffer;
        let properties = DisconnectProperties::read_from(&mut buffer)?;
        Ok(Disconnect { properties })
    }

    /// Writes the packet to a stream.
    pub fn write_to(&self, stream: &mut Vec<u8>) -> (res: Result<(), MqttError>)
        requires
            disconnect_fits(self.properties@),
        ensures
            res is Ok,
            final(stream)@ == old(stream)@ + disconnect_bytes(self.properties@),
    {
        let properties = self.properties.as_bytes()?;
        let remaining_length = self.properties.size_of();
        let fixed_header = PacketFixedHeader::new(DISCONNECT_PACKET, remaining_length as u16);
        let fixed_header_bytes = fixed_header.as_bytes();
        append_bytes(stream, fixed_header_bytes.as_slice());
        append_bytes(stream, properties.as_slice());
        assert(final(stream)@ =~= old(stream)@ + disconnect_bytes(self.properties@));
        Ok(())
    }
}

/// A DISCONNECT packet that can be written reads back as written: the fixed header gives the
/// DISCONNECT type and the length of the rest, and the rest gives the same variable header.
#[verifier::spinoff_prover]
#[verifier::rlimit(30)]
pub proof fn lemma_disconnect_roundtrip(v: DisconnectPropertiesView, rest: Seq<u8>)
    requires
        disconnect_fits(v),
    ensures
        ({
            let body = disconnect_properties::disconnect_properties_bytes(v);
            let (h, s1) = fixed_header::fixed_header_read(disconnect_bytes(v) + rest);
            &&& h == Ok::<(u8, u16), MqttError>((fixed_header::header_type(DISCONNECT_PACKET), body.len() as u16))
            &&& s1 == body + rest
            &&& disconnect_read_safe(s1, body.len() as u16)
            &&& disconnect_read(s1, body.len() as u16) == (Ok::<DisconnectPropertiesView, MqttError>(v), rest)
        }),
{
    let body = disconnect_properties::disconnect_properties_bytes(v);
    let n = body.len() as u16;
    let t = fixed_header::header_type(DISCONNECT_PACKET);
    assert(disconnect_bytes(v) + rest =~= fixed_header::fixed_header_bytes(t, n) + (body + rest));
    fixed_header::lemma_fixed_header_roundtrip(t, n, body + rest);
    fixed_header::lemma_header_type_stable(DISCONNECT_PACKET);
    assert((body + rest).take(n as int) =~= body);
    assert((body + rest).skip(n as int) =~= rest);
    disconnect_properties::lemma_disconnect_properties_roundtrip(v, Seq::empty());
    assert(body + Seq::<u8>::empty() =~= body);
}

/// The properties of a DISCONNECT packet in the older layout, all present.
pub struct _DisconnectProperties {
    pub session_expiry_interval: u32,
    pub reason_string: String,
    pub user_property: (String, String),
    pub server_reference: String,
}

/// A DISCONNECT packet in the older layout: its fixed header and its variable header.
pub struct _Disconnect {
    pub fixed_header: PacketFixedHeader,
    pub variable_header: _DisconnectVariableHeader,
}

impl _Disconnect {
    /// Writes the fixed header, then the variable header.
    pub fn _write_to(&self, stream: &mut Vec<u8>) -> (res: Result<(), MqttError>)
        ensures
            res is Ok,
            final(stream)@ == old(stream)@ + fixed_header::fixed_header_bytes(
                self.fixed_header.packet_type,
                self.fixed_header.remaining_length,
            ) + variable_header::disconnect_legacy_bytes(
                self.variable_header.disconnect_reason_code,
                self.variable_header.properties.bytes_length,
                self.variable_header.properties.models(),
            ),
    {
        let fixed_header = self.fixed_header.as_bytes();
        append_bytes(stream, fixed_header.as_slice());
        let variable_header = self.variable_header._as_bytes();
        append_bytes(stream, variable_header.as_slice());
        Ok(())
    }

    /// Reads the fixed header, then the variable header.
    pub fn _read_from(stream: &mut &[u8]) -> (res: Result<Self, MqttError>)
        requires
            fixed_header::fixed_header_read(old(stream)@).0 is Ok ==> variable_header::disconnect_legacy_safe(
                fixed_header::fixed_header_read(old(stream)@).1,
            ),
        ensures
            ({
                let (h, s1) = fixed_header::fixed_header_read(old(stream)@);
                match h {
                    Err(e) => res == Err::<Self, MqttError>(e) && final(stream)@ == s1,
                    Ok((t, n)) => {
                        let (r, s2) = variable_header::disconnect_legacy_read(s1);
                        &&& final(stream)@ == s2
                        &&& match res {
                            Ok(d) => d.fixed_header.packet_type == t && d.fixed_header.remaining_length == n
                                && r == Ok::<(u8, u16, Seq<PropertyModel>), MqttError>(
                                (
                                    d.variable_header.disconnect_reason_code,
                                    d.variable_header.properties.bytes_length,
                                    d.variable_header.properties.models(),
                                ),
                            ),
                            Err(e) => r == Err::<(u8, u16, Seq<PropertyModel>), MqttError>(e),
                        }
                    },
                }
            }),
    {
        let fixed_header = PacketFixedHeader::read_from(stream)?;
        let variable_header = _DisconnectVariableHeader::_read_from(stream)?;
        let connect = _Disconnect { fixed_header, variable_header };
        Ok(connect)
    }

    /// A DISCONNECT packet with the given reason code and properties; its remaining length
    /// is the length that [`_DisconnectVariableHeader::_length`] gives.
    pub fn _new(disconnect_reason_code: u8, disconnect_properties: _DisconnectProperties) -> (res: Result<Self, MqttError>)
        requires
            variable_header::disconnect_legacy_fit(disconnect_properties),
            1 + property_model::properties_bytes(
                variable_header::disconnect_legacy_models(disconnect_properties),
            ).len() <= u8::MAX,
        ensures
            res matches Ok(d) && d.fixed_header.packet_type == DISCONNECT_PACKET
                && d.fixed_header.remaining_length == 1 + d.variable_header.properties.bytes_length
                && d.variable_header.disconnect_reason_code == disconnect_reason_code
                && d.variable_header.properties.wf()
                && d.variable_header.properties.models() == variable_header::disconnect_legacy_models(
                disconnect_properties,
            ),
    {
        let variable_header = _DisconnectVariableHeader::_new(
            disconnect_reason_code,
            disconnect_properties,
        )?;
        let remaining_length = variable_header._length();
        let fixed_header = PacketFixedHeader::new(DISCONNECT_PACKET, remaining_length as u16);
        Ok(_Disconnect { fixed_header, variable_header })
    }
}

/// A DISCONNECT packet starts with the byte 0xE0: type 14 in the high four bits, with no flags;
/// read back, that byte names a DISCONNECT packet.
pub proof fn lemma_disconnect_first_byte(v: DisconnectPropertiesView)
    ensures
        disconnect_bytes(v)[0] == 0xE0u8,
        fixed_header::packet_type_of(disconnect_bytes(v)[0] & 0xF0u8) == crate::control_packets::mqtt_packet::packet::PacketType::DisconnectType,
{
    fixed_header::lemma_type_byte_constants();
}

} // verus!
