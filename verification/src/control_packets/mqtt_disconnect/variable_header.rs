use vstd::prelude::*;
use vstd::utf8::*;

use crate::common::data_types::{read_byte, MqttError};
use crate::common::data_types;
use crate::control_packets::mqtt_disconnect::disconnect::_DisconnectProperties;
use crate::control_packets::mqtt_packet::packet_property::append_bytes;
use crate::control_packets::mqtt_packet::property_list::PropertyList;
use crate::control_packets::mqtt_packet::property_list;
use crate::control_packets::mqtt_packet::property_model::{PropertyModel, PropertyTable, PropertyValue};
use crate::control_packets::mqtt_packet::property_model;
use crate::control_packets::mqtt_packet::variable_header_properties;
use crate::control_packets::mqtt_packet::variable_header_property::{
    REASON_STRING, SERVER_REFERENCE, SESSION_EXPIRY_INTERVAL, USER_PROPERTY,
};

verus! {

/// The variable header of a DISCONNECT packet in the older layout: the reason code and a
/// properties block of the older table.
pub struct _DisconnectVariableHeader {
    pub disconnect_reason_code: u8,
    pub properties: PropertyList,
}

/// The properties of a DISCONNECT variable header, in the order they are added.
pub open spec fn disconnect_legacy_models(p: _DisconnectProperties) -> Seq<PropertyModel> {
    seq![
        PropertyModel { id: SESSION_EXPIRY_INTERVAL, value: PropertyValue::FourBytes(p.session_expiry_interval) },
        PropertyModel { id: REASON_STRING, value: PropertyValue::Text(p.reason_string@) },
        PropertyModel { id: USER_PROPERTY, value: PropertyValue::TextPair(p.user_property.0@, p.user_property.1@) },
        PropertyModel { id: SERVER_REFERENCE, value: PropertyValue::Text(p.server_reference@) },
    ]
}

/// The properties fit in one block.
pub open spec fn disconnect_legacy_fit(p: _DisconnectProperties) -> bool {
    5 + 3 + encode_utf8(p.reason_string@).len() + 5 + encode_utf8(p.user_property.0@).len()
        + encode_utf8(p.user_property.1@).len() + 3 + encode_utf8(p.server_reference@).len()
        <= u16::MAX
}

/// The bytes of the header: the reason code, then the block.
pub open spec fn disconnect_legacy_bytes(code: u8, bytes_length: u16, ps: Seq<PropertyModel>) -> Seq<u8> {
    seq![code] + variable_header_properties::properties_block_bytes(bytes_length, ps)
}

/// Reading the header from a stream: the reason code, then a block of the older table.
pub open spec fn disconnect_legacy_read(s: Seq<u8>) -> (Result<(u8, u16, Seq<PropertyModel>), MqttError>, Seq<u8>) {
    let (c, s1) = data_types::read_byte_spec(s);
    match c {
        Err(e) => (Err(e), s1),
        Ok(code) => match property_list::list_block_read(s1) {
            (Err(e), s2) => (Err(e), s2),
            (Ok((n, ps)), s2) => (Ok((code, n, ps)), s2),
        },
    }
}

/// Reading the header from this stream does not hit a decoding panic.
pub open spec fn disconnect_legacy_safe(s: Seq<u8>) -> bool {
    s.len() >= 1 ==> property_list::list_block_safe(s.skip(1))
}

/// The properties block of a DISCONNECT variable header: the session expiry interval, the
/// reason string, the user property and the server reference.
pub fn _new_disconnect_properties(disconnect_properties: _DisconnectProperties) -> (res: Result<PropertyList, MqttError>)
    requires
        disconnect_legacy_fit(disconnect_properties),
    ensures
        res matches Ok(l) && l.wf() && l.models() == disconnect_legacy_models(disconnect_properties),
{
    let ghost p = disconnect_properties;
    let mut variable_props = PropertyList::new();
    variable_props.add_u32_property(
        SESSION_EXPIRY_INTERVAL,
        disconnect_properties.session_expiry_interval,
    )?;
    variable_props.add_utf8_string_property(REASON_STRING, disconnect_properties.reason_string)?;
    variable_props.add_utf8_pair_string_property(
        USER_PROPERTY,
        disconnect_properties.user_property.0,
        disconnect_properties.user_property.1,
    )?;
    variable_props.add_utf8_string_property(SERVER_REFERENCE, disconnect_properties.server_reference)?;
    proof {
        let ms = disconnect_legacy_models(p);
        assert(variable_props.models() =~= ms);
        reveal_with_fuel(property_model::properties_bytes, 5);
    }
    Ok(variable_props)
}

impl _DisconnectVariableHeader {
    /// The header with the given reason code and properties.
    pub fn _new(disconnect_reason_code: u8, properties: _DisconnectProperties) -> (res: Result<Self, MqttError>)
        requires
            disconnect_legacy_fit(properties),
        ensures
            res matches Ok(h) && h.disconnect_reason_code == disconnect_reason_code && h.properties.wf()
                && h.properties.models() == disconnect_legacy_models(properties),
    {
        let properties = _new_disconnect_properties(properties)?;
        let variable_header = _DisconnectVariableHeader { disconnect_reason_code, properties };
        Ok(variable_header)
    }

    /// The number of bytes of the header, not counting the two-byte length of the block.
    pub fn _length(&self) -> (res: u8)
        requires
            1 + self.properties.bytes_length <= u8::MAX,
        ensures
            res == 1 + self.properties.bytes_length,
    {
        1 + self.properties.bytes_length as u8
    }

    /// The bytes of the header.
    pub fn _as_bytes(&self) -> (res: Vec<u8>)
        ensures
            res@ == disconnect_legacy_bytes(
                self.disconnect_reason_code,
                self.properties.bytes_length,
                self.properties.models(),
            ),
    {
        let mut bytes: Vec<u8> = Vec::new();
        bytes.push(self.disconnect_reason_code);
        let block = self.properties.as_bytes();
        append_bytes(&mut bytes, block.as_slice());
        assert(bytes@ =~= disconnect_legacy_bytes(
            self.disconnect_reason_code,
            self.properties.bytes_length,
            self.properties.models(),
        ));
        bytes
    }

    /// Reads the header from a stream.
    pub fn _read_from(stream: &mut &[u8]) -> (res: Result<Self, MqttError>)
        requires
            disconnect_legacy_safe(old(stream)@),
        ensures
            ({
                let (r, rest) = disconnect_legacy_read(old(stream)@);
                &&& final(stream)@ == rest
                &&& match res {
                    Ok(h) => r == Ok::<(u8, u16, Seq<PropertyModel>), MqttError>(
                        (h.disconnect_reason_code, h.properties.bytes_length, h.properties.models()),
                    ),
                    Err(e) => r == Err::<(u8, u16, Seq<PropertyModel>), MqttError>(e),
                }
            }),
    {
        let disconnect_reason_code = read_byte(stream)?;
        let properties = PropertyList::read_from(stream)?;
        Ok(_DisconnectVariableHeader { disconnect_reason_code, properties })
    }
}

/// Reading back the bytes of a header whose block is well formed gives the header back.
#[verifier::spinoff_prover]
#[verifier::rlimit(30)]
pub proof fn lemma_disconnect_legacy_roundtrip(code: u8, l: PropertyList, rest: Seq<u8>)
    requires
        l.wf(),
    ensures
        disconnect_legacy_read(disconnect_legacy_bytes(code, l.bytes_length, l.models()) + rest) == (
            Ok::<(u8, u16, Seq<PropertyModel>), MqttError>((code, l.bytes_length, l.models())),
            rest,
        ),
        disconnect_legacy_safe(disconnect_legacy_bytes(code, l.bytes_length, l.models()) + rest),
{
    let block = variable_header_properties::properties_block_bytes(l.bytes_length, l.models());
    property_list::lemma_list_block_roundtrip(l.bytes_length, l.models(), rest);
    data_types::lemma_read_byte_prefix(code, block + rest);
    assert(disconnect_legacy_bytes(code, l.bytes_length, l.models()) + rest =~= seq![code] + (block + rest));
}

} // verus!
