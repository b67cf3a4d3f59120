use vstd::prelude::*;
use vstd::utf8::*;

use crate::common::data_types::{read_byte, read_two_byte_integer, MqttError};
use crate::common::data_types;
use crate::control_packets::mqtt_packet::packet_property::{
    append_bytes, push_u16, REASON_STRING, USER_PROPERTY,
};
use crate::control_packets::mqtt_packet::property_model::{PropertyModel, PropertyValue};
use crate::control_packets::mqtt_packet::property_model;
use crate::control_packets::mqtt_packet::variable_header_properties::VariableHeaderProperties;
use crate::control_packets::mqtt_packet::variable_header_properties;

verus! {

/// The properties of a PUBACK variable header in the older layout, both present.
pub struct _PubackProperties {
    pub reason_string: String,
    pub user_property: (String, String),
}

/// The variable header of a PUBACK packet in the older layout: the packet identifier, the
/// reason code and a properties block.
pub struct _PubackVariableHeader {
    pub packet_id: u16,
    pub puback_reason_code: u8,
    pub properties: VariableHeaderProperties,
}

/// The properties of the header, in the order they are added.
pub open spec fn puback_legacy_models(p: _PubackProperties) -> Seq<PropertyModel> {
    seq![
        PropertyModel { id: REASON_STRING, value: PropertyValue::Text(p.reason_string@) },
        PropertyModel { id: USER_PROPERTY, value: PropertyValue::TextPair(p.user_property.0@, p.user_property.1@) },
    ]
}

/// The properties fit in one block.
pub open spec fn puback_legacy_fit(p: _PubackProperties) -> bool {
    3 + encode_utf8(p.reason_string@).len() + 5 + encode_utf8(p.user_property.0@).len()
        + encode_utf8(p.user_property.1@).len() <= u16::MAX
}

/// The bytes of the header: the packet identifier, the reason code, then the block.
pub open spec fn puback_legacy_bytes(packet_id: u16, code: u8, bytes_length: u16, ps: Seq<PropertyModel>) -> Seq<u8> {
    data_types::be16(packet_id as int) + seq![code]
        + variable_header_properties::properties_block_bytes(bytes_length, ps)
}

/// Reading the header from a stream.
pub open spec fn puback_legacy_read(s: Seq<u8>) -> (Result<(u16, u8, u16, Seq<PropertyModel>), MqttError>, Seq<u8>) {
    let (i, s1) = data_types::read_u16_spec(s);
    match i {
        Err(e) => (Err(e), s1),
        Ok(packet_id) => {
            let (c, s2) = data_types::read_byte_spec(s1);
            match c {
                Err(e) => (Err(e), s2),
                Ok(code) => match variable_header_properties::properties_block_read(s2) {
                    (Err(e), s3) => (Err(e), s3),
                    (Ok((n, ps)), s3) => (Ok((packet_id, code, n, ps)), s3),
                },
            }
        },
    }
}

/// Reading the header from this stream does not hit a decoding panic.
pub open spec fn puback_legacy_safe(s: Seq<u8>) -> bool {
    s.len() >= 3 ==> variable_header_properties::properties_block_safe(s.skip(3))
}

/// The properties block of a PUBACK variable header: the reason string, then the user
/// property.
pub fn _new_puback_properties(puback_props: _PubackProperties) -> (res: Result<VariableHeaderProperties, MqttError>)
    requires
        puback_legacy_fit(puback_props),
    ensures
        res matches Ok(b) && b.wf() && b.models() == puback_legacy_models(puback_props),
{
    let ghost p = puback_props;
    let mut variable_props = VariableHeaderProperties::new();
    variable_props.add_utf8_string_property(REASON_STRING, puback_props.reason_string)?;
    variable_props.add_utf8_pair_string_property(
        USER_PROPERTY,
        puback_props.user_property.0,
        puback_props.user_property.1,
    )?;
    proof {
        assert(variable_props.models() =~= puback_legacy_models(p));
        reveal_with_fuel(property_model::properties_bytes, 3);
    }
    Ok(variable_props)
}

impl _PubackVariableHeader {
    /// The number of bytes of the header, not counting the two-byte length of the block.
    pub fn _length(&self) -> (res: u16)
        requires
            3 + self.properties.bytes_length <= u16::MAX,
        ensures
            res == 3 + self.properties.bytes_length,
    {
        1 + 2 + self.properties.bytes_length
    }

    /// The header with the given packet identifier, reason code and properties.
    pub fn _new(packet_id: u16, puback_reason_code: u8, props: _PubackProperties) -> (res: Result<Self, MqttError>)
        requires
            puback_legacy_fit(props),
        ensures
            res matches Ok(h) && h.packet_id == packet_id && h.puback_reason_code == puback_reason_code
                && h.properties.wf() && h.properties.models() == puback_legacy_models(props),
    {
        let properties = _new_puback_properties(props)?;
        let variable_header = _PubackVariableHeader { packet_id, puback_reason_code, properties };
        Ok(variable_header)
    }

    /// The bytes of the header.
    pub fn _as_bytes(&self) -> (res: Vec<u8>)
        ensures
            res@ == puback_legacy_bytes(
                self.packet_id,
                self.puback_reason_code,
                self.properties.bytes_length,
                self.properties.models(),
            ),
    {
        let mut bytes: Vec<u8> = Vec::new();
        push_u16(&mut bytes, self.packet_id);
        bytes.push(self.puback_reason_code);
        let block = self.properties.as_bytes();
        append_bytes(&mut bytes, block.as_slice());
        assert(bytes@ =~= puback_legacy_bytes(
            self.packet_id,
            self.puback_reason_code,
            self.properties.bytes_length,
            self.properties.models(),
        ));
        bytes
    }

    /// Reads the header from a stream.
    pub fn _read_from(stream: &mut &[u8]) -> (res: Result<Self, MqttError>)
        requires
            puback_legacy_safe(old(stream)@),
        ensures
            ({
                let (r, rest) = puback_legacy_read(old(stream)@);
                &&& final(stream)@ == rest
                &&& match res {
                    Ok(h) => r == Ok::<(u16, u8, u16, Seq<PropertyModel>), MqttError>(
                        (h.packet_id, h.puback_reason_code, h.properties.bytes_length, h.properties.models()),
                    ),
                    Err(e) => r == Err::<(u16, u8, u16, Seq<PropertyModel>), MqttError>(e),
                }
            }),
    {
        let ghost s0 = stream@;
        let packet_id = read_two_byte_integer(stream)?;
        let puback_reason_code = read_byte(stream)?;
        assert(stream@ =~= s0.skip(3));
        let properties = VariableHeaderProperties::read_from(stream)?;
        let variable_header = _PubackVariableHeader { packet_id, puback_reason_code, properties };
        Ok(variable_header)
    }
}

/// Reading back the bytes of a header whose block is well formed gives the header back.
#[verifier::spinoff_prover]
#[verifier::rlimit(30)]
pub proof fn lemma_puback_legacy_roundtrip(packet_id: u16, code: u8, b: VariableHeaderProperties, rest: Seq<u8>)
    requires
        b.wf(),
    ensures
        puback_legacy_read(puback_legacy_bytes(packet_id, code, b.bytes_length, b.models()) + rest) == (
            Ok::<(u16, u8, u16, Seq<PropertyModel>), MqttError>((packet_id, code, b.bytes_length, b.models())),
            rest,
        ),
        puback_legacy_safe(puback_legacy_bytes(packet_id, code, b.bytes_length, b.models()) + rest),
{
    let block = variable_header_properties::properties_block_bytes(b.bytes_length, b.models());
    variable_header_properties::lemma_properties_block_roundtrip(b.bytes_length, b.models(), rest);
    data_types::lemma_read_byte_prefix(code, block + rest);
    data_types::lemma_read_u16_prefix(packet_id, seq![code] + (block + rest));
    assert(puback_legacy_bytes(packet_id, code, b.bytes_length, b.models()) + rest
        =~= data_types::be16(packet_id as int) + (seq![code] + (block + rest)));
    assert((seq![code] + (block + rest)).skip(1) =~= block + rest);
    assert((puback_legacy_bytes(packet_id, code, b.bytes_length, b.models()) + rest).skip(3)
        =~= block + rest);
}

} // verus!
