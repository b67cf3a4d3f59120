use vstd::prelude::*;
use vstd::utf8::*;

use crate::common::data_types::{read_byte, read_text, read_two_byte_integer, string_len, MqttError};
use crate::common::data_types;
use crate::control_packets::mqtt_packet::packet_property::{append_bytes, clone_opt_pair, clone_opt_string, opt_bytes_to_string, push_text, push_u16, REASON_STRING, USER_PROPERTY};
use crate::control_packets::mqtt_packet::packet_property;
use crate::control_packets::mqtt_packet::property_model::{PropertyModel, PropertyTable, Slot};
use crate::control_packets::mqtt_packet::property_model;
use crate::control_packets::mqtt_packet::variable_header_properties::VariableHeaderProperties;
use crate::control_packets::mqtt_packet::variable_header_properties;
use crate::common::data_types::read_to_end;
use vstd::slice::slice_to_vec;

verus! {

broadcast use {vstd::utf8::encode_utf8_valid_utf8, vstd::utf8::encode_utf8_decode_utf8};

/// The variable header and payload of a SUBACK packet: the packet identifier, the optional
/// properties, and one reason code per subscription.
pub struct SubackProperties {
    pub packet_identifier: u16,
    pub reason_string: Option<String>,
    pub user_property: Option<(String, String)>,
    pub reason_codes: Vec<u8>,
}

/// The mathematical value of [`SubackProperties`].
pub struct SubackPropertiesView {
    pub packet_identifier: u16,
    pub reason_string: Option<Seq<char>>,
    pub user_property: Option<(Seq<char>, Seq<char>)>,
    pub reason_codes: Seq<u8>,
}

impl View for SubackProperties {
    type V = SubackPropertiesView;

    open spec fn view(&self) -> SubackPropertiesView {
        SubackPropertiesView {
            packet_identifier: self.packet_identifier,
            reason_string: packet_property::opt_string_view(self.reason_string),
            user_property: packet_property::opt_pair_view(self.user_property),
            reason_codes: self.reason_codes@,
        }
    }
}

/// The properties of the header, in the order they are written: each field fills the
/// slot of its identifier.
pub open spec fn suback_properties_slots(v: SubackPropertiesView) -> Seq<Slot> {
    seq![
        (REASON_STRING, property_model::opt_text(v.reason_string)),
        (USER_PROPERTY, property_model::opt_pair(v.user_property)),
    ]
}

/// The bytes of the header: the packet identifier, the properties block, then the reason codes.
pub open spec fn suback_properties_bytes(v: SubackPropertiesView) -> Seq<u8> {
    let ps = property_model::slot_list(suback_properties_slots(v));
    data_types::be16(v.packet_identifier as int) + variable_header_properties::properties_block_bytes(property_model::properties_bytes(ps).len() as u16, ps) + v.reason_codes
}

/// The header that the fixed fields and the decoded properties give, with the payload,: each
/// optional field takes the last property with its identifier.
pub open spec fn suback_properties_from(packet_identifier: u16, ps: Seq<PropertyModel>, payload: Seq<u8>) -> Result<SubackPropertiesView, MqttError> {
    Ok(
        SubackPropertiesView {
            packet_identifier: packet_identifier,
            reason_string: property_model::as_text(property_model::last_with_id(ps, REASON_STRING)),
            user_property: property_model::as_pair(property_model::last_with_id(ps, USER_PROPERTY)),
            reason_codes: payload,
        },
    )
}

/// Reading the header from a stream.
pub open spec fn suback_properties_read(s: Seq<u8>) -> (Result<SubackPropertiesView, MqttError>, Seq<u8>) {
    let (r0, s0) = data_types::read_u16_spec(s);
    match r0 {
        Err(e) => (Err(e), s0),
        Ok(packet_identifier) => {
            let (b, sb) = variable_header_properties::properties_block_read(s0);
            match b {
                Err(e) => (Err(e), sb),
                Ok((_, ps)) => {
                    let (pl, sp) = data_types::read_to_end_spec(sb);
                    match pl {
                        Err(e) => (Err(e), sp),
                        Ok(payload) => (suback_properties_from(packet_identifier, ps, payload), sp),
                    }
                },
            }
        },
    }
}

/// Reading the header from this stream does not hit a decoding panic.
pub open spec fn suback_properties_safe(s: Seq<u8>) -> bool {
    let (r0, s0) = data_types::read_u16_spec(s);
    r0 is Ok ==> {
        variable_header_properties::properties_block_safe(s0)
    }
}

/// The header can be written: its properties fit in one block.
pub open spec fn suback_properties_fit(v: SubackPropertiesView) -> bool {
    &&& property_model::slots_fit(suback_properties_slots(v))
}

pub open spec fn suback_properties_result(r: Result<SubackProperties, MqttError>) -> Result<SubackPropertiesView, MqttError> {
    match r {
        Ok(x) => Ok(x@),
        Err(e) => Err(e),
    }
}

impl Clone for SubackProperties {
    fn clone(&self) -> (res: Self)
        ensures
            res@ == self@,
    {
        SubackProperties {
            packet_identifier: self.packet_identifier,
            reason_string: clone_opt_string(&self.reason_string),
            user_property: clone_opt_pair(&self.user_property),
            reason_codes: slice_to_vec(self.reason_codes.as_slice()),
        }
    }
}

impl Default for SubackProperties {
    fn default() -> (res: Self)
        ensures
            res@.packet_identifier == 0,
            res@.reason_string is None,
            res@.user_property is None,
            res@.reason_codes == Seq::<u8>::empty(),
    {
        SubackProperties {
            packet_identifier: 0,
            reason_string: None,
            user_property: None,
            reason_codes: Vec::new(),
        }
    }
}

impl SubackProperties {
    /// The properties block of the header.
    pub fn as_variable_header_properties(&self) -> (res: Result<VariableHeaderProperties, MqttError>)
        requires
            property_model::slots_fit(suback_properties_slots(self@)),
        ensures
            res matches Ok(b) && b.wf() && b.models() == property_model::slot_list(suback_properties_slots(self@)),
    {
        let ghost slots = suback_properties_slots(self@);
        assert(property_model::slots_typed(PropertyTable::Current, slots));
        let mut variable_props = VariableHeaderProperties::for_slots(Ghost(slots));
        variable_props.put_text(REASON_STRING, &self.reason_string, Ghost(slots), Ghost(0));
        variable_props.put_pair(USER_PROPERTY, &self.user_property, Ghost(slots), Ghost(1));
        proof {
            variable_header_properties::lemma_holds_all_slots(&variable_props, slots);
        }
        Ok(variable_props)
    }

    /// The number of bytes of the header.
    pub fn size_of(&self) -> (res: u32)
        requires
            suback_properties_fit(self@),
            suback_properties_bytes(self@).len() <= u32::MAX,
        ensures
            res == suback_properties_bytes(self@).len(),
    {
        let variable_props = match self.as_variable_header_properties() {
            Ok(v) => v,
            Err(_) => {
                return 0;
            },
        };
        2 + variable_props.size_of() + self.reason_codes.len() as u32
    }

    /// The bytes of the header.
    pub fn as_bytes(&self) -> (res: Result<Vec<u8>, MqttError>)
        requires
            suback_properties_fit(self@),
        ensures
            res matches Ok(b) && b@ == suback_properties_bytes(self@),
    {
        let mut bytes: Vec<u8> = Vec::new();
        let variable_header_properties = self.as_variable_header_properties()?;
        push_u16(&mut bytes, self.packet_identifier);
        let block = variable_header_properties.as_bytes();
        append_bytes(&mut bytes, block.as_slice());
        append_bytes(&mut bytes, self.reason_codes.as_slice());
        assert(bytes@ =~= suback_properties_bytes(self@));
        Ok(bytes)
    }

    /// Reads the header from a stream.
    pub fn read_from(stream: &mut &[u8]) -> (res: Result<Self, MqttError>)
        requires
            suback_properties_safe(old(stream)@),
        ensures
            (suback_properties_result(res), final(stream)@) == suback_properties_read(old(stream)@),
    {
        let packet_identifier = read_two_byte_integer(stream)?;
        let variable_header_properties = VariableHeaderProperties::read_from(stream)?;
        let ghost ps = variable_header_properties.models();
        let mut reason_string = None;
        let mut user_property = None;
        let mut i: usize = 0;
        while i < variable_header_properties.properties.len()
            invariant
                0 <= i <= ps.len(),
                ps == variable_header_properties.models(),
                packet_property::opt_string_view(reason_string) == property_model::as_text(property_model::last_with_id(ps.take(i as int), REASON_STRING)),
                packet_property::opt_pair_view(user_property) == property_model::as_pair(property_model::last_with_id(ps.take(i as int), USER_PROPERTY)),
            decreases ps.len() - i,
        {
            let property = &variable_header_properties.properties[i];
            proof {
                property_model::lemma_last_with_id_step(ps, i as int, REASON_STRING);
                property_model::lemma_last_with_id_step(ps, i as int, USER_PROPERTY);
            }
            let id = property.id();
            if id == REASON_STRING {
                reason_string = property.value_string();
            } else if id == USER_PROPERTY {
                user_property = property.value_string_pair();
            }
            i += 1;
        }
        proof {
            property_model::lemma_take_all(ps);
        }
        let reason_codes = read_to_end(stream);
        Ok(SubackProperties {
            packet_identifier,
            reason_string,
            user_property,
            reason_codes,
        })
    }
}

/// The slots of the header carry the kinds their identifiers take, no two share an
/// identifier, and decoding their properties gives the header back.
proof fn lemma_suback_properties_slots(v: SubackPropertiesView)
    ensures
        property_model::slots_typed(PropertyTable::Current, suback_properties_slots(v)),
        property_model::slots_distinct(suback_properties_slots(v)),
        suback_properties_from(v.packet_identifier, property_model::slot_list(suback_properties_slots(v)), v.reason_codes) == Ok::<SubackPropertiesView, MqttError>(v),
{
    let slots = suback_properties_slots(v);
    let ps = property_model::slot_list(slots);
    assert(property_model::slots_typed(PropertyTable::Current, slots));
    assert(property_model::slots_distinct(slots));
    property_model::lemma_slot_lookup(slots, 0);
    assert(property_model::as_text(property_model::last_with_id(ps, REASON_STRING)) == v.reason_string);
    property_model::lemma_slot_lookup(slots, 1);
    assert(property_model::as_pair(property_model::last_with_id(ps, USER_PROPERTY)) == v.user_property);
}

/// Reading back the bytes of a header that can be written gives the header back, and
/// leaves what follows.
#[verifier::spinoff_prover]
#[verifier::rlimit(30)]
pub proof fn lemma_suback_properties_roundtrip(v: SubackPropertiesView, rest: Seq<u8>)
    requires
        suback_properties_fit(v),
        rest.len() == 0,
    ensures
        suback_properties_read(suback_properties_bytes(v) + rest) == (Ok::<SubackPropertiesView, MqttError>(v), rest),
        suback_properties_safe(suback_properties_bytes(v) + rest),
{
    let slots = suback_properties_slots(v);
    let ps = property_model::slot_list(slots);
    let block = variable_header_properties::properties_block_bytes(property_model::properties_bytes(ps).len() as u16, ps);
    lemma_suback_properties_slots(v);
    property_model::lemma_slots_encodable(PropertyTable::Current, slots);
    let tail = v.reason_codes + rest;
    assert(tail =~= v.reason_codes);
    variable_header_properties::lemma_properties_block_roundtrip(property_model::properties_bytes(ps).len() as u16, ps, tail);
    data_types::lemma_read_u16_prefix(v.packet_identifier, block + tail);
    assert(suback_properties_bytes(v) + rest =~= data_types::be16(v.packet_identifier as int) + (block + tail));
}

/// Each field of the SUBACK header is written as the property with its own MQTT 5
/// identifier: Reason String 0x1F and User Property 0x26.
pub proof fn lemma_suback_property_identifiers(v: SubackPropertiesView)
    ensures
        ({
            let ps = property_model::slot_list(suback_properties_slots(v));
            &&& property_model::as_text(property_model::last_with_id(ps, 0x1Fu8)) == v.reason_string
            &&& property_model::as_pair(property_model::last_with_id(ps, 0x26u8)) == v.user_property
        }),
{
    lemma_suback_properties_slots(v);
}

/// The SUBACK variable header starts with the packet identifier, high byte first, and the
/// packet ends with the reason codes, one byte per topic filter, in order.
pub proof fn lemma_suback_header_layout(v: SubackPropertiesView)
    ensures
        suback_properties_bytes(v)[0] as int * 256 + suback_properties_bytes(v)[1] as int == v.packet_identifier as int,
        suback_properties_bytes(v).subrange(suback_properties_bytes(v).len() - v.reason_codes.len(), suback_properties_bytes(v).len() as int) == v.reason_codes,
{
}

} // verus!
