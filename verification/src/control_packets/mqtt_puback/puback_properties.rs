use vstd::prelude::*;
use vstd::utf8::*;

use crate::common::data_types::{read_byte, read_text, read_two_byte_integer, string_len, MqttError};
use crate::common::data_types;
use crate::control_packets::mqtt_packet::packet_property::{append_bytes, clone_opt_pair, clone_opt_string, opt_bytes_to_string, push_text, push_u16, REASON_STRING, USER_PROPERTY};
use crate::control_packets::mqtt_packet::packet_property;
use crate::control_packets::mqtt_packet::property_model::{PropertyModel, PropertyTable, Slot};
use crate::control_packets::mqtt_packet::property_model;
use crate::control_packets::mqtt_packet::variable_header_properties::VariableHeaderProperties;
use crate::control_packets::mqtt_packet::variable_header_properties;

verus! {

broadcast use {vstd::utf8::encode_utf8_valid_utf8, vstd::utf8::encode_utf8_decode_utf8};

/// The variable header of a PUBACK packet: the identifier of the acknowledged PUBLISH, the
/// reason code and the optional properties.
pub struct PubackProperties {
    pub packet_id: u16,
    pub puback_reason_code: u8,
    pub reason_string: Option<String>,
    pub user_property: Option<(String, String)>,
}

/// The mathematical value of [`PubackProperties`].
pub struct PubackPropertiesView {
    pub packet_id: u16,
    pub puback_reason_code: u8,
    pub reason_string: Option<Seq<char>>,
    pub user_property: Option<(Seq<char>, Seq<char>)>,
}

impl View for PubackProperties {
    type V = PubackPropertiesView;

    open spec fn view(&self) -> PubackPropertiesView {
        PubackPropertiesView {
            packet_id: self.packet_id,
            puback_reason_code: self.puback_reason_code,
            reason_string: packet_property::opt_string_view(self.reason_string),
            user_property: packet_property::opt_pair_view(self.user_property),
        }
    }
}

/// The properties of the header, in the order they are written: each field fills the
/// slot of its identifier.
pub open spec fn puback_properties_slots(v: PubackPropertiesView) -> Seq<Slot> {
    seq![
        (REASON_STRING, property_model::opt_text(v.reason_string)),
        (USER_PROPERTY, property_model::opt_pair(v.user_property)),
    ]
}

/// The bytes of the header: the packet identifier, the reason code, then the properties block.
pub open spec fn puback_properties_bytes(v: PubackPropertiesView) -> Seq<u8> {
    let ps = property_model::slot_list(puback_properties_slots(v));
    data_types::be16(v.packet_id as int) + seq![v.puback_reason_code] + variable_header_properties::properties_block_bytes(property_model::properties_bytes(ps).len() as u16, ps)
}

/// The header that the fixed fields and the decoded properties give: each
/// optional field takes the last property with its identifier.
pub open spec fn puback_properties_from(packet_id: u16, puback_reason_code: u8, ps: Seq<PropertyModel>) -> Result<PubackPropertiesView, MqttError> {
    Ok(
        PubackPropertiesView {
            packet_id: packet_id,
            puback_reason_code: puback_reason_code,
            reason_string: property_model::as_text(property_model::last_with_id(ps, REASON_STRING)),
            user_property: property_model::as_pair(property_model::last_with_id(ps, USER_PROPERTY)),
        },
    )
}

/// Reading the header from a stream.
pub open spec fn puback_properties_read(s: Seq<u8>) -> (Result<PubackPropertiesView, MqttError>, Seq<u8>) {
    let (r0, s0) = data_types::read_u16_spec(s);
    match r0 {
        Err(e) => (Err(e), s0),
        Ok(packet_id) => {
            let (r1, s1) = data_types::read_byte_spec(s0);
            match r1 {
                Err(e) => (Err(e), s1),
                Ok(puback_reason_code) => {
                    let (b, sb) = variable_header_properties::properties_block_read(s1);
                    match b {
                        Err(e) => (Err(e), sb),
                        Ok((_, ps)) => (puback_properties_from(packet_id, puback_reason_code, ps), sb),
                    }
                },
            }
        },
    }
}

/// Reading the header from this stream does not hit a decoding panic.
pub open spec fn puback_properties_safe(s: Seq<u8>) -> bool {
    let (r0, s0) = data_types::read_u16_spec(s);
    r0 is Ok ==> {
        let (r1, s1) = data_types::read_byte_spec(s0);
        r1 is Ok ==> {
            variable_header_properties::properties_block_safe(s1)
        }
    }
}

/// The header can be written: its properties fit in one block.
pub open spec fn puback_properties_fit(v: PubackPropertiesView) -> bool {
    &&& property_model::slots_fit(puback_properties_slots(v))
}

pub open spec fn puback_properties_result(r: Result<PubackProperties, MqttError>) -> Result<PubackPropertiesView, MqttError> {
    match r {
        Ok(x) => Ok(x@),
        Err(e) => Err(e),
    }
}

impl Clone for PubackProperties {
    fn clone(&self) -> (res: Self)
        ensures
            res@ == self@,
    {
        PubackProperties {
            packet_id: self.packet_id,
            puback_reason_code: self.puback_reason_code,
            reason_string: clone_opt_string(&self.reason_string),
            user_property: clone_opt_pair(&self.user_property),
        }
    }
}

impl Default for PubackProperties {
    fn default() -> (res: Self)
        ensures
            res@.packet_id == 0,
            res@.puback_reason_code == 0,
            res@.reason_string is None,
            res@.user_property is None,
    {
        PubackProperties {
            packet_id: 0,
            puback_reason_code: 0,
            reason_string: None,
            user_property: None,
        }
    }
}

impl PubackProperties {
    /// The properties block of the header.
    pub fn as_variable_header_properties(&self) -> (res: Result<VariableHeaderProperties, MqttError>)
        requires
            property_model::slots_fit(puback_properties_slots(self@)),
        ensures
            res matches Ok(b) && b.wf() && b.models() == property_model::slot_list(puback_properties_slots(self@)),
    {
        let ghost slots = puback_properties_slots(self@);
        assert(property_model::slots_typed(PropertyTable::Current, slots));
        let mut variable_props = VariableHeaderProperties::for_slots(Ghost(slots));
        variable_props.put_text(REASON_STRING, &self.reason_string, Ghost(slots), Ghost(0));
        variable_props.put_pair(USER_PROPERTY, &self.user_property, Ghost(slots), Ghost(1));
        proof {
            variable_header_properties::lemma_holds_all_slots(&variable_props, slots);
        }
        Ok(variable_props)
    }

    /// The number of bytes of the header.
    pub fn size_of(&self) -> (res: u32)
        requires
            puback_properties_fit(self@),
        ensures
            res == puback_properties_bytes(self@).len(),
    {
        let variable_props = match self.as_variable_header_properties() {
            Ok(v) => v,
            Err(_) => {
                return 0;
            },
        };
        2 + 1 + variable_props.size_of()
    }

    /// The bytes of the header.
    pub fn as_bytes(&self) -> (res: Result<Vec<u8>, MqttError>)
        requires
            puback_properties_fit(self@),
        ensures
            res matches Ok(b) && b@ == puback_properties_bytes(self@),
    {
        let mut bytes: Vec<u8> = Vec::new();
        let variable_header_properties = self.as_variable_header_properties()?;
        push_u16(&mut bytes, self.packet_id);
        bytes.push(self.puback_reason_code);
        let block = variable_header_properties.as_bytes();
        append_bytes(&mut bytes, block.as_slice());
        assert(bytes@ =~= puback_properties_bytes(self@));
        Ok(bytes)
    }

    /// Reads the header from a stream.
    pub fn read_from(stream: &mut &[u8]) -> (res: Result<Self, MqttError>)
        requires
            puback_properties_safe(old(stream)@),
        ensures
            (puback_properties_result(res), final(stream)@) == puback_properties_read(old(stream)@),
    {
        let packet_id = read_two_byte_integer(stream)?;
        let puback_reason_code = read_byte(stream)?;
        let variable_header_properties = VariableHeaderProperties::read_from(stream)?;
        let ghost ps = variable_header_properties.models();
        let mut reason_string = None;
        let mut user_property = None;
        let mut i: usize = 0;
        while i < variable_header_properties.properties.len()
            invariant
                0 <= i <= ps.len(),
                ps == variable_header_properties.models(),
                packet_property::opt_string_view(reason_string) == property_model::as_text(property_model::last_with_id(ps.take(i as int), REASON_STRING)),
                packet_property::opt_pair_view(user_property) == property_model::as_pair(property_model::last_with_id(ps.take(i as int), USER_PROPERTY)),
            decreases ps.len() - i,
        {
            let property = &variable_header_properties.properties[i];
            proof {
                property_model::lemma_last_with_id_step(ps, i as int, REASON_STRING);
                property_model::lemma_last_with_id_step(ps, i as int, USER_PROPERTY);
            }
            let id = property.id();
            if id == REASON_STRING {
                reason_string = property.value_string();
            } else if id == USER_PROPERTY {
                user_property = property.value_string_pair();
            }
            i += 1;
        }
        proof {
            property_model::lemma_take_all(ps);
        }
        Ok(PubackProperties {
            packet_id,
            puback_reason_code,
            reason_string,
            user_property,
        })
    }
}

/// The slots of the header carry the kinds their identifiers take, no two share an
/// identifier, and decoding their properties gives the header back.
proof fn lemma_puback_properties_slots(v: PubackPropertiesView)
    ensures
        property_model::slots_typed(PropertyTable::Current, puback_properties_slots(v)),
        property_model::slots_distinct(puback_properties_slots(v)),
        puback_properties_from(v.packet_id, v.puback_reason_code, property_model::slot_list(puback_properties_slots(v))) == Ok::<PubackPropertiesView, MqttError>(v),
{
    let slots = puback_properties_slots(v);
    let ps = property_model::slot_list(slots);
    assert(property_model::slots_typed(PropertyTable::Current, slots));
    assert(property_model::slots_distinct(slots));
    property_model::lemma_slot_lookup(slots, 0);
    assert(property_model::as_text(property_model::last_with_id(ps, REASON_STRING)) == v.reason_string);
    property_model::lemma_slot_lookup(slots, 1);
    assert(property_model::as_pair(property_model::last_with_id(ps, USER_PROPERTY)) == v.user_property);
}

/// Reading back the bytes of a header that can be written gives the header back, and
/// leaves what follows.
#[verifier::spinoff_prover]
#[verifier::rlimit(30)]
pub proof fn lemma_puback_properties_roundtrip(v: PubackPropertiesView, rest: Seq<u8>)
    requires
        puback_properties_fit(v),
    ensures
        puback_properties_read(puback_properties_bytes(v) + rest) == (Ok::<PubackPropertiesView, MqttError>(v), rest),
        puback_properties_safe(puback_properties_bytes(v) + rest),
{
    let slots = puback_properties_slots(v);
    let ps = property_model::slot_list(slots);
    let block = variable_header_properties::properties_block_bytes(property_model::properties_bytes(ps).len() as u16, ps);
    lemma_puback_properties_slots(v);
    property_model::lemma_slots_encodable(PropertyTable::Current, slots);
    variable_header_properties::lemma_properties_block_roundtrip(property_model::properties_bytes(ps).len() as u16, ps, rest);
    data_types::lemma_read_u16_prefix(v.packet_id, seq![v.puback_reason_code] + (block + rest));
    data_types::lemma_read_byte_prefix(v.puback_reason_code, block + rest);
    assert(puback_properties_bytes(v) + rest =~= data_types::be16(v.packet_id as int) + (seq![v.puback_reason_code] + (block + rest)));
}

/// Each field of the PUBACK header is written as the property with its own MQTT 5
/// identifier: Reason String 0x1F and User Property 0x26.
pub proof fn lemma_puback_property_identifiers(v: PubackPropertiesView)
    ensures
        ({
            let ps = property_model::slot_list(puback_properties_slots(v));
            &&& property_model::as_text(property_model::last_with_id(ps, 0x1Fu8)) == v.reason_string
            &&& property_model::as_pair(property_model::last_with_id(ps, 0x26u8)) == v.user_property
        }),
{
    lemma_puback_properties_slots(v);
}

/// The PUBACK variable header starts with the packet identifier, high byte first, then the
/// reason code.
pub proof fn lemma_puback_header_layout(v: PubackPropertiesView)
    ensures
        puback_properties_bytes(v)[0] as int * 256 + puback_properties_bytes(v)[1] as int == v.packet_id as int,
        puback_properties_bytes(v)[2] == v.puback_reason_code,
{
}

} // verus!
