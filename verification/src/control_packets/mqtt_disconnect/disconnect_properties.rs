use vstd::prelude::*;
use vstd::utf8::*;

use crate::common::data_types::{read_byte, read_text, read_two_byte_integer, string_len, MqttError};
use crate::common::data_types;
use crate::control_packets::mqtt_packet::packet_property::{append_bytes, clone_opt_pair, clone_opt_string, opt_bytes_to_string, push_text, push_u16, REASON_STRING, SERVER_REFERENCE, SESSION_EXPIRY_INTERVAL, USER_PROPERTY};
use crate::control_packets::mqtt_packet::packet_property;
use crate::control_packets::mqtt_packet::property_model::{PropertyModel, PropertyTable, Slot};
use crate::control_packets::mqtt_packet::property_model;
use crate::control_packets::mqtt_packet::variable_header_properties::VariableHeaderProperties;
use crate::control_packets::mqtt_packet::variable_header_properties;

verus! {

broadcast use {vstd::utf8::encode_utf8_valid_utf8, vstd::utf8::encode_utf8_decode_utf8};

/// The variable header of a DISCONNECT packet: the reason code and the optional properties.
pub struct DisconnectProperties {
    pub disconnect_reason_code: u8,
    pub session_expiry_interval: Option<u32>,
    pub reason_string: Option<String>,
    pub user_property: Option<(String, String)>,
    pub server_reference: Option<String>,
}

/// The mathematical value of [`DisconnectProperties`].
pub struct DisconnectPropertiesView {
    pub disconnect_reason_code: u8,
    pub session_expiry_interval: Option<u32>,
    pub reason_string: Option<Seq<char>>,
    pub user_property: Option<(Seq<char>, Seq<char>)>,
    pub server_reference: Option<Seq<char>>,
}

impl View for DisconnectProperties {
    type V = DisconnectPropertiesView;

    open spec fn view(&self) -> DisconnectPropertiesView {
        DisconnectPropertiesView {
            disconnect_reason_code: self.disconnect_reason_code,
            session_expiry_interval: self.session_expiry_interval,
            reason_string: packet_property::opt_string_view(self.reason_string),
            user_property: packet_property::opt_pair_view(self.user_property),
            server_reference: packet_property::opt_string_view(self.server_reference),
        }
    }
}

/// The properties of the header, in the order they are written: each field fills the
/// slot of its identifier.
pub open spec fn disconnect_properties_slots(v: DisconnectPropertiesView) -> Seq<Slot> {
    seq![
        (SESSION_EXPIRY_INTERVAL, property_model::opt_u32(v.session_expiry_interval)),
        (REASON_STRING, property_model::opt_text(v.reason_string)),
        (USER_PROPERTY, property_model::opt_pair(v.user_property)),
        (SERVER_REFERENCE, property_model::opt_text(v.server_reference)),
    ]
}

/// The bytes of the header: the reason code, then the properties block.
pub open spec fn disconnect_properties_bytes(v: DisconnectPropertiesView) -> Seq<u8> {
    let ps = property_model::slot_list(disconnect_properties_slots(v));
    seq![v.disconnect_reason_code] + variable_header_properties::properties_block_bytes(property_model::properties_bytes(ps).len() as u16, ps)
}

/// The header that the fixed fields and the decoded properties give: each
/// optional field takes the last property with its identifier.
pub open spec fn disconnect_properties_from(disconnect_reason_code: u8, ps: Seq<PropertyModel>) -> Result<DisconnectPropertiesView, MqttError> {
    Ok(
        DisconnectPropertiesView {
            disconnect_reason_code: disconnect_reason_code,
            session_expiry_interval: property_model::as_u32(property_model::last_with_id(ps, SESSION_EXPIRY_INTERVAL)),
            reason_string: property_model::as_text(property_model::last_with_id(ps, REASON_STRING)),
            user_property: property_model::as_pair(property_model::last_with_id(ps, USER_PROPERTY)),
            server_reference: property_model::as_text(property_model::last_with_id(ps, SERVER_REFERENCE)),
        },
    )
}

/// Reading the header from a stream.
pub open spec fn disconnect_properties_read(s: Seq<u8>) -> (Result<DisconnectPropertiesView, MqttError>, Seq<u8>) {
    let (r0, s0) = data_types::read_byte_spec(s);
    match r0 {
        Err(e) => (Err(e), s0),
        Ok(disconnect_reason_code) => {
            let (b, sb) = variable_header_properties::properties_block_read(s0);
            match b {
                Err(e) => (Err(e), sb),
                Ok((_, ps)) => (disconnect_properties_from(disconnect_reason_code, ps), sb),
            }
        },
    }
}

/// Reading the header from this stream does not hit a decoding panic.
pub open spec fn disconnect_properties_safe(s: Seq<u8>) -> bool {
    let (r0, s0) = data_types::read_byte_spec(s);
    r0 is Ok ==> {
        variable_header_properties::properties_block_safe(s0)
    }
}

/// The header can be written: its properties fit in one block.
pub open spec fn disconnect_properties_fit(v: DisconnectPropertiesView) -> bool {
    &&& property_model::slots_fit(disconnect_properties_slots(v))
}

pub open spec fn disconnect_properties_result(r: Result<DisconnectProperties, MqttError>) -> Result<DisconnectPropertiesView, MqttError> {
    match r {
        Ok(x) => Ok(x@),
        Err(e) => Err(e),
    }
}

impl Clone for DisconnectProperties {
    fn clone(&self) -> (res: Self)
        ensures
            res@ == self@,
    {
        DisconnectProperties {
            disconnect_reason_code: self.disconnect_reason_code,
            session_expiry_interval: self.session_expiry_interval,
            reason_string: clone_opt_string(&self.reason_string),
            user_property: clone_opt_pair(&self.user_property),
            server_reference: clone_opt_string(&self.server_reference),
        }
    }
}

impl DisconnectProperties {
    /// The properties block of the header.
    pub fn as_variable_header_properties(&self) -> (res: Result<VariableHeaderProperties, MqttError>)
        requires
            property_model::slots_fit(disconnect_properties_slots(self@)),
        ensures
            res matches Ok(b) && b.wf() && b.models() == property_model::slot_list(disconnect_properties_slots(self@)),
    {
        let ghost slots = disconnect_properties_slots(self@);
        assert(property_model::slots_typed(PropertyTable::Current, slots));
        let mut variable_props = VariableHeaderProperties::for_slots(Ghost(slots));
        variable_props.put_u32(SESSION_EXPIRY_INTERVAL, self.session_expiry_interval, Ghost(slots), Ghost(0));
        variable_props.put_text(REASON_STRING, &self.reason_string, Ghost(slots), Ghost(1));
        variable_props.put_pair(USER_PROPERTY, &self.user_property, Ghost(slots), Ghost(2));
        variable_props.put_text(SERVER_REFERENCE, &self.server_reference, Ghost(slots), Ghost(3));
        proof {
            variable_header_properties::lemma_holds_all_slots(&variable_props, slots);
        }
        Ok(variable_props)
    }

    /// The number of bytes of the header.
    pub fn size_of(&self) -> (res: u32)
        requires
            disconnect_properties_fit(self@),
        ensures
            res == disconnect_properties_bytes(self@).len(),
    {
        let variable_props = match self.as_variable_header_properties() {
            Ok(v) => v,
            Err(_) => {
                return 0;
            },
        };
        1 + variable_props.size_of()
    }

    /// The bytes of the header.
    pub fn as_bytes(&self) -> (res: Result<Vec<u8>, MqttError>)
        requires
            disconnect_properties_fit(self@),
        ensures
            res matches Ok(b) && b@ == disconnect_properties_bytes(self@),
    {
        let mut bytes: Vec<u8> = Vec::new();
        let variable_header_properties = self.as_variable_header_properties()?;
        bytes.push(self.disconnect_reason_code);
        let block = variable_header_properties.as_bytes();
        append_bytes(&mut bytes, block.as_slice());
        assert(bytes@ =~= disconnect_properties_bytes(self@));
        Ok(bytes)
    }

    /// Reads the header from a stream.
    pub fn read_from(stream: &mut &[u8]) -> (res: Result<Self, MqttError>)
        requires
            disconnect_properties_safe(old(stream)@),
        ensures
            (disconnect_properties_result(res), final(stream)@) == disconnect_properties_read(old(stream)@),
    {
        let disconnect_reason_code = read_byte(stream)?;
        let variable_header_properties = VariableHeaderProperties::read_from(stream)?;
        let ghost ps = variable_header_properties.models();
        let mut session_expiry_interval = None;
        let mut reason_string = None;
        let mut user_property = None;
        let mut server_reference = None;
        let mut i: usize = 0;
        while i < variable_header_properties.properties.len()
            invariant
                0 <= i <= ps.len(),
                ps == variable_header_properties.models(),
                session_expiry_interval == property_model::as_u32(property_model::last_with_id(ps.take(i as int), SESSION_EXPIRY_INTERVAL)),
                packet_property::opt_string_view(reason_string) == property_model::as_text(property_model::last_with_id(ps.take(i as int), REASON_STRING)),
                packet_property::opt_pair_view(user_property) == property_model::as_pair(property_model::last_with_id(ps.take(i as int), USER_PROPERTY)),
                packet_property::opt_string_view(server_reference) == property_model::as_text(property_model::last_with_id(ps.take(i as int), SERVER_REFERENCE)),
            decreases ps.len() - i,
        {
            let property = &variable_header_properties.properties[i];
            proof {
                property_model::lemma_last_with_id_step(ps, i as int, SESSION_EXPIRY_INTERVAL);
                property_model::lemma_last_with_id_step(ps, i as int, REASON_STRING);
                property_model::lemma_last_with_id_step(ps, i as int, USER_PROPERTY);
                property_model::lemma_last_with_id_step(ps, i as int, SERVER_REFERENCE);
            }
            let id = property.id();
            if id == SESSION_EXPIRY_INTERVAL {
                session_expiry_interval = property.value_u32();
            } else if id == REASON_STRING {
                reason_string = property.value_string();
            } else if id == USER_PROPERTY {
                user_property = property.value_string_pair();
            } else if id == SERVER_REFERENCE {
                server_reference = property.value_string();
            }
            i += 1;
        }
        proof {
            property_model::lemma_take_all(ps);
        }
        Ok(DisconnectProperties {
            disconnect_reason_code,
            session_expiry_interval,
            reason_string,
            user_property,
            server_reference,
        })
    }
}

/// The slots of the header carry the kinds their identifiers take, no two share an
/// identifier, and decoding their properties gives the header back.
proof fn lemma_disconnect_properties_slots(v: DisconnectPropertiesView)
    ensures
        property_model::slots_typed(PropertyTable::Current, disconnect_properties_slots(v)),
        property_model::slots_distinct(disconnect_properties_slots(v)),
        disconnect_properties_from(v.disconnect_reason_code, property_model::slot_list(disconnect_properties_slots(v))) == Ok::<DisconnectPropertiesView, MqttError>(v),
{
    let slots = disconnect_properties_slots(v);
    let ps = property_model::slot_list(slots);
    assert(property_model::slots_typed(PropertyTable::Current, slots));
    assert(property_model::slots_distinct(slots));
    property_model::lemma_slot_lookup(slots, 0);
    assert(property_model::as_u32(property_model::last_with_id(ps, SESSION_EXPIRY_INTERVAL)) == v.session_expiry_interval);
    property_model::lemma_slot_lookup(slots, 1);
    assert(property_model::as_text(property_model::last_with_id(ps, REASON_STRING)) == v.reason_string);
    property_model::lemma_slot_lookup(slots, 2);
    assert(property_model::as_pair(property_model::last_with_id(ps, USER_PROPERTY)) == v.user_property);
    property_model::lemma_slot_lookup(slots, 3);
    assert(property_model::as_text(property_model::last_with_id(ps, SERVER_REFERENCE)) == v.server_reference);
}

/// Reading back the bytes of a header that can be written gives the header back, and
/// leaves what follows.
#[verifier::spinoff_prover]
#[verifier::rlimit(30)]
pub proof fn lemma_disconnect_properties_roundtrip(v: DisconnectPropertiesView, rest: Seq<u8>)
    requires
        disconnect_properties_fit(v),
    ensures
        disconnect_properties_read(disconnect_properties_bytes(v) + rest) == (Ok::<DisconnectPropertiesView, MqttError>(v), rest),
        disconnect_properties_safe(disconnect_properties_bytes(v) + rest),
{
    let slots = disconnect_properties_slots(v);
    let ps = property_model::slot_list(slots);
    let block = variable_header_properties::properties_block_bytes(property_model::properties_bytes(ps).len() as u16, ps);
    lemma_disconnect_properties_slots(v);
    property_model::lemma_slots_encodable(PropertyTable::Current, slots);
    variable_header_properties::lemma_properties_block_roundtrip(property_model::properties_bytes(ps).len() as u16, ps, rest);
    data_types::lemma_read_byte_prefix(v.disconnect_reason_code, block + rest);
    assert(disconnect_properties_bytes(v) + rest =~= seq![v.disconnect_reason_code] + (block + rest));
}

/// Each field of the DISCONNECT header is written as the property with its own MQTT 5
/// identifier: Session Expiry Interval 0x11, Reason String 0x1F, User Property 0x26 and
/// Server Reference 0x1C.
pub proof fn lemma_disconnect_property_identifiers(v: DisconnectPropertiesView)
    ensures
        ({
            let ps = property_model::slot_list(disconnect_properties_slots(v));
            &&& property_model::as_u32(property_model::last_with_id(ps, 0x11u8)) == v.session_expiry_interval
            &&& property_model::as_text(property_model::last_with_id(ps, 0x1Fu8)) == v.reason_string
            &&& property_model::as_pair(property_model::last_with_id(ps, 0x26u8)) == v.user_property
            &&& property_model::as_text(property_model::last_with_id(ps, 0x1Cu8)) == v.server_reference
        }),
{
    lemma_disconnect_properties_slots(v);
}

/// The DISCONNECT variable header starts with the reason code.
pub proof fn lemma_disconnect_header_layout(v: DisconnectPropertiesView)
    ensures
        disconnect_properties_bytes(v)[0] == v.disconnect_reason_code,
{
}

} // verus!
