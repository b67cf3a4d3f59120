use vstd::prelude::*;
use vstd::utf8::*;

use crate::common::data_types::{read_byte, read_text, read_two_byte_integer, string_len, MqttError};
use crate::common::data_types;
use crate::control_packets::mqtt_packet::packet_property::{append_bytes, clone_opt_pair, clone_opt_string, opt_bytes_to_string, push_text, push_u16, AUTHENTICATION_DATA, AUTHENTICATION_METHOD, REASON_STRING, USER_PROPERTY};
use crate::control_packets::mqtt_packet::packet_property;
use crate::control_packets::mqtt_packet::property_model::{PropertyModel, PropertyTable, Slot};
use crate::control_packets::mqtt_packet::property_model;
use crate::control_packets::mqtt_packet::variable_header_properties::VariableHeaderProperties;
use crate::control_packets::mqtt_packet::variable_header_properties;

verus! {

broadcast use {vstd::utf8::encode_utf8_valid_utf8, vstd::utf8::encode_utf8_decode_utf8};

/// The variable header of an AUTH packet: the reason code and the optional properties.
pub struct AuthProperties {
    pub reason_code: u8,
    pub authentication_method: Option<String>,
    pub authentication_data: Option<String>,
    pub reason_string: Option<String>,
    pub user_property: Option<(String, String)>,
}

/// The mathematical value of [`AuthProperties`].
pub struct AuthPropertiesView {
    pub reason_code: u8,
    pub authentication_method: Option<Seq<char>>,
    pub authentication_data: Option<Seq<char>>,
    pub reason_string: Option<Seq<char>>,
    pub user_property: Option<(Seq<char>, Seq<char>)>,
}

impl View for AuthProperties {
    type V = AuthPropertiesView;

    open spec fn view(&self) -> AuthPropertiesView {
        AuthPropertiesView {
            reason_code: self.reason_code,
            authentication_method: packet_property::opt_string_view(self.authentication_method),
            authentication_data: packet_property::opt_string_view(self.authentication_data),
            reason_string: packet_property::opt_string_view(self.reason_string),
            user_property: packet_property::opt_pair_view(self.user_property),
        }
    }
}

/// The properties of the header, in the order they are written: each field fills the
/// slot of its identifier.
pub open spec fn auth_properties_slots(v: AuthPropertiesView) -> Seq<Slot> {
    seq![
        (AUTHENTICATION_METHOD, property_model::opt_text(v.authentication_method)),
        (AUTHENTICATION_DATA, property_model::opt_text_binary(v.authentication_data)),
        (REASON_STRING, property_model::opt_text(v.reason_string)),
        (USER_PROPERTY, property_model::opt_pair(v.user_property)),
    ]
}

/// The bytes of the header: the reason code, then the properties block.
pub open spec fn auth_properties_bytes(v: AuthPropertiesView) -> Seq<u8> {
    let ps = property_model::slot_list(auth_properties_slots(v));
    seq![v.reason_code] + variable_header_properties::properties_block_bytes(property_model::properties_bytes(ps).len() as u16, ps)
}

/// The header that the fixed fields and the decoded properties give: each
/// optional field takes the last property with its identifier.
pub open spec fn auth_properties_from(reason_code: u8, ps: Seq<PropertyModel>) -> Result<AuthPropertiesView, MqttError> {
    match property_model::opt_utf8(property_model::as_binary(property_model::last_with_id(ps, AUTHENTICATION_DATA))) {
        Err(e) => Err(e),
        Ok(data) => Ok(
            AuthPropertiesView {
                reason_code: reason_code,
                authentication_method: property_model::as_text(property_model::last_with_id(ps, AUTHENTICATION_METHOD)),
                authentication_data: data,
                reason_string: property_model::as_text(property_model::last_with_id(ps, REASON_STRING)),
                user_property: property_model::as_pair(property_model::last_with_id(ps, USER_PROPERTY)),
            },
        ),
    }
}

/// Reading the header from a stream.
pub open spec fn auth_properties_read(s: Seq<u8>) -> (Result<AuthPropertiesView, MqttError>, Seq<u8>) {
    let (r0, s0) = data_types::read_byte_spec(s);
    match r0 {
        Err(e) => (Err(e), s0),
        Ok(reason_code) => {
            let (b, sb) = variable_header_properties::properties_block_read(s0);
            match b {
                Err(e) => (Err(e), sb),
                Ok((_, ps)) => (auth_properties_from(reason_code, ps), sb),
            }
        },
    }
}

/// Reading the header from this stream does not hit a decoding panic.
pub open spec fn auth_properties_safe(s: Seq<u8>) -> bool {
    let (r0, s0) = data_types::read_byte_spec(s);
    r0 is Ok ==> {
        variable_header_properties::properties_block_safe(s0)
    }
}

/// The header can be written: its properties fit in one block.
pub open spec fn auth_properties_fit(v: AuthPropertiesView) -> bool {
    &&& property_model::slots_fit(auth_properties_slots(v))
}

pub open spec fn auth_properties_result(r: Result<AuthProperties, MqttError>) -> Result<AuthPropertiesView, MqttError> {
    match r {
        Ok(x) => Ok(x@),
        Err(e) => Err(e),
    }
}

impl Clone for AuthProperties {
    fn clone(&self) -> (res: Self)
        ensures
            res@ == self@,
    {
        AuthProperties {
            reason_code: self.reason_code,
            authentication_method: clone_opt_string(&self.authentication_method),
            authentication_data: clone_opt_string(&self.authentication_data),
            reason_string: clone_opt_string(&self.reason_string),
            user_property: clone_opt_pair(&self.user_property),
        }
    }
}

impl Default for AuthProperties {
    fn default() -> (res: Self)
        ensures
            res@.reason_code == 0,
            res@.authentication_method is None,
            res@.authentication_data is None,
            res@.reason_string is None,
            res@.user_property is None,
    {
        AuthProperties {
            reason_code: 0,
            authentication_method: None,
            authentication_data: None,
            reason_string: None,
            user_property: None,
        }
    }
}

impl AuthProperties {
    /// The properties block of the header.
    pub fn as_variable_header_properties(&self) -> (res: Result<VariableHeaderProperties, MqttError>)
        requires
            property_model::slots_fit(auth_properties_slots(self@)),
        ensures
            res matches Ok(b) && b.wf() && b.models() == property_model::slot_list(auth_properties_slots(self@)),
    {
        let ghost slots = auth_properties_slots(self@);
        assert(property_model::slots_typed(PropertyTable::Current, slots));
        let mut variable_props = VariableHeaderProperties::for_slots(Ghost(slots));
        variable_props.put_text(AUTHENTICATION_METHOD, &self.authentication_method, Ghost(slots), Ghost(0));
        variable_props.put_text_as_binary(AUTHENTICATION_DATA, &self.authentication_data, Ghost(slots), Ghost(1));
        variable_props.put_text(REASON_STRING, &self.reason_string, Ghost(slots), Ghost(2));
        variable_props.put_pair(USER_PROPERTY, &self.user_property, Ghost(slots), Ghost(3));
        proof {
            variable_header_properties::lemma_holds_all_slots(&variable_props, slots);
        }
        Ok(variable_props)
    }

    /// The number of bytes of the header.
    pub fn size_of(&self) -> (res: u32)
        requires
            auth_properties_fit(self@),
        ensures
            res == auth_properties_bytes(self@).len(),
    {
        let variable_props = match self.as_variable_header_properties() {
            Ok(v) => v,
            Err(_) => {
                return 0;
            },
        };
        1 + variable_props.size_of()
    }

    /// The bytes of the header.
    pub fn as_bytes(&self) -> (res: Result<Vec<u8>, MqttError>)
        requires
            auth_properties_fit(self@),
        ensures
            res matches Ok(b) && b@ == auth_properties_bytes(self@),
    {
        let mut bytes: Vec<u8> = Vec::new();
        let variable_header_properties = self.as_variable_header_properties()?;
        bytes.push(self.reason_code);
        let block = variable_header_properties.as_bytes();
        append_bytes(&mut bytes, block.as_slice());
        assert(bytes@ =~= auth_properties_bytes(self@));
        Ok(bytes)
    }

    /// Reads the header from a stream.
    pub fn read_from(stream: &mut &[u8]) -> (res: Result<Self, MqttError>)
        requires
            auth_properties_safe(old(stream)@),
        ensures
            (auth_properties_result(res), final(stream)@) == auth_properties_read(old(stream)@),
    {
        let reason_code = read_byte(stream)?;
        let variable_header_properties = VariableHeaderProperties::read_from(stream)?;
        let ghost ps = variable_header_properties.models();
        let mut authentication_method = None;
        let mut authentication_data = None;
        let mut reason_string = None;
        let mut user_property = None;
        let mut i: usize = 0;
        while i < variable_header_properties.properties.len()
            invariant
                0 <= i <= ps.len(),
                ps == variable_header_properties.models(),
                packet_property::opt_string_view(authentication_method) == property_model::as_text(property_model::last_with_id(ps.take(i as int), AUTHENTICATION_METHOD)),
                packet_property::opt_bytes_view(authentication_data) == property_model::as_binary(property_model::last_with_id(ps.take(i as int), AUTHENTICATION_DATA)),
                packet_property::opt_string_view(reason_string) == property_model::as_text(property_model::last_with_id(ps.take(i as int), REASON_STRING)),
                packet_property::opt_pair_view(user_property) == property_model::as_pair(property_model::last_with_id(ps.take(i as int), USER_PROPERTY)),
            decreases ps.len() - i,
        {
            let property = &variable_header_properties.properties[i];
            proof {
                property_model::lemma_last_with_id_step(ps, i as int, AUTHENTICATION_METHOD);
                property_model::lemma_last_with_id_step(ps, i as int, AUTHENTICATION_DATA);
                property_model::lemma_last_with_id_step(ps, i as int, REASON_STRING);
                property_model::lemma_last_with_id_step(ps, i as int, USER_PROPERTY);
            }
            let id = property.id();
            if id == AUTHENTICATION_METHOD {
                authentication_method = property.value_string();
            } else if id == AUTHENTICATION_DATA {
                authentication_data = property.value_binary_data();
            } else if id == REASON_STRING {
                reason_string = property.value_string();
            } else if id == USER_PROPERTY {
                user_property = property.value_string_pair();
            }
            i += 1;
        }
        proof {
            property_model::lemma_take_all(ps);
        }
        let authentication_data = opt_bytes_to_string(authentication_data)?;
        Ok(AuthProperties {
            reason_code,
            authentication_method,
            authentication_data,
            reason_string,
            user_property,
        })
    }
}

/// The slots of the header carry the kinds their identifiers take, no two share an
/// identifier, and decoding their properties gives the header back.
proof fn lemma_auth_properties_slots(v: AuthPropertiesView)
    ensures
        property_model::slots_typed(PropertyTable::Current, auth_properties_slots(v)),
        property_model::slots_distinct(auth_properties_slots(v)),
        auth_properties_from(v.reason_code, property_model::slot_list(auth_properties_slots(v))) == Ok::<AuthPropertiesView, MqttError>(v),
{
    let slots = auth_properties_slots(v);
    let ps = property_model::slot_list(slots);
    assert(property_model::slots_typed(PropertyTable::Current, slots));
    assert(property_model::slots_distinct(slots));
    property_model::lemma_slot_lookup(slots, 0);
    assert(property_model::as_text(property_model::last_with_id(ps, AUTHENTICATION_METHOD)) == v.authentication_method);
    property_model::lemma_slot_lookup(slots, 1);
    match v.authentication_data {
        Some(d) => {
            assert(data_types::utf8_spec(encode_utf8(d)) == Ok::<Seq<char>, MqttError>(d));
        },
        None => {},
    }
    assert(property_model::opt_utf8(property_model::as_binary(property_model::last_with_id(ps, AUTHENTICATION_DATA))) == Ok::<Option<Seq<char>>, MqttError>(v.authentication_data));
    property_model::lemma_slot_lookup(slots, 2);
    assert(property_model::as_text(property_model::last_with_id(ps, REASON_STRING)) == v.reason_string);
    property_model::lemma_slot_lookup(slots, 3);
    assert(property_model::as_pair(property_model::last_with_id(ps, USER_PROPERTY)) == v.user_property);
}

/// Reading back the bytes of a header that can be written gives the header back, and
/// leaves what follows.
#[verifier::spinoff_prover]
#[verifier::rlimit(30)]
pub proof fn lemma_auth_properties_roundtrip(v: AuthPropertiesView, rest: Seq<u8>)
    requires
        auth_properties_fit(v),
    ensures
        auth_properties_read(auth_properties_bytes(v) + rest) == (Ok::<AuthPropertiesView, MqttError>(v), rest),
        auth_properties_safe(auth_properties_bytes(v) + rest),
{
    let slots = auth_properties_slots(v);
    let ps = property_model::slot_list(slots);
    let block = variable_header_properties::properties_block_bytes(property_model::properties_bytes(ps).len() as u16, ps);
    lemma_auth_properties_slots(v);
    property_model::lemma_slots_encodable(PropertyTable::Current, slots);
    variable_header_properties::lemma_properties_block_roundtrip(property_model::properties_bytes(ps).len() as u16, ps, rest);
    data_types::lemma_read_byte_prefix(v.reason_code, block + rest);
    assert(auth_properties_bytes(v) + rest =~= seq![v.reason_code] + (block + rest));
}

/// Each field of the AUTH header is written as the property with its own MQTT 5
/// identifier: Authentication Method 0x15, Authentication Data 0x16, Reason String 0x1F
/// and User Property 0x26.
pub proof fn lemma_auth_property_identifiers(v: AuthPropertiesView)
    ensures
        ({
            let ps = property_model::slot_list(auth_properties_slots(v));
            &&& property_model::as_text(property_model::last_with_id(ps, 0x15u8)) == v.authentication_method
            &&& property_model::opt_utf8(property_model::as_binary(property_model::last_with_id(ps, 0x16u8))) == Ok::<Option<Seq<char>>, MqttError>(v.authentication_data)
            &&& property_model::as_text(property_model::last_with_id(ps, 0x1Fu8)) == v.reason_string
            &&& property_model::as_pair(property_model::last_with_id(ps, 0x26u8)) == v.user_property
        }),
{
    lemma_auth_properties_slots(v);
}

/// The AUTH variable header starts with the reason code.
pub proof fn lemma_auth_header_layout(v: AuthPropertiesView)
    ensures
        auth_properties_bytes(v)[0] == v.reason_code,
{
}

} // verus!
