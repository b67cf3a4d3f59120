use vstd::prelude::*;
use vstd::utf8::*;

use crate::common::data_types::{read_byte, read_text, read_two_byte_integer, string_len, MqttError};
use crate::common::data_types;
use crate::control_packets::mqtt_packet::packet_property::{append_bytes, clone_opt_pair, clone_opt_string, opt_bytes_to_string, push_text, push_u16, ASSIGNED_CLIENT_IDENTIFIER, AUTHENTICATION_DATA, AUTHENTICATION_METHOD, MAXIMUM_PACKET_SIZE, MAXIMUM_QOS, REASON_STRING, RECEIVE_MAXIMUM, RESPONSE_INFORMATION, RETAIN_AVAILABLE, SERVER_KEEP_ALIVE, SERVER_REFERENCE, SESSION_EXPIRY_INTERVAL, SHARED_SUBSCRIPTION_AVAILABLE, SUBSCRIPTION_IDENTIFIERS_AVAILABLE, TOPIC_ALIAS_MAXIMUM, USER_PROPERTY, WILDCARD_SUBSCRIPTION_AVAILABLE};
use crate::control_packets::mqtt_packet::packet_property;
use crate::control_packets::mqtt_packet::property_model::{PropertyModel, PropertyTable, Slot};
use crate::control_packets::mqtt_packet::property_model;
use crate::control_packets::mqtt_packet::variable_header_properties::VariableHeaderProperties;
use crate::control_packets::mqtt_packet::variable_header_properties;

verus! {

broadcast use {vstd::utf8::encode_utf8_valid_utf8, vstd::utf8::encode_utf8_decode_utf8};

/// The variable header of a CONNACK packet: the acknowledge flags, the reason code and the
/// optional properties.
pub struct ConnackProperties {
    pub connect_acknowledge_flags: u8,
    pub connect_reason_code: u8,
    pub session_expiry_interval: Option<u32>,
    pub assigned_client_identifier: Option<String>,
    pub server_keep_alive: Option<u16>,
    pub authentication_method: Option<String>,
    pub authentication_data: Option<String>,
    pub response_information: Option<String>,
    pub server_reference: Option<String>,
    pub reason_string: Option<String>,
    pub receive_maximum: Option<u16>,
    pub topic_alias_maximum: Option<u16>,
    pub maximum_qos: Option<u8>,
    pub retain_available: Option<u8>,
    pub wildcard_subscription_available: Option<u8>,
    pub subscription_identifiers_available: Option<u8>,
    pub shared_subscription_available: Option<u8>,
    pub user_property: Option<(String, String)>,
    pub maximum_packet_size: Option<u32>,
}

/// The mathematical value of [`ConnackProperties`].
pub struct ConnackPropertiesView {
    pub connect_acknowledge_flags: u8,
    pub connect_reason_code: u8,
    pub session_expiry_interval: Option<u32>,
    pub assigned_client_identifier: Option<Seq<char>>,
    pub server_keep_alive: Option<u16>,
    pub authentication_method: Option<Seq<char>>,
    pub authentication_data: Option<Seq<char>>,
    pub response_information: Option<Seq<char>>,
    pub server_reference: Option<Seq<char>>,
    pub reason_string: Option<Seq<char>>,
    pub receive_maximum: Option<u16>,
    pub topic_alias_maximum: Option<u16>,
    pub maximum_qos: Option<u8>,
    pub retain_available: Option<u8>,
    pub wildcard_subscription_available: Option<u8>,
    pub subscription_identifiers_available: Option<u8>,
    pub shared_subscription_available: Option<u8>,
    pub user_property: Option<(Seq<char>, Seq<char>)>,
    pub maximum_packet_size: Option<u32>,
}

impl View for ConnackProperties {
    type V = ConnackPropertiesView;

    open spec fn view(&self) -> ConnackPropertiesView {
        ConnackPropertiesView {
            connect_acknowledge_flags: self.connect_acknowledge_flags,
            connect_reason_code: self.connect_reason_code,
            session_expiry_interval: self.session_expiry_interval,
            assigned_client_identifier: packet_property::opt_string_view(self.assigned_client_identifier),
            server_keep_alive: self.server_keep_alive,
            authentication_method: packet_property::opt_string_view(self.authentication_method),
            authentication_data: packet_property::opt_string_view(self.authentication_data),
            response_information: packet_property::opt_string_view(self.response_information),
            server_reference: packet_property::opt_string_view(self.server_reference),
            reason_string: packet_property::opt_string_view(self.reason_string),
            receive_maximum: self.receive_maximum,
            topic_alias_maximum: self.topic_alias_maximum,
            maximum_qos: self.maximum_qos,
            retain_available: self.retain_available,
            wildcard_subscription_available: self.wildcard_subscription_available,
            subscription_identifiers_available: self.subscription_identifiers_available,
            shared_subscription_available: self.shared_subscription_available,
            user_property: packet_property::opt_pair_view(self.user_property),
            maximum_packet_size: self.maximum_packet_size,
        }
    }
}

/// The properties of the header, in the order they are written: each field fills the
/// slot of its identifier.
pub open spec fn connack_properties_slots(v: ConnackPropertiesView) -> Seq<Slot> {
    seq![
        (SESSION_EXPIRY_INTERVAL, property_model::opt_u32(v.session_expiry_interval)),
        (ASSIGNED_CLIENT_IDENTIFIER, property_model::opt_text(v.assigned_client_identifier)),
        (SERVER_KEEP_ALIVE, property_model::opt_u16(v.server_keep_alive)),
        (AUTHENTICATION_METHOD, property_model::opt_text(v.authentication_method)),
        (AUTHENTICATION_DATA, property_model::opt_text_binary(v.authentication_data)),
        (RESPONSE_INFORMATION, property_model::opt_text(v.response_information)),
        (SERVER_REFERENCE, property_model::opt_text(v.server_reference)),
        (REASON_STRING, property_model::opt_text(v.reason_string)),
        (RECEIVE_MAXIMUM, property_model::opt_u16(v.receive_maximum)),
        (TOPIC_ALIAS_MAXIMUM, property_model::opt_u16(v.topic_alias_maximum)),
        (MAXIMUM_QOS, property_model::opt_u8(v.maximum_qos)),
        (RETAIN_AVAILABLE, property_model::opt_u8(v.retain_available)),
        (WILDCARD_SUBSCRIPTION_AVAILABLE, property_model::opt_u8(v.wildcard_subscription_available)),
        (SUBSCRIPTION_IDENTIFIERS_AVAILABLE, property_model::opt_u8(v.subscription_identifiers_available)),
        (SHARED_SUBSCRIPTION_AVAILABLE, property_model::opt_u8(v.shared_subscription_available)),
        (USER_PROPERTY, property_model::opt_pair(v.user_property)),
        (MAXIMUM_PACKET_SIZE, property_model::opt_u32(v.maximum_packet_size)),
    ]
}

/// The bytes of the header: the acknowledge flags, the reason code, then the properties block.
pub open spec fn connack_properties_bytes(v: ConnackPropertiesView) -> Seq<u8> {
    let ps = property_model::slot_list(connack_properties_slots(v));
    seq![v.connect_acknowledge_flags] + seq![v.connect_reason_code] + variable_header_properties::properties_block_bytes(property_model::properties_bytes(ps).len() as u16, ps)
}

/// The header that the fixed fields and the decoded properties give: each
/// optional field takes the last property with its identifier.
pub open spec fn connack_properties_from(connect_acknowledge_flags: u8, connect_reason_code: u8, ps: Seq<PropertyModel>) -> Result<ConnackPropertiesView, MqttError> {
    match property_model::opt_utf8(property_model::as_binary(property_model::last_with_id(ps, AUTHENTICATION_DATA))) {
        Err(e) => Err(e),
        Ok(data) => Ok(
            ConnackPropertiesView {
                connect_acknowledge_flags: connect_acknowledge_flags,
                connect_reason_code: connect_reason_code,
                session_expiry_interval: property_model::as_u32(property_model::last_with_id(ps, SESSION_EXPIRY_INTERVAL)),
                assigned_client_identifier: property_model::as_text(property_model::last_with_id(ps, ASSIGNED_CLIENT_IDENTIFIER)),
                server_keep_alive: property_model::as_u16(property_model::last_with_id(ps, SERVER_KEEP_ALIVE)),
                authentication_method: property_model::as_text(property_model::last_with_id(ps, AUTHENTICATION_METHOD)),
                authentication_data: data,
                response_information: property_model::as_text(property_model::last_with_id(ps, RESPONSE_INFORMATION)),
                server_reference: property_model::as_text(property_model::last_with_id(ps, SERVER_REFERENCE)),
                reason_string: property_model::as_text(property_model::last_with_id(ps, REASON_STRING)),
                receive_maximum: property_model::as_u16(property_model::last_with_id(ps, RECEIVE_MAXIMUM)),
                topic_alias_maximum: property_model::as_u16(property_model::last_with_id(ps, TOPIC_ALIAS_MAXIMUM)),
                maximum_qos: property_model::as_u8(property_model::last_with_id(ps, MAXIMUM_QOS)),
                retain_available: property_model::as_u8(property_model::last_with_id(ps, RETAIN_AVAILABLE)),
                wildcard_subscription_available: property_model::as_u8(property_model::last_with_id(ps, WILDCARD_SUBSCRIPTION_AVAILABLE)),
                subscription_identifiers_available: property_model::as_u8(property_model::last_with_id(ps, SUBSCRIPTION_IDENTIFIERS_AVAILABLE)),
                shared_subscription_available: property_model::as_u8(property_model::last_with_id(ps, SHARED_SUBSCRIPTION_AVAILABLE)),
                user_property: property_model::as_pair(property_model::last_with_id(ps, USER_PROPERTY)),
                maximum_packet_size: property_model::as_u32(property_model::last_with_id(ps, MAXIMUM_PACKET_SIZE)),
            },
        ),
    }
}

/// Reading the header from a stream.
pub open spec fn connack_properties_read(s: Seq<u8>) -> (Result<ConnackPropertiesView, MqttError>, Seq<u8>) {
    let (r0, s0) = data_types::read_byte_spec(s);
    match r0 {
        Err(e) => (Err(e), s0),
        Ok(connect_acknowledge_flags) => {
            let (r1, s1) = data_types::read_byte_spec(s0);
            match r1 {
                Err(e) => (Err(e), s1),
                Ok(connect_reason_code) => {
                    let (b, sb) = variable_header_properties::properties_block_read(s1);
                    match b {
                        Err(e) => (Err(e), sb),
                        Ok((_, ps)) => (connack_properties_from(connect_acknowledge_flags, connect_reason_code, ps), sb),
                    }
                },
            }
        },
    }
}

/// Reading the header from this stream does not hit a decoding panic.
pub open spec fn connack_properties_safe(s: Seq<u8>) -> bool {
    let (r0, s0) = data_types::read_byte_spec(s);
    r0 is Ok ==> {
        let (r1, s1) = data_types::read_byte_spec(s0);
        r1 is Ok ==> {
            variable_header_properties::properties_block_safe(s1)
        }
    }
}

/// The header can be written: its properties fit in one block.
pub open spec fn connack_properties_fit(v: ConnackPropertiesView) -> bool {
    &&& property_model::slots_fit(connack_properties_slots(v))
}

pub open spec fn connack_properties_result(r: Result<ConnackProperties, MqttError>) -> Result<ConnackPropertiesView, MqttError> {
    match r {
        Ok(x) => Ok(x@),
        Err(e) => Err(e),
    }
}

impl Clone for ConnackProperties {
    fn clone(&self) -> (res: Self)
        ensures
            res@ == self@,
    {
        ConnackProperties {
            connect_acknowledge_flags: self.connect_acknowledge_flags,
            connect_reason_code: self.connect_reason_code,
            session_expiry_interval: self.session_expiry_interval,
            assigned_client_identifier: clone_opt_string(&self.assigned_client_identifier),
            server_keep_alive: self.server_keep_alive,
            authentication_method: clone_opt_string(&self.authentication_method),
            authentication_data: clone_opt_string(&self.authentication_data),
            response_information: clone_opt_string(&self.response_information),
            server_reference: clone_opt_string(&self.server_reference),
            reason_string: clone_opt_string(&self.reason_string),
            receive_maximum: self.receive_maximum,
            topic_alias_maximum: self.topic_alias_maximum,
            maximum_qos: self.maximum_qos,
            retain_available: self.retain_available,
            wildcard_subscription_available: self.wildcard_subscription_available,
            subscription_identifiers_available: self.subscription_identifiers_available,
            shared_subscription_available: self.shared_subscription_available,
            user_property: clone_opt_pair(&self.user_property),
            maximum_packet_size: self.maximum_packet_size,
        }
    }
}

impl ConnackProperties {
    /// The properties block of the header.
    pub fn as_variable_header_properties(&self) -> (res: Result<VariableHeaderProperties, MqttError>)
        requires
            property_model::slots_fit(connack_properties_slots(self@)),
        ensures
            res matches Ok(b) && b.wf() && b.models() == property_model::slot_list(connack_properties_slots(self@)),
    {
        let ghost slots = connack_properties_slots(self@);
        assert(property_model::slots_typed(PropertyTable::Current, slots));
        let mut variable_props = VariableHeaderProperties::for_slots(Ghost(slots));
        variable_props.put_u32(SESSION_EXPIRY_INTERVAL, self.session_expiry_interval, Ghost(slots), Ghost(0));
        variable_props.put_text(ASSIGNED_CLIENT_IDENTIFIER, &self.assigned_client_identifier, Ghost(slots), Ghost(1));
        variable_props.put_u16(SERVER_KEEP_ALIVE, self.server_keep_alive, Ghost(slots), Ghost(2));
        variable_props.put_text(AUTHENTICATION_METHOD, &self.authentication_method, Ghost(slots), Ghost(3));
        variable_props.put_text_as_binary(AUTHENTICATION_DATA, &self.authentication_data, Ghost(slots), Ghost(4));
        variable_props.put_text(RESPONSE_INFORMATION, &self.response_information, Ghost(slots), Ghost(5));
        variable_props.put_text(SERVER_REFERENCE, &self.server_reference, Ghost(slots), Ghost(6));
        variable_props.put_text(REASON_STRING, &self.reason_string, Ghost(slots), Ghost(7));
        variable_props.put_u16(RECEIVE_MAXIMUM, self.receive_maximum, Ghost(slots), Ghost(8));
        variable_props.put_u16(TOPIC_ALIAS_MAXIMUM, self.topic_alias_maximum, Ghost(slots), Ghost(9));
        variable_props.put_u8(MAXIMUM_QOS, self.maximum_qos, Ghost(slots), Ghost(10));
        variable_props.put_u8(RETAIN_AVAILABLE, self.retain_available, Ghost(slots), Ghost(11));
        variable_props.put_u8(WILDCARD_SUBSCRIPTION_AVAILABLE, self.wildcard_subscription_available, Ghost(slots), Ghost(12));
        variable_props.put_u8(SUBSCRIPTION_IDENTIFIERS_AVAILABLE, self.subscription_identifiers_available, Ghost(slots), Ghost(13));
        variable_props.put_u8(SHARED_SUBSCRIPTION_AVAILABLE, self.shared_subscription_available, Ghost(slots), Ghost(14));
        variable_props.put_pair(USER_PROPERTY, &self.user_property, Ghost(slots), Ghost(15));
        variable_props.put_u32(MAXIMUM_PACKET_SIZE, self.maximum_packet_size, Ghost(slots), Ghost(16));
        proof {
            variable_header_properties::lemma_holds_all_slots(&variable_props, slots);
        }
        Ok(variable_props)
    }

    /// The number of properties the header carries.
    pub fn variable_props_size(&self) -> (res: u16)
        requires
            property_model::slots_fit(connack_properties_slots(self@)),
        ensures
            res == property_model::slot_list(connack_properties_slots(self@)).len(),
    {
        let header = match self.as_variable_header_properties() {
            Ok(h) => h,
            Err(_) => {
                return 0;
            },
        };
        proof {
            property_model::lemma_slot_list_len(connack_properties_slots(self@));
        }
        header.properties.len() as u16
    }

    /// The number of bytes of the header.
    pub fn size_of(&self) -> (res: u32)
        requires
            connack_properties_fit(self@),
        ensures
            res == connack_properties_bytes(self@).len(),
    {
        let variable_props = match self.as_variable_header_properties() {
            Ok(v) => v,
            Err(_) => {
                return 0;
            },
        };
        1 + 1 + variable_props.size_of()
    }

    /// The bytes of the header.
    pub fn as_bytes(&self) -> (res: Result<Vec<u8>, MqttError>)
        requires
            connack_properties_fit(self@),
        ensures
            res matches Ok(b) && b@ == connack_properties_bytes(self@),
    {
        let mut bytes: Vec<u8> = Vec::new();
        let variable_header_properties = self.as_variable_header_properties()?;
        bytes.push(self.connect_acknowledge_flags);
        bytes.push(self.connect_reason_code);
        let block = variable_header_properties.as_bytes();
        append_bytes(&mut bytes, block.as_slice());
        assert(bytes@ =~= connack_properties_bytes(self@));
        Ok(bytes)
    }

    /// Reads the header from a stream.
    pub fn read_from(stream: &mut &[u8]) -> (res: Result<Self, MqttError>)
        requires
            connack_properties_safe(old(stream)@),
        ensures
            (connack_properties_result(res), final(stream)@) == connack_properties_read(old(stream)@),
    {
        let connect_acknowledge_flags = read_byte(stream)?;
        let connect_reason_code = read_byte(stream)?;
        let variable_header_properties = VariableHeaderProperties::read_from(stream)?;
        let ghost ps = variable_header_properties.models();
        let mut session_expiry_interval = None;
        let mut assigned_client_identifier = None;
        let mut server_keep_alive = None;
        let mut authentication_method = None;
        let mut authentication_data = None;
        let mut response_information = None;
        let mut server_reference = None;
        let mut reason_string = None;
        let mut receive_maximum = None;
        let mut topic_alias_maximum = None;
        let mut maximum_qos = None;
        let mut retain_available = None;
        let mut wildcard_subscription_available = None;
        let mut subscription_identifiers_available = None;
        let mut shared_subscription_available = None;
        let mut user_property = None;
        let mut maximum_packet_size = None;
        let mut i: usize = 0;
        while i < variable_header_properties.properties.len()
            invariant
                0 <= i <= ps.len(),
                ps == variable_header_properties.models(),
                session_expiry_interval == property_model::as_u32(property_model::last_with_id(ps.take(i as int), SESSION_EXPIRY_INTERVAL)),
                packet_property::opt_string_view(assigned_client_identifier) == property_model::as_text(property_model::last_with_id(ps.take(i as int), ASSIGNED_CLIENT_IDENTIFIER)),
                server_keep_alive == property_model::as_u16(property_model::last_with_id(ps.take(i as int), SERVER_KEEP_ALIVE)),
                packet_property::opt_string_view(authentication_method) == property_model::as_text(property_model::last_with_id(ps.take(i as int), AUTHENTICATION_METHOD)),
                packet_property::opt_bytes_view(authentication_data) == property_model::as_binary(property_model::last_with_id(ps.take(i as int), AUTHENTICATION_DATA)),
                packet_property::opt_string_view(response_information) == property_model::as_text(property_model::last_with_id(ps.take(i as int), RESPONSE_INFORMATION)),
                packet_property::opt_string_view(server_reference) == property_model::as_text(property_model::last_with_id(ps.take(i as int), SERVER_REFERENCE)),
                packet_property::opt_string_view(reason_string) == property_model::as_text(property_model::last_with_id(ps.take(i as int), REASON_STRING)),
                receive_maximum == property_model::as_u16(property_model::last_with_id(ps.take(i as int), RECEIVE_MAXIMUM)),
                topic_alias_maximum == property_model::as_u16(property_model::last_with_id(ps.take(i as int), TOPIC_ALIAS_MAXIMUM)),
                maximum_qos == property_model::as_u8(property_model::last_with_id(ps.take(i as int), MAXIMUM_QOS)),
                retain_available == property_model::as_u8(property_model::last_with_id(ps.take(i as int), RETAIN_AVAILABLE)),
                wildcard_subscription_available == property_model::as_u8(property_model::last_with_id(ps.take(i as int), WILDCARD_SUBSCRIPTION_AVAILABLE)),
                subscription_identifiers_available == property_model::as_u8(property_model::last_with_id(ps.take(i as int), SUBSCRIPTION_IDENTIFIERS_AVAILABLE)),
                shared_subscription_available == property_model::as_u8(property_model::last_with_id(ps.take(i as int), SHARED_SUBSCRIPTION_AVAILABLE)),
                packet_property::opt_pair_view(user_property) == property_model::as_pair(property_model::last_with_id(ps.take(i as int), USER_PROPERTY)),
                maximum_packet_size == property_model::as_u32(property_model::last_with_id(ps.take(i as int), MAXIMUM_PACKET_SIZE)),
            decreases ps.len() - i,
        {
            let property = &variable_header_properties.properties[i];
            proof {
                property_model::lemma_last_with_id_step(ps, i as int, SESSION_EXPIRY_INTERVAL);
                property_model::lemma_last_with_id_step(ps, i as int, ASSIGNED_CLIENT_IDENTIFIER);
                property_model::lemma_last_with_id_step(ps, i as int, SERVER_KEEP_ALIVE);
                property_model::lemma_last_with_id_step(ps, i as int, AUTHENTICATION_METHOD);
                property_model::lemma_last_with_id_step(ps, i as int, AUTHENTICATION_DATA);
                property_model::lemma_last_with_id_step(ps, i as int, RESPONSE_INFORMATION);
                property_model::lemma_last_with_id_step(ps, i as int, SERVER_REFERENCE);
                property_model::lemma_last_with_id_step(ps, i as int, REASON_STRING);
                property_model::lemma_last_with_id_step(ps, i as int, RECEIVE_MAXIMUM);
                property_model::lemma_last_with_id_step(ps, i as int, TOPIC_ALIAS_MAXIMUM);
                property_model::lemma_last_with_id_step(ps, i as int, MAXIMUM_QOS);
                property_model::lemma_last_with_id_step(ps, i as int, RETAIN_AVAILABLE);
                property_model::lemma_last_with_id_step(ps, i as int, WILDCARD_SUBSCRIPTION_AVAILABLE);
                property_model::lemma_last_with_id_step(ps, i as int, SUBSCRIPTION_IDENTIFIERS_AVAILABLE);
                property_model::lemma_last_with_id_step(ps, i as int, SHARED_SUBSCRIPTION_AVAILABLE);
                property_model::lemma_last_with_id_step(ps, i as int, USER_PROPERTY);
                property_model::lemma_last_with_id_step(ps, i as int, MAXIMUM_PACKET_SIZE);
            }
            let id = property.id();
            if id == SESSION_EXPIRY_INTERVAL {
                session_expiry_interval = property.value_u32();
            } else if id == ASSIGNED_CLIENT_IDENTIFIER {
                assigned_client_identifier = property.value_string();
            } else if id == SERVER_KEEP_ALIVE {
                server_keep_alive = property.value_u16();
            } else if id == AUTHENTICATION_METHOD {
                authentication_method = property.value_string();
            } else if id == AUTHENTICATION_DATA {
                authentication_data = property.value_binary_data();
            } else if id == RESPONSE_INFORMATION {
                response_information = property.value_string();
            } else if id == SERVER_REFERENCE {
                server_reference = property.value_string();
            } else if id == REASON_STRING {
                reason_string = property.value_string();
            } else if id == RECEIVE_MAXIMUM {
                receive_maximum = property.value_u16();
            } else if id == TOPIC_ALIAS_MAXIMUM {
                topic_alias_maximum = property.value_u16();
            } else if id == MAXIMUM_QOS {
                maximum_qos = property.value_u8();
            } else if id == RETAIN_AVAILABLE {
                retain_available = property.value_u8();
            } else if id == WILDCARD_SUBSCRIPTION_AVAILABLE {
                wildcard_subscription_available = property.value_u8();
            } else if id == SUBSCRIPTION_IDENTIFIERS_AVAILABLE {
                subscription_identifiers_available = property.value_u8();
            } else if id == SHARED_SUBSCRIPTION_AVAILABLE {
                shared_subscription_available = property.value_u8();
            } else if id == USER_PROPERTY {
                user_property = property.value_string_pair();
            } else if id == MAXIMUM_PACKET_SIZE {
                maximum_packet_size = property.value_u32();
            }
            i += 1;
        }
        proof {
            property_model::lemma_take_all(ps);
        }
        let authentication_data = opt_bytes_to_string(authentication_data)?;
        Ok(ConnackProperties {
            connect_acknowledge_flags,
            connect_reason_code,
            session_expiry_interval,
            assigned_client_identifier,
            server_keep_alive,
            authentication_method,
            authentication_data,
            response_information,
            server_reference,
            reason_string,
            receive_maximum,
            topic_alias_maximum,
            maximum_qos,
            retain_available,
            wildcard_subscription_available,
            subscription_identifiers_available,
            shared_subscription_available,
            user_property,
            maximum_packet_size,
        })
    }
}

/// The slots of the header carry the kinds their identifiers take, no two share an
/// identifier, and decoding their properties gives the header back.
proof fn lemma_connack_properties_slots(v: ConnackPropertiesView)
    ensures
        property_model::slots_typed(PropertyTable::Current, connack_properties_slots(v)),
        property_model::slots_distinct(connack_properties_slots(v)),
        connack_properties_from(v.connect_acknowledge_flags, v.connect_reason_code, property_model::slot_list(connack_properties_slots(v))) == Ok::<ConnackPropertiesView, MqttError>(v),
{
    let slots = connack_properties_slots(v);
    let ps = property_model::slot_list(slots);
    assert(property_model::slots_typed(PropertyTable::Current, slots));
    assert(property_model::slots_distinct(slots));
    property_model::lemma_slot_lookup(slots, 0);
    assert(property_model::as_u32(property_model::last_with_id(ps, SESSION_EXPIRY_INTERVAL)) == v.session_expiry_interval);
    property_model::lemma_slot_lookup(slots, 1);
    assert(property_model::as_text(property_model::last_with_id(ps, ASSIGNED_CLIENT_IDENTIFIER)) == v.assigned_client_identifier);
    property_model::lemma_slot_lookup(slots, 2);
    assert(property_model::as_u16(property_model::last_with_id(ps, SERVER_KEEP_ALIVE)) == v.server_keep_alive);
    property_model::lemma_slot_lookup(slots, 3);
    assert(property_model::as_text(property_model::last_with_id(ps, AUTHENTICATION_METHOD)) == v.authentication_method);
    property_model::lemma_slot_lookup(slots, 4);
    match v.authentication_data {
        Some(d) => {
            assert(data_types::utf8_spec(encode_utf8(d)) == Ok::<Seq<char>, MqttError>(d));
        },
        None => {},
    }
    assert(property_model::opt_utf8(property_model::as_binary(property_model::last_with_id(ps, AUTHENTICATION_DATA))) == Ok::<Option<Seq<char>>, MqttError>(v.authentication_data));
    property_model::lemma_slot_lookup(slots, 5);
    assert(property_model::as_text(property_model::last_with_id(ps, RESPONSE_INFORMATION)) == v.response_information);
    property_model::lemma_slot_lookup(slots, 6);
    assert(property_model::as_text(property_model::last_with_id(ps, SERVER_REFERENCE)) == v.server_reference);
    property_model::lemma_slot_lookup(slots, 7);
    assert(property_model::as_text(property_model::last_with_id(ps, REASON_STRING)) == v.reason_string);
    property_model::lemma_slot_lookup(slots, 8);
    assert(property_model::as_u16(property_model::last_with_id(ps, RECEIVE_MAXIMUM)) == v.receive_maximum);
    property_model::lemma_slot_lookup(slots, 9);
    assert(property_model::as_u16(property_model::last_with_id(ps, TOPIC_ALIAS_MAXIMUM)) == v.topic_alias_maximum);
    property_model::lemma_slot_lookup(slots, 10);
    assert(property_model::as_u8(property_model::last_with_id(ps, MAXIMUM_QOS)) == v.maximum_qos);
    property_model::lemma_slot_lookup(slots, 11);
    assert(property_model::as_u8(property_model::last_with_id(ps, RETAIN_AVAILABLE)) == v.retain_available);
    property_model::lemma_slot_lookup(slots, 12);
    assert(property_model::as_u8(property_model::last_with_id(ps, WILDCARD_SUBSCRIPTION_AVAILABLE)) == v.wildcard_subscription_available);
    property_model::lemma_slot_lookup(slots, 13);
    assert(property_model::as_u8(property_model::last_with_id(ps, SUBSCRIPTION_IDENTIFIERS_AVAILABLE)) == v.subscription_identifiers_available);
    property_model::lemma_slot_lookup(slots, 14);
    assert(property_model::as_u8(property_model::last_with_id(ps, SHARED_SUBSCRIPTION_AVAILABLE)) == v.shared_subscription_available);
    property_model::lemma_slot_lookup(slots, 15);
    assert(property_model::as_pair(property_model::last_with_id(ps, USER_PROPERTY)) == v.user_property);
    property_model::lemma_slot_lookup(slots, 16);
    assert(property_model::as_u32(property_model::last_with_id(ps, MAXIMUM_PACKET_SIZE)) == v.maximum_packet_size);
}

/// Reading back the bytes of a header that can be written gives the header back, and
/// leaves what follows.
#[verifier::spinoff_prover]
#[verifier::rlimit(30)]
pub proof fn lemma_connack_properties_roundtrip(v: ConnackPropertiesView, rest: Seq<u8>)
    requires
        connack_properties_fit(v),
    ensures
        connack_properties_read(connack_properties_bytes(v) + rest) == (Ok::<ConnackPropertiesView, MqttError>(v), rest),
        connack_properties_safe(connack_properties_bytes(v) + rest),
{
    let slots = connack_properties_slots(v);
    let ps = property_model::slot_list(slots);
    let block = variable_header_properties::properties_block_bytes(property_model::properties_bytes(ps).len() as u16, ps);
    lemma_connack_properties_slots(v);
    property_model::lemma_slots_encodable(PropertyTable::Current, slots);
    variable_header_properties::lemma_properties_block_roundtrip(property_model::properties_bytes(ps).len() as u16, ps, rest);
    data_types::lemma_read_byte_prefix(v.connect_acknowledge_flags, seq![v.connect_reason_code] + (block + rest));
    data_types::lemma_read_byte_prefix(v.connect_reason_code, block + rest);
    assert(connack_properties_bytes(v) + rest =~= seq![v.connect_acknowledge_flags] + (seq![v.connect_reason_code] + (block + rest)));
}

/// Each field of the header is written as the property with its own MQTT 5 identifier:
/// Session Expiry Interval 0x11, Assigned Client Identifier 0x12, Server Keep Alive 0x13,
/// Authentication Method 0x15, Authentication Data 0x16, Response Information 0x1A,
/// Server Reference 0x1C, Reason String 0x1F, Receive Maximum 0x21, Topic Alias Maximum
/// 0x22, Maximum QoS 0x24, Retain Available 0x25, User Property 0x26, Maximum Packet Size
/// 0x27, Wildcard Subscription Available 0x28, Subscription Identifiers Available 0x29 and
/// Shared Subscription Available 0x2A.
pub proof fn lemma_connack_property_identifiers(v: ConnackPropertiesView)
    ensures
        ({
            let ps = property_model::slot_list(connack_properties_slots(v));
            &&& property_model::as_u32(property_model::last_with_id(ps, 0x11u8)) == v.session_expiry_interval
            &&& property_model::as_text(property_model::last_with_id(ps, 0x12u8)) == v.assigned_client_identifier
            &&& property_model::as_u16(property_model::last_with_id(ps, 0x13u8)) == v.server_keep_alive
            &&& property_model::as_text(property_model::last_with_id(ps, 0x15u8)) == v.authentication_method
            &&& property_model::opt_utf8(property_model::as_binary(property_model::last_with_id(ps, 0x16u8))) == Ok::<Option<Seq<char>>, MqttError>(v.authentication_data)
            &&& property_model::as_text(property_model::last_with_id(ps, 0x1Au8)) == v.response_information
            &&& property_model::as_text(property_model::last_with_id(ps, 0x1Cu8)) == v.server_reference
            &&& property_model::as_text(property_model::last_with_id(ps, 0x1Fu8)) == v.reason_string
            &&& property_model::as_u16(property_model::last_with_id(ps, 0x21u8)) == v.receive_maximum
            &&& property_model::as_u16(property_model::last_with_id(ps, 0x22u8)) == v.topic_alias_maximum
            &&& property_model::as_u8(property_model::last_with_id(ps, 0x24u8)) == v.maximum_qos
            &&& property_model::as_u8(property_model::last_with_id(ps, 0x25u8)) == v.retain_available
            &&& property_model::as_pair(property_model::last_with_id(ps, 0x26u8)) == v.user_property
            &&& property_model::as_u32(property_model::last_with_id(ps, 0x27u8)) == v.maximum_packet_size
            &&& property_model::as_u8(property_model::last_with_id(ps, 0x28u8)) == v.wildcard_subscription_available
            &&& property_model::as_u8(property_model::last_with_id(ps, 0x29u8)) == v.subscription_identifiers_available
            &&& property_model::as_u8(property_model::last_with_id(ps, 0x2Au8)) == v.shared_subscription_available
        }),
{
    lemma_connack_properties_slots(v);
}

/// Reading a properties block that holds one one-byte property fills the field of that
/// identifier and no other: Maximum QoS 0x24, Retain Available 0x25, Wildcard Subscription
/// Available 0x28, Subscription Identifiers Available 0x29, Shared Subscription Available
/// 0x2A.
pub proof fn lemma_connack_reads_byte_property(flags: u8, code: u8, id: u8, x: u8)
    requires
        id == 0x24u8 || id == 0x25u8 || id == 0x28u8 || id == 0x29u8 || id == 0x2Au8,
    ensures
        connack_properties_from(flags, code, seq![PropertyModel { id: id, value: property_model::PropertyValue::Byte(x) }]) == Ok::<ConnackPropertiesView, MqttError>(ConnackPropertiesView {
            connect_acknowledge_flags: flags,
            connect_reason_code: code,
            session_expiry_interval: None,
            assigned_client_identifier: None,
            server_keep_alive: None,
            authentication_method: None,
            authentication_data: None,
            response_information: None,
            server_reference: None,
            reason_string: None,
            receive_maximum: None,
            topic_alias_maximum: None,
            maximum_qos: if id == 0x24u8 { Some(x) } else { None },
            retain_available: if id == 0x25u8 { Some(x) } else { None },
            wildcard_subscription_available: if id == 0x28u8 { Some(x) } else { None },
            subscription_identifiers_available: if id == 0x29u8 { Some(x) } else { None },
            shared_subscription_available: if id == 0x2Au8 { Some(x) } else { None },
            user_property: None,
            maximum_packet_size: None,
        }),
{
    let ps = seq![PropertyModel { id: id, value: property_model::PropertyValue::Byte(x) }];
    assert(ps.drop_last() =~= Seq::<PropertyModel>::empty());
    assert forall|k: u8| #[trigger] property_model::last_with_id(ps, k) == (if k == id { Some(ps[0]) } else { None::<PropertyModel> }) by {
        assert(property_model::last_with_id(ps.drop_last(), k) is None);
    }
}

/// The CONNACK variable header starts with the acknowledge flags, then the reason code.
pub proof fn lemma_connack_header_layout(v: ConnackPropertiesView)
    ensures
        connack_properties_bytes(v)[0] == v.connect_acknowledge_flags,
        connack_properties_bytes(v)[1] == v.connect_reason_code,
{
}

} // verus!
