use vstd::prelude::*;
use vstd::utf8::*;

use crate::common::data_types::{read_byte, read_text, read_two_byte_integer, string_len, MqttError};
use crate::common::data_types;
use crate::control_packets::mqtt_packet::packet_property::{append_bytes, clone_opt_pair, clone_opt_string, opt_bytes_to_string, push_text, push_u16, AUTHENTICATION_DATA, AUTHENTICATION_METHOD, MAXIMUM_PACKET_SIZE, RECEIVE_MAXIMUM, REQUEST_PROBLEM_INFORMATION, REQUEST_RESPONSE_INFORMATION, SESSION_EXPIRY_INTERVAL, TOPIC_ALIAS_MAXIMUM, USER_PROPERTY};
use crate::control_packets::mqtt_packet::packet_property;
use crate::control_packets::mqtt_packet::property_model::{PropertyModel, PropertyTable, Slot};
use crate::control_packets::mqtt_packet::property_model;
use crate::control_packets::mqtt_packet::variable_header_properties::VariableHeaderProperties;
use crate::control_packets::mqtt_packet::variable_header_properties;

verus! {

broadcast use {vstd::utf8::encode_utf8_valid_utf8, vstd::utf8::encode_utf8_decode_utf8};

/// The variable header of a CONNECT packet: the protocol name and version, the connect
/// flags, the keep alive, and the optional properties.
pub struct ConnectProperties {
    pub protocol_name: String,
    pub protocol_version: u8,
    pub connect_flags: u8,
    pub keep_alive: u16,
    pub session_expiry_interval: Option<u32>,
    pub authentication_data: Option<String>,
    pub authentication_method: Option<String>,
    pub request_problem_information: Option<u8>,
    pub request_response_information: Option<u8>,
    pub receive_maximum: Option<u16>,
    pub topic_alias_maximum: Option<u16>,
    pub user_property: Option<(String, String)>,
    pub maximum_packet_size: Option<u32>,
}

/// The mathematical value of [`ConnectProperties`].
pub struct ConnectPropertiesView {
    pub protocol_name: Seq<char>,
    pub protocol_version: u8,
    pub connect_flags: u8,
    pub keep_alive: u16,
    pub session_expiry_interval: Option<u32>,
    pub authentication_data: Option<Seq<char>>,
    pub authentication_method: Option<Seq<char>>,
    pub request_problem_information: Option<u8>,
    pub request_response_information: Option<u8>,
    pub receive_maximum: Option<u16>,
    pub topic_alias_maximum: Option<u16>,
    pub user_property: Option<(Seq<char>, Seq<char>)>,
    pub maximum_packet_size: Option<u32>,
}

impl View for ConnectProperties {
    type V = ConnectPropertiesView;

    open spec fn view(&self) -> ConnectPropertiesView {
        ConnectPropertiesView {
            protocol_name: self.protocol_name@,
            protocol_version: self.protocol_version,
            connect_flags: self.connect_flags,
            keep_alive: self.keep_alive,
            session_expiry_interval: self.session_expiry_interval,
            authentication_data: packet_property::opt_string_view(self.authentication_data),
            authentication_method: packet_property::opt_string_view(self.authentication_method),
            request_problem_information: self.request_problem_information,
            request_response_information: self.request_response_information,
            receive_maximum: self.receive_maximum,
            topic_alias_maximum: self.topic_alias_maximum,
            user_property: packet_property::opt_pair_view(self.user_property),
            maximum_packet_size: self.maximum_packet_size,
        }
    }
}

/// The properties of the header, in the order they are written: each field fills the
/// slot of its identifier.
pub open spec fn connect_properties_slots(v: ConnectPropertiesView) -> Seq<Slot> {
    seq![
        (SESSION_EXPIRY_INTERVAL, property_model::opt_u32(v.session_expiry_interval)),
        (AUTHENTICATION_DATA, property_model::opt_text_binary(v.authentication_data)),
        (AUTHENTICATION_METHOD, property_model::opt_text(v.authentication_method)),
        (REQUEST_PROBLEM_INFORMATION, property_model::opt_u8(v.request_problem_information)),
        (REQUEST_RESPONSE_INFORMATION, property_model::opt_u8(v.request_response_information)),
        (RECEIVE_MAXIMUM, property_model::opt_u16(v.receive_maximum)),
        (TOPIC_ALIAS_MAXIMUM, property_model::opt_u16(v.topic_alias_maximum)),
        (USER_PROPERTY, property_model::opt_pair(v.user_property)),
        (MAXIMUM_PACKET_SIZE, property_model::opt_u32(v.maximum_packet_size)),
    ]
}

/// The bytes of the header: the protocol name, the protocol version, the connect flags, the keep alive,
/// then the properties block.
pub open spec fn connect_properties_bytes(v: ConnectPropertiesView) -> Seq<u8> {
    let ps = property_model::slot_list(connect_properties_slots(v));
    data_types::text_bytes(v.protocol_name) + seq![v.protocol_version] + seq![v.connect_flags] + data_types::be16(v.keep_alive as int) + variable_header_properties::properties_block_bytes(property_model::properties_bytes(ps).len() as u16, ps)
}

/// The header that the fixed fields and the decoded properties give: each
/// optional field takes the last property with its identifier.
pub open spec fn connect_properties_from(protocol_name: Seq<char>, protocol_version: u8, connect_flags: u8, keep_alive: u16, ps: Seq<PropertyModel>) -> Result<ConnectPropertiesView, MqttError> {
    match property_model::opt_utf8(property_model::as_binary(property_model::last_with_id(ps, AUTHENTICATION_DATA))) {
        Err(e) => Err(e),
        Ok(data) => Ok(
            ConnectPropertiesView {
                protocol_name: protocol_name,
                protocol_version: protocol_version,
                connect_flags: connect_flags,
                keep_alive: keep_alive,
                session_expiry_interval: property_model::as_u32(property_model::last_with_id(ps, SESSION_EXPIRY_INTERVAL)),
                authentication_data: data,
                authentication_method: property_model::as_text(property_model::last_with_id(ps, AUTHENTICATION_METHOD)),
                request_problem_information: property_model::as_u8(property_model::last_with_id(ps, REQUEST_PROBLEM_INFORMATION)),
                request_response_information: property_model::as_u8(property_model::last_with_id(ps, REQUEST_RESPONSE_INFORMATION)),
                receive_maximum: property_model::as_u16(property_model::last_with_id(ps, RECEIVE_MAXIMUM)),
                topic_alias_maximum: property_model::as_u16(property_model::last_with_id(ps, TOPIC_ALIAS_MAXIMUM)),
                user_property: property_model::as_pair(property_model::last_with_id(ps, USER_PROPERTY)),
                maximum_packet_size: property_model::as_u32(property_model::last_with_id(ps, MAXIMUM_PACKET_SIZE)),
            },
        ),
    }
}

/// Reading the header from a stream.
pub open spec fn connect_properties_read(s: Seq<u8>) -> (Result<ConnectPropertiesView, MqttError>, Seq<u8>) {
    let (r0, s0) = data_types::read_text_spec(s);
    match r0 {
        Err(e) => (Err(e), s0),
        Ok(protocol_name) => {
            let (r1, s1) = data_types::read_byte_spec(s0);
            match r1 {
                Err(e) => (Err(e), s1),
                Ok(protocol_version) => {
                    let (r2, s2) = data_types::read_byte_spec(s1);
                    match r2 {
                        Err(e) => (Err(e), s2),
                        Ok(connect_flags) => {
                            let (r3, s3) = data_types::read_u16_spec(s2);
                            match r3 {
                                Err(e) => (Err(e), s3),
                                Ok(keep_alive) => {
                                    let (b, sb) = variable_header_properties::properties_block_read(s3);
                                    match b {
                                        Err(e) => (Err(e), sb),
                                        Ok((_, ps)) => (connect_properties_from(protocol_name, protocol_version, connect_flags, keep_alive, ps), sb),
                                    }
                                },
                            }
                        },
                    }
                },
            }
        },
    }
}

/// Reading the header from this stream does not hit a decoding panic.
pub open spec fn connect_properties_safe(s: Seq<u8>) -> bool {
    let (r0, s0) = data_types::read_text_spec(s);
    r0 is Ok ==> {
        let (r1, s1) = data_types::read_byte_spec(s0);
        r1 is Ok ==> {
            let (r2, s2) = data_types::read_byte_spec(s1);
            r2 is Ok ==> {
                let (r3, s3) = data_types::read_u16_spec(s2);
                r3 is Ok ==> {
                    variable_header_properties::properties_block_safe(s3)
                }
            }
        }
    }
}

/// The header can be written: its properties fit in one block, and its strings and payload fit their length prefixes.
pub open spec fn connect_properties_fit(v: ConnectPropertiesView) -> bool {
    &&& property_model::slots_fit(connect_properties_slots(v))
    &&& encode_utf8(v.protocol_name).len() <= u16::MAX
}

pub open spec fn connect_properties_result(r: Result<ConnectProperties, MqttError>) -> Result<ConnectPropertiesView, MqttError> {
    match r {
        Ok(x) => Ok(x@),
        Err(e) => Err(e),
    }
}

impl Clone for ConnectProperties {
    fn clone(&self) -> (res: Self)
        ensures
            res@ == self@,
    {
        ConnectProperties {
            protocol_name: self.protocol_name.clone(),
            protocol_version: self.protocol_version,
            connect_flags: self.connect_flags,
            keep_alive: self.keep_alive,
            session_expiry_interval: self.session_expiry_interval,
            authentication_data: clone_opt_string(&self.authentication_data),
            authentication_method: clone_opt_string(&self.authentication_method),
            request_problem_information: self.request_problem_information,
            request_response_information: self.request_response_information,
            receive_maximum: self.receive_maximum,
            topic_alias_maximum: self.topic_alias_maximum,
            user_property: clone_opt_pair(&self.user_property),
            maximum_packet_size: self.maximum_packet_size,
        }
    }
}

impl Default for ConnectProperties {
    fn default() -> (res: Self)
        ensures
            res@.protocol_name == "MQTT"@,
            res@.protocol_version == 5,
            res@.connect_flags == 0,
            res@.keep_alive == 0,
            res@.session_expiry_interval is None,
            res@.authentication_data is None,
            res@.authentication_method is None,
            res@.request_problem_information is None,
            res@.request_response_information is None,
            res@.receive_maximum is None,
            res@.topic_alias_maximum is None,
            res@.user_property is None,
            res@.maximum_packet_size is None,
    {
        ConnectProperties {
            protocol_name: "MQTT".to_owned(),
            protocol_version: 5,
            connect_flags: 0,
            keep_alive: 0,
            session_expiry_interval: None,
            authentication_data: None,
            authentication_method: None,
            request_problem_information: None,
            request_response_information: None,
            receive_maximum: None,
            topic_alias_maximum: None,
            user_property: None,
            maximum_packet_size: None,
        }
    }
}

impl ConnectProperties {
    /// The properties block of the header.
    pub fn as_variable_header_properties(&self) -> (res: Result<VariableHeaderProperties, MqttError>)
        requires
            property_model::slots_fit(connect_properties_slots(self@)),
        ensures
            res matches Ok(b) && b.wf() && b.models() == property_model::slot_list(connect_properties_slots(self@)),
    {
        let ghost slots = connect_properties_slots(self@);
        assert(property_model::slots_typed(PropertyTable::Current, slots));
        let mut variable_props = VariableHeaderProperties::for_slots(Ghost(slots));
        variable_props.put_u32(SESSION_EXPIRY_INTERVAL, self.session_expiry_interval, Ghost(slots), Ghost(0));
        variable_props.put_text_as_binary(AUTHENTICATION_DATA, &self.authentication_data, Ghost(slots), Ghost(1));
        variable_props.put_text(AUTHENTICATION_METHOD, &self.authentication_method, Ghost(slots), Ghost(2));
        variable_props.put_u8(REQUEST_PROBLEM_INFORMATION, self.request_problem_information, Ghost(slots), Ghost(3));
        variable_props.put_u8(REQUEST_RESPONSE_INFORMATION, self.request_response_information, Ghost(slots), Ghost(4));
        variable_props.put_u16(RECEIVE_MAXIMUM, self.receive_maximum, Ghost(slots), Ghost(5));
        variable_props.put_u16(TOPIC_ALIAS_MAXIMUM, self.topic_alias_maximum, Ghost(slots), Ghost(6));
        variable_props.put_pair(USER_PROPERTY, &self.user_property, Ghost(slots), Ghost(7));
        variable_props.put_u32(MAXIMUM_PACKET_SIZE, self.maximum_packet_size, Ghost(slots), Ghost(8));
        proof {
            variable_header_properties::lemma_holds_all_slots(&variable_props, slots);
        }
        Ok(variable_props)
    }

    /// The number of properties the header carries.
    pub fn variable_props_size(&self) -> (res: u16)
        requires
            property_model::slots_fit(connect_properties_slots(self@)),
        ensures
            res == property_model::slot_list(connect_properties_slots(self@)).len(),
    {
        let header = match self.as_variable_header_properties() {
            Ok(h) => h,
            Err(_) => {
                return 0;
            },
        };
        proof {
            property_model::lemma_slot_list_len(connect_properties_slots(self@));
        }
        header.properties.len() as u16
    }

    /// The number of bytes of the header.
    pub fn size_of(&self) -> (res: u16)
        requires
            connect_properties_fit(self@),
            connect_properties_bytes(self@).len() <= u16::MAX,
        ensures
            res == connect_properties_bytes(self@).len(),
    {
        let variable_props = match self.as_variable_header_properties() {
            Ok(v) => v,
            Err(_) => {
                return 0;
            },
        };
        (2 + string_len(&self.protocol_name) as u32 + 1 + 1 + 2 + variable_props.size_of()) as u16
    }

    /// The bytes of the header.
    pub fn as_bytes(&self) -> (res: Result<Vec<u8>, MqttError>)
        requires
            connect_properties_fit(self@),
        ensures
            res matches Ok(b) && b@ == connect_properties_bytes(self@),
    {
        let mut bytes: Vec<u8> = Vec::new();
        let variable_header_properties = self.as_variable_header_properties()?;
        push_text(&mut bytes, &self.protocol_name);
        bytes.push(self.protocol_version);
        bytes.push(self.connect_flags);
        push_u16(&mut bytes, self.keep_alive);
        let block = variable_header_properties.as_bytes();
        append_bytes(&mut bytes, block.as_slice());
        assert(bytes@ =~= connect_properties_bytes(self@));
        Ok(bytes)
    }

    /// Reads the header from a stream.
    pub fn read_from(stream: &mut &[u8]) -> (res: Result<Self, MqttError>)
        requires
            connect_properties_safe(old(stream)@),
        ensures
            (connect_properties_result(res), final(stream)@) == connect_properties_read(old(stream)@),
    {
        let protocol_name = read_text(stream)?;
        let protocol_version = read_byte(stream)?;
        let connect_flags = read_byte(stream)?;
        let keep_alive = read_two_byte_integer(stream)?;
        let variable_header_properties = VariableHeaderProperties::read_from(stream)?;
        let ghost ps = variable_header_properties.models();
        let mut session_expiry_interval = None;
        let mut authentication_data = None;
        let mut authentication_method = None;
        let mut request_problem_information = None;
        let mut request_response_information = None;
        let mut receive_maximum = None;
        let mut topic_alias_maximum = None;
        let mut user_property = None;
        let mut maximum_packet_size = None;
        let mut i: usize = 0;
        while i < variable_header_properties.properties.len()
            invariant
                0 <= i <= ps.len(),
                ps == variable_header_properties.models(),
                session_expiry_interval == property_model::as_u32(property_model::last_with_id(ps.take(i as int), SESSION_EXPIRY_INTERVAL)),
                packet_property::opt_bytes_view(authentication_data) == property_model::as_binary(property_model::last_with_id(ps.take(i as int), AUTHENTICATION_DATA)),
                packet_property::opt_string_view(authentication_method) == property_model::as_text(property_model::last_with_id(ps.take(i as int), AUTHENTICATION_METHOD)),
                request_problem_information == property_model::as_u8(property_model::last_with_id(ps.take(i as int), REQUEST_PROBLEM_INFORMATION)),
                request_response_information == property_model::as_u8(property_model::last_with_id(ps.take(i as int), REQUEST_RESPONSE_INFORMATION)),
                receive_maximum == property_model::as_u16(property_model::last_with_id(ps.take(i as int), RECEIVE_MAXIMUM)),
                topic_alias_maximum == property_model::as_u16(property_model::last_with_id(ps.take(i as int), TOPIC_ALIAS_MAXIMUM)),
                packet_property::opt_pair_view(user_property) == property_model::as_pair(property_model::last_with_id(ps.take(i as int), USER_PROPERTY)),
                maximum_packet_size == property_model::as_u32(property_model::last_with_id(ps.take(i as int), MAXIMUM_PACKET_SIZE)),
            decreases ps.len() - i,
        {
            let property = &variable_header_properties.properties[i];
            proof {
                property_model::lemma_last_with_id_step(ps, i as int, SESSION_EXPIRY_INTERVAL);
                property_model::lemma_last_with_id_step(ps, i as int, AUTHENTICATION_DATA);
                property_model::lemma_last_with_id_step(ps, i as int, AUTHENTICATION_METHOD);
                property_model::lemma_last_with_id_step(ps, i as int, REQUEST_PROBLEM_INFORMATION);
                property_model::lemma_last_with_id_step(ps, i as int, REQUEST_RESPONSE_INFORMATION);
                property_model::lemma_last_with_id_step(ps, i as int, RECEIVE_MAXIMUM);
                property_model::lemma_last_with_id_step(ps, i as int, TOPIC_ALIAS_MAXIMUM);
                property_model::lemma_last_with_id_step(ps, i as int, USER_PROPERTY);
                property_model::lemma_last_with_id_step(ps, i as int, MAXIMUM_PACKET_SIZE);
            }
            let id = property.id();
            if id == SESSION_EXPIRY_INTERVAL {
                session_expiry_interval = property.value_u32();
            } else if id == AUTHENTICATION_DATA {
                authentication_data = property.value_binary_data();
            } else if id == AUTHENTICATION_METHOD {
                authentication_method = property.value_string();
            } else if id == REQUEST_PROBLEM_INFORMATION {
                request_problem_information = property.value_u8();
            } else if id == REQUEST_RESPONSE_INFORMATION {
                request_response_information = property.value_u8();
            } else if id == RECEIVE_MAXIMUM {
                receive_maximum = property.value_u16();
            } else if id == TOPIC_ALIAS_MAXIMUM {
                topic_alias_maximum = property.value_u16();
            } else if id == USER_PROPERTY {
                user_property = property.value_string_pair();
            } else if id == MAXIMUM_PACKET_SIZE {
                maximum_packet_size = property.value_u32();
            }
            i += 1;
        }
        proof {
            property_model::lemma_take_all(ps);
        }
        let authentication_data = opt_bytes_to_string(authentication_data)?;
        Ok(ConnectProperties {
            protocol_name,
            protocol_version,
            connect_flags,
            keep_alive,
            session_expiry_interval,
            authentication_data,
            authentication_method,
            request_problem_information,
            request_response_information,
            receive_maximum,
            topic_alias_maximum,
            user_property,
            maximum_packet_size,
        })
    }
}

/// The slots of the header carry the kinds their identifiers take, no two share an
/// identifier, and decoding their properties gives the header back.
proof fn lemma_connect_properties_slots(v: ConnectPropertiesView)
    ensures
        property_model::slots_typed(PropertyTable::Current, connect_properties_slots(v)),
        property_model::slots_distinct(connect_properties_slots(v)),
        connect_properties_from(v.protocol_name, v.protocol_version, v.connect_flags, v.keep_alive, property_model::slot_list(connect_properties_slots(v))) == Ok::<ConnectPropertiesView, MqttError>(v),
{
    let slots = connect_properties_slots(v);
    let ps = property_model::slot_list(slots);
    assert(property_model::slots_typed(PropertyTable::Current, slots));
    assert(property_model::slots_distinct(slots));
    property_model::lemma_slot_lookup(slots, 0);
    assert(property_model::as_u32(property_model::last_with_id(ps, SESSION_EXPIRY_INTERVAL)) == v.session_expiry_interval);
    property_model::lemma_slot_lookup(slots, 1);
    match v.authentication_data {
        Some(d) => {
            assert(data_types::utf8_spec(encode_utf8(d)) == Ok::<Seq<char>, MqttError>(d));
        },
        None => {},
    }
    assert(property_model::opt_utf8(property_model::as_binary(property_model::last_with_id(ps, AUTHENTICATION_DATA))) == Ok::<Option<Seq<char>>, MqttError>(v.authentication_data));
    property_model::lemma_slot_lookup(slots, 2);
    assert(property_model::as_text(property_model::last_with_id(ps, AUTHENTICATION_METHOD)) == v.authentication_method);
    property_model::lemma_slot_lookup(slots, 3);
    assert(property_model::as_u8(property_model::last_with_id(ps, REQUEST_PROBLEM_INFORMATION)) == v.request_problem_information);
    property_model::lemma_slot_lookup(slots, 4);
    assert(property_model::as_u8(property_model::last_with_id(ps, REQUEST_RESPONSE_INFORMATION)) == v.request_response_information);
    property_model::lemma_slot_lookup(slots, 5);
    assert(property_model::as_u16(property_model::last_with_id(ps, RECEIVE_MAXIMUM)) == v.receive_maximum);
    property_model::lemma_slot_lookup(slots, 6);
    assert(property_model::as_u16(property_model::last_with_id(ps, TOPIC_ALIAS_MAXIMUM)) == v.topic_alias_maximum);
    property_model::lemma_slot_lookup(slots, 7);
    assert(property_model::as_pair(property_model::last_with_id(ps, USER_PROPERTY)) == v.user_property);
    property_model::lemma_slot_lookup(slots, 8);
    assert(property_model::as_u32(property_model::last_with_id(ps, MAXIMUM_PACKET_SIZE)) == v.maximum_packet_size);
}

/// Reading back the bytes of a header that can be written gives the header back, and
/// leaves what follows.
#[verifier::spinoff_prover]
#[verifier::rlimit(30)]
pub proof fn lemma_connect_properties_roundtrip(v: ConnectPropertiesView, rest: Seq<u8>)
    requires
        connect_properties_fit(v),
    ensures
        connect_properties_read(connect_properties_bytes(v) + rest) == (Ok::<ConnectPropertiesView, MqttError>(v), rest),
        connect_properties_safe(connect_properties_bytes(v) + rest),
{
    let slots = connect_properties_slots(v);
    let ps = property_model::slot_list(slots);
    let block = variable_header_properties::properties_block_bytes(property_model::properties_bytes(ps).len() as u16, ps);
    lemma_connect_properties_slots(v);
    property_model::lemma_slots_encodable(PropertyTable::Current, slots);
    variable_header_properties::lemma_properties_block_roundtrip(property_model::properties_bytes(ps).len() as u16, ps, rest);
    data_types::lemma_read_text_prefix(v.protocol_name, seq![v.protocol_version] + (seq![v.connect_flags] + (data_types::be16(v.keep_alive as int) + (block + rest))));
    data_types::lemma_read_byte_prefix(v.protocol_version, seq![v.connect_flags] + (data_types::be16(v.keep_alive as int) + (block + rest)));
    data_types::lemma_read_byte_prefix(v.connect_flags, data_types::be16(v.keep_alive as int) + (block + rest));
    data_types::lemma_read_u16_prefix(v.keep_alive, block + rest);
    assert(connect_properties_bytes(v) + rest =~= data_types::text_bytes(v.protocol_name) + (seq![v.protocol_version] + (seq![v.connect_flags] + (data_types::be16(v.keep_alive as int) + (block + rest)))));
}

/// Each field of the CONNECT header is written as the property with its own MQTT 5
/// identifier: Session Expiry Interval 0x11, Authentication Data 0x16, Authentication
/// Method 0x15, Request Problem Information 0x17, Request Response Information 0x19,
/// Receive Maximum 0x21, Topic Alias Maximum 0x22, User Property 0x26 and Maximum
/// Packet Size 0x27.
pub proof fn lemma_connect_property_identifiers(v: ConnectPropertiesView)
    ensures
        ({
            let ps = property_model::slot_list(connect_properties_slots(v));
            &&& property_model::as_u32(property_model::last_with_id(ps, 0x11u8)) == v.session_expiry_interval
            &&& property_model::opt_utf8(property_model::as_binary(property_model::last_with_id(ps, 0x16u8))) == Ok::<Option<Seq<char>>, MqttError>(v.authentication_data)
            &&& property_model::as_text(property_model::last_with_id(ps, 0x15u8)) == v.authentication_method
            &&& property_model::as_u8(property_model::last_with_id(ps, 0x17u8)) == v.request_problem_information
            &&& property_model::as_u8(property_model::last_with_id(ps, 0x19u8)) == v.request_response_information
            &&& property_model::as_u16(property_model::last_with_id(ps, 0x21u8)) == v.receive_maximum
            &&& property_model::as_u16(property_model::last_with_id(ps, 0x22u8)) == v.topic_alias_maximum
            &&& property_model::as_pair(property_model::last_with_id(ps, 0x26u8)) == v.user_property
            &&& property_model::as_u32(property_model::last_with_id(ps, 0x27u8)) == v.maximum_packet_size
        }),
{
    lemma_connect_properties_slots(v);
}

/// The CONNECT variable header starts with the protocol name, then the protocol version,
/// the connect flags and the keep alive, high byte first.
pub proof fn lemma_connect_header_layout(v: ConnectPropertiesView)
    ensures
        ({
            let b = connect_properties_bytes(v);
            let n = data_types::text_bytes(v.protocol_name).len() as int;
            &&& b.subrange(0, n) == data_types::text_bytes(v.protocol_name)
            &&& b[n] == v.protocol_version
            &&& b[n + 1] == v.connect_flags
            &&& b[n + 2] as int * 256 + b[n + 3] as int == v.keep_alive as int
        }),
{
}

} // verus!
