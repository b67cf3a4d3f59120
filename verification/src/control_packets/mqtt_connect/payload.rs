use vstd::prelude::*;
use vstd::utf8::*;

use crate::common::data_types::{read_byte, read_text, read_two_byte_integer, string_len, MqttError};
use crate::common::data_types;
use crate::control_packets::mqtt_packet::packet_property::{append_bytes, clone_opt_pair, clone_opt_string, opt_bytes_to_string, push_text, push_u16, CONTENT_TYPE, CORRELATION_DATA, MESSAGE_EXPIRY_INTERVAL, PAYLOAD_FORMAT_INDICATOR, RESPONSE_TOPIC, USER_PROPERTY, WILL_DELAY_INTERVAL};
use crate::control_packets::mqtt_packet::packet_property;
use crate::control_packets::mqtt_packet::property_model::{PropertyModel, PropertyTable, Slot};
use crate::control_packets::mqtt_packet::property_model;
use crate::control_packets::mqtt_packet::variable_header_properties::VariableHeaderProperties;
use crate::control_packets::mqtt_packet::variable_header_properties;
use crate::common::data_types::{read_nonzero_text, read_opt_text};

verus! {

broadcast use {vstd::utf8::encode_utf8_valid_utf8, vstd::utf8::encode_utf8_decode_utf8};

/// The optional fields that close the payload: will topic, will payload, user name and
/// password, each written only when present.
pub open spec fn connect_tail_bytes(
    t: (Option<Seq<char>>, Option<Seq<char>>, Option<Seq<char>>, Option<Seq<char>>),
) -> Seq<u8> {
    data_types::opt_text_bytes(t.0) + data_types::opt_text_bytes(t.1) + data_types::opt_text_bytes(
        t.2,
    ) + data_types::opt_text_bytes(t.3)
}

/// Reading the optional fields in order: the will topic, user name and password are absent
/// when their length is zero or missing; the will payload is absent when no length is left.
pub open spec fn connect_tail_read(s: Seq<u8>) -> (
    Result<(Option<Seq<char>>, Option<Seq<char>>, Option<Seq<char>>, Option<Seq<char>>), MqttError>,
    Seq<u8>,
) {
    let (will_topic, s1) = data_types::read_nonzero_text_spec(s);
    let (p, s2) = data_types::read_opt_text_spec(s1);
    match p {
        Err(e) => (Err(e), s2),
        Ok(will_payload) => {
            let (username, s3) = data_types::read_nonzero_text_spec(s2);
            let (password, s4) = data_types::read_nonzero_text_spec(s3);
            (Ok((will_topic, will_payload, username, password)), s4)
        },
    }
}

/// Reading the optional fields from this stream does not hit a decoding panic.
pub open spec fn connect_tail_safe(s: Seq<u8>) -> bool {
    let s1 = data_types::read_nonzero_text_spec(s).1;
    let (p, s2) = data_types::read_opt_text_spec(s1);
    &&& data_types::read_nonzero_text_safe(s)
    &&& p is Ok ==> {
        &&& data_types::read_nonzero_text_safe(s2)
        &&& data_types::read_nonzero_text_safe(data_types::read_nonzero_text_spec(s2).1)
    }
}

/// The optional fields can be written.
pub open spec fn connect_tail_fit(
    t: (Option<Seq<char>>, Option<Seq<char>>, Option<Seq<char>>, Option<Seq<char>>),
) -> bool {
    &&& data_types::opt_text_fit(t.0)
    &&& data_types::opt_text_fit(t.1)
    &&& data_types::opt_text_fit(t.2)
    &&& data_types::opt_text_fit(t.3)
}

/// The optional fields read back as written: the will topic, user name and password are
/// not empty when present, and an absent field is followed by absent fields only.
pub open spec fn connect_tail_readable(
    t: (Option<Seq<char>>, Option<Seq<char>>, Option<Seq<char>>, Option<Seq<char>>),
) -> bool {
    &&& t.0 matches Some(x) ==> x.len() > 0
    &&& t.2 matches Some(x) ==> x.len() > 0
    &&& t.3 matches Some(x) ==> x.len() > 0
    &&& t.0 is None ==> t.1 is None && t.2 is None && t.3 is None
    &&& t.1 is None ==> t.2 is None && t.3 is None
    &&& t.2 is None ==> t.3 is None
}

/// Reading back optional fields that can be written and read back gives them back.
#[verifier::spinoff_prover]
#[verifier::rlimit(30)]
pub proof fn lemma_connect_tail_roundtrip(
    t: (Option<Seq<char>>, Option<Seq<char>>, Option<Seq<char>>, Option<Seq<char>>),
    rest: Seq<u8>,
)
    requires
        connect_tail_fit(t),
        connect_tail_readable(t),
        rest.len() == 0,
    ensures
        connect_tail_read(connect_tail_bytes(t) + rest) == (
            Ok::<(Option<Seq<char>>, Option<Seq<char>>, Option<Seq<char>>, Option<Seq<char>>), MqttError>(t),
            rest,
        ),
        connect_tail_safe(connect_tail_bytes(t) + rest),
{
    let b0 = data_types::opt_text_bytes(t.0);
    let b1 = data_types::opt_text_bytes(t.1);
    let b2 = data_types::opt_text_bytes(t.2);
    let b3 = data_types::opt_text_bytes(t.3);
    assert(connect_tail_bytes(t) + rest =~= b0 + (b1 + (b2 + (b3 + rest))));
    data_types::lemma_read_nonzero_text_prefix(t.3, rest);
    if t.2 is None {
        assert(b3 + rest =~= Seq::<u8>::empty());
    }
    data_types::lemma_read_nonzero_text_prefix(t.2, b3 + rest);
    if t.1 is None {
        assert(b2 + (b3 + rest) =~= Seq::<u8>::empty());
    }
    data_types::lemma_read_opt_text_prefix(t.1, b2 + (b3 + rest));
    if t.0 is None {
        assert(b1 + (b2 + (b3 + rest)) =~= Seq::<u8>::empty());
    }
    data_types::lemma_read_nonzero_text_prefix(t.0, b1 + (b2 + (b3 + rest)));
}

/// Appends a present string, length-prefixed.
fn push_opt_text(bytes: &mut Vec<u8>, value: &Option<String>)
    ensures
        final(bytes)@ == old(bytes)@ + data_types::opt_text_bytes(packet_property::opt_string_view(*value)),
{
    if let Some(s) = value {
        push_text(bytes, s);
    } else {
        assert(old(bytes)@ + Seq::<u8>::empty() =~= old(bytes)@);
    }
}

/// The number of bytes of a present string, length-prefixed.
fn opt_text_size(value: &Option<String>) -> (res: u32)
    requires
        data_types::opt_text_fit(packet_property::opt_string_view(*value)),
    ensures
        res == data_types::opt_text_bytes(packet_property::opt_string_view(*value)).len(),
{
    match value {
        Some(s) => 2 + string_len(s) as u32,
        None => 0,
    }
}

/// The payload of a CONNECT packet: the client identifier, the will properties, and the
/// optional will topic, will payload, user name and password.
pub struct ConnectPayload {
    pub client_id: String,
    pub will_delay_interval: Option<u32>,
    pub payload_format_indicator: Option<u8>,
    pub message_expiry_interval: Option<u32>,
    pub content_type: Option<String>,
    pub response_topic: Option<String>,
    pub correlation_data: Option<String>,
    pub user_property: Option<(String, String)>,
    pub will_topic: Option<String>,
    pub will_payload: Option<String>,
    pub username: Option<String>,
    pub password: Option<String>,
}

/// The mathematical value of [`ConnectPayload`].
pub struct ConnectPayloadView {
    pub client_id: Seq<char>,
    pub will_delay_interval: Option<u32>,
    pub payload_format_indicator: Option<u8>,
    pub message_expiry_interval: Option<u32>,
    pub content_type: Option<Seq<char>>,
    pub response_topic: Option<Seq<char>>,
    pub correlation_data: Option<Seq<char>>,
    pub user_property: Option<(Seq<char>, Seq<char>)>,
    pub will_topic: Option<Seq<char>>,
    pub will_payload: Option<Seq<char>>,
    pub username: Option<Seq<char>>,
    pub password: Option<Seq<char>>,
}

impl View for ConnectPayload {
    type V = ConnectPayloadView;

    open spec fn view(&self) -> ConnectPayloadView {
        ConnectPayloadView {
            client_id: self.client_id@,
            will_delay_interval: self.will_delay_interval,
            payload_format_indicator: self.payload_format_indicator,
            message_expiry_interval: self.message_expiry_interval,
            content_type: packet_property::opt_string_view(self.content_type),
            response_topic: packet_property::opt_string_view(self.response_topic),
            correlation_data: packet_property::opt_string_view(self.correlation_data),
            user_property: packet_property::opt_pair_view(self.user_property),
            will_topic: packet_property::opt_string_view(self.will_topic),
            will_payload: packet_property::opt_string_view(self.will_payload),
            username: packet_property::opt_string_view(self.username),
            password: packet_property::opt_string_view(self.password),
        }
    }
}

/// The properties of the header, in the order they are written: each field fills the
/// slot of its identifier.
pub open spec fn connect_payload_slots(v: ConnectPayloadView) -> Seq<Slot> {
    seq![
        (WILL_DELAY_INTERVAL, property_model::opt_u32(v.will_delay_interval)),
        (PAYLOAD_FORMAT_INDICATOR, property_model::opt_u8(v.payload_format_indicator)),
        (MESSAGE_EXPIRY_INTERVAL, property_model::opt_u32(v.message_expiry_interval)),
        (CONTENT_TYPE, property_model::opt_text(v.content_type)),
        (RESPONSE_TOPIC, property_model::opt_text(v.response_topic)),
        (CORRELATION_DATA, property_model::opt_text_binary(v.correlation_data)),
        (USER_PROPERTY, property_model::opt_pair(v.user_property)),
    ]
}

/// The bytes of the header: the client identifier, the will properties block, then the optional
/// fields.
pub open spec fn connect_payload_bytes(v: ConnectPayloadView) -> Seq<u8> {
    let ps = property_model::slot_list(connect_payload_slots(v));
    data_types::text_bytes(v.client_id) + variable_header_properties::properties_block_bytes(property_model::properties_bytes(ps).len() as u16, ps) + connect_tail_bytes((v.will_topic, v.will_payload, v.username, v.password))
}

/// The header that the fixed fields and the decoded properties give, with the payload,: each
/// optional field takes the last property with its identifier.
pub open spec fn connect_payload_from(client_id: Seq<char>, ps: Seq<PropertyModel>, payload: (Option<Seq<char>>, Option<Seq<char>>, Option<Seq<char>>, Option<Seq<char>>)) -> Result<ConnectPayloadView, MqttError> {
    match property_model::opt_utf8(property_model::as_binary(property_model::last_with_id(ps, CORRELATION_DATA))) {
        Err(e) => Err(e),
        Ok(data) => Ok(
            ConnectPayloadView {
                client_id: client_id,
                will_delay_interval: property_model::as_u32(property_model::last_with_id(ps, WILL_DELAY_INTERVAL)),
                payload_format_indicator: property_model::as_u8(property_model::last_with_id(ps, PAYLOAD_FORMAT_INDICATOR)),
                message_expiry_interval: property_model::as_u32(property_model::last_with_id(ps, MESSAGE_EXPIRY_INTERVAL)),
                content_type: property_model::as_text(property_model::last_with_id(ps, CONTENT_TYPE)),
                response_topic: property_model::as_text(property_model::last_with_id(ps, RESPONSE_TOPIC)),
                correlation_data: data,
                user_property: property_model::as_pair(property_model::last_with_id(ps, USER_PROPERTY)),
                will_topic: payload.0,
                will_payload: payload.1,
                username: payload.2,
                password: payload.3,
            },
        ),
    }
}

/// Reading the header from a stream.
pub open spec fn connect_payload_read(s: Seq<u8>) -> (Result<ConnectPayloadView, MqttError>, Seq<u8>) {
    let (r0, s0) = data_types::read_text_spec(s);
    match r0 {
        Err(e) => (Err(e), s0),
        Ok(client_id) => {
            let (b, sb) = variable_header_properties::properties_block_read(s0);
            match b {
                Err(e) => (Err(e), sb),
                Ok((_, ps)) => {
                    let (pl, sp) = connect_tail_read(sb);
                    match pl {
                        Err(e) => (Err(e), sp),
                        Ok(payload) => (connect_payload_from(client_id, ps, payload), sp),
                    }
                },
            }
        },
    }
}

/// Reading the header from this stream does not hit a decoding panic.
pub open spec fn connect_payload_safe(s: Seq<u8>) -> bool {
    let (r0, s0) = data_types::read_text_spec(s);
    r0 is Ok ==> {
        &&& variable_header_properties::properties_block_safe(s0)
        &&& variable_header_properties::properties_block_read(s0).0 is Ok ==> connect_tail_safe(variable_header_properties::properties_block_read(s0).1)
    }
}

/// The header can be written: its properties fit in one block, and its strings and payload fit their length prefixes.
pub open spec fn connect_payload_fit(v: ConnectPayloadView) -> bool {
    &&& property_model::slots_fit(connect_payload_slots(v))
    &&& encode_utf8(v.client_id).len() <= u16::MAX
    &&& connect_tail_fit((v.will_topic, v.will_payload, v.username, v.password))
}

pub open spec fn connect_payload_result(r: Result<ConnectPayload, MqttError>) -> Result<ConnectPayloadView, MqttError> {
    match r {
        Ok(x) => Ok(x@),
        Err(e) => Err(e),
    }
}

impl Clone for ConnectPayload {
    fn clone(&self) -> (res: Self)
        ensures
            res@ == self@,
    {
        ConnectPayload {
            client_id: self.client_id.clone(),
            will_delay_interval: self.will_delay_interval,
            payload_format_indicator: self.payload_format_indicator,
            message_expiry_interval: self.message_expiry_interval,
            content_type: clone_opt_string(&self.content_type),
            response_topic: clone_opt_string(&self.response_topic),
            correlation_data: clone_opt_string(&self.correlation_data),
            user_property: clone_opt_pair(&self.user_property),
            will_topic: clone_opt_string(&self.will_topic),
            will_payload: clone_opt_string(&self.will_payload),
            username: clone_opt_string(&self.username),
            password: clone_opt_string(&self.password),
        }
    }
}

impl Default for ConnectPayload {
    fn default() -> (res: Self)
        ensures
            res@.client_id == Seq::<char>::empty(),
            res@.will_delay_interval is None,
            res@.payload_format_indicator is None,
            res@.message_expiry_interval is None,
            res@.content_type is None,
            res@.response_topic is None,
            res@.correlation_data is None,
            res@.user_property is None,
            res@.will_topic == None::<Seq<char>>,
            res@.will_payload == None::<Seq<char>>,
            res@.username == None::<Seq<char>>,
            res@.password == None::<Seq<char>>,
    {
        ConnectPayload {
            client_id: String::new(),
            will_delay_interval: None,
            payload_format_indicator: None,
            message_expiry_interval: None,
            content_type: None,
            response_topic: None,
            correlation_data: None,
            user_property: None,
            will_topic: None,
            will_payload: None,
            username: None,
            password: None,
        }
    }
}

impl ConnectPayload {
    /// The properties block of the header.
    pub fn as_variable_header_properties(&self) -> (res: Result<VariableHeaderProperties, MqttError>)
        requires
            property_model::slots_fit(connect_payload_slots(self@)),
        ensures
            res matches Ok(b) && b.wf() && b.models() == property_model::slot_list(connect_payload_slots(self@)),
    {
        let ghost slots = connect_payload_slots(self@);
        assert(property_model::slots_typed(PropertyTable::Current, slots));
        let mut variable_props = VariableHeaderProperties::for_slots(Ghost(slots));
        variable_props.put_u32(WILL_DELAY_INTERVAL, self.will_delay_interval, Ghost(slots), Ghost(0));
        variable_props.put_u8(PAYLOAD_FORMAT_INDICATOR, self.payload_format_indicator, Ghost(slots), Ghost(1));
        variable_props.put_u32(MESSAGE_EXPIRY_INTERVAL, self.message_expiry_interval, Ghost(slots), Ghost(2));
        variable_props.put_text(CONTENT_TYPE, &self.content_type, Ghost(slots), Ghost(3));
        variable_props.put_text(RESPONSE_TOPIC, &self.response_topic, Ghost(slots), Ghost(4));
        variable_props.put_text_as_binary(CORRELATION_DATA, &self.correlation_data, Ghost(slots), Ghost(5));
        variable_props.put_pair(USER_PROPERTY, &self.user_property, Ghost(slots), Ghost(6));
        proof {
            variable_header_properties::lemma_holds_all_slots(&variable_props, slots);
        }
        Ok(variable_props)
    }

    /// The number of properties the header carries.
    pub fn variable_props_size(&self) -> (res: u16)
        requires
            property_model::slots_fit(connect_payload_slots(self@)),
        ensures
            res == property_model::slot_list(connect_payload_slots(self@)).len(),
    {
        let header = match self.as_variable_header_properties() {
            Ok(h) => h,
            Err(_) => {
                return 0;
            },
        };
        proof {
            property_model::lemma_slot_list_len(connect_payload_slots(self@));
        }
        header.properties.len() as u16
    }

    /// The number of bytes of the header.
    pub fn size_of(&self) -> (res: u16)
        requires
            connect_payload_fit(self@),
            connect_payload_bytes(self@).len() <= u16::MAX,
        ensures
            res == connect_payload_bytes(self@).len(),
    {
        let variable_props = match self.as_variable_header_properties() {
            Ok(v) => v,
            Err(_) => {
                return 0;
            },
        };
        let tail_size = opt_text_size(&self.will_topic) + opt_text_size(&self.will_payload)
            + opt_text_size(&self.username) + opt_text_size(&self.password);
        (2 + string_len(&self.client_id) as u32 + variable_props.size_of() + tail_size) as u16
    }

    /// The bytes of the header.
    pub fn as_bytes(&self) -> (res: Result<Vec<u8>, MqttError>)
        requires
            connect_payload_fit(self@),
        ensures
            res matches Ok(b) && b@ == connect_payload_bytes(self@),
    {
        let mut bytes: Vec<u8> = Vec::new();
        let variable_header_properties = self.as_variable_header_properties()?;
        push_text(&mut bytes, &self.client_id);
        let block = variable_header_properties.as_bytes();
        append_bytes(&mut bytes, block.as_slice());
        push_opt_text(&mut bytes, &self.will_topic);
        push_opt_text(&mut bytes, &self.will_payload);
        push_opt_text(&mut bytes, &self.username);
        push_opt_text(&mut bytes, &self.password);
        assert(bytes@ =~= connect_payload_bytes(self@));
        Ok(bytes)
    }

    /// Reads the header from a stream.
    pub fn read_from(stream: &mut &[u8]) -> (res: Result<Self, MqttError>)
        requires
            connect_payload_safe(old(stream)@),
        ensures
            (connect_payload_result(res), final(stream)@) == connect_payload_read(old(stream)@),
    {
        let client_id = read_text(stream)?;
        let variable_header_properties = VariableHeaderProperties::read_from(stream)?;
        let ghost ps = variable_header_properties.models();
        let mut will_delay_interval = None;
        let mut payload_format_indicator = None;
        let mut message_expiry_interval = None;
        let mut content_type = None;
        let mut response_topic = None;
        let mut correlation_data = None;
        let mut user_property = None;
        let mut i: usize = 0;
        while i < variable_header_properties.properties.len()
            invariant
                0 <= i <= ps.len(),
                ps == variable_header_properties.models(),
                will_delay_interval == property_model::as_u32(property_model::last_with_id(ps.take(i as int), WILL_DELAY_INTERVAL)),
                payload_format_indicator == property_model::as_u8(property_model::last_with_id(ps.take(i as int), PAYLOAD_FORMAT_INDICATOR)),
                message_expiry_interval == property_model::as_u32(property_model::last_with_id(ps.take(i as int), MESSAGE_EXPIRY_INTERVAL)),
                packet_property::opt_string_view(content_type) == property_model::as_text(property_model::last_with_id(ps.take(i as int), CONTENT_TYPE)),
                packet_property::opt_string_view(response_topic) == property_model::as_text(property_model::last_with_id(ps.take(i as int), RESPONSE_TOPIC)),
                packet_property::opt_bytes_view(correlation_data) == property_model::as_binary(property_model::last_with_id(ps.take(i as int), CORRELATION_DATA)),
                packet_property::opt_pair_view(user_property) == property_model::as_pair(property_model::last_with_id(ps.take(i as int), USER_PROPERTY)),
            decreases ps.len() - i,
        {
            let property = &variable_header_properties.properties[i];
            proof {
                property_model::lemma_last_with_id_step(ps, i as int, WILL_DELAY_INTERVAL);
                property_model::lemma_last_with_id_step(ps, i as int, PAYLOAD_FORMAT_INDICATOR);
                property_model::lemma_last_with_id_step(ps, i as int, MESSAGE_EXPIRY_INTERVAL);
                property_model::lemma_last_with_id_step(ps, i as int, CONTENT_TYPE);
                property_model::lemma_last_with_id_step(ps, i as int, RESPONSE_TOPIC);
                property_model::lemma_last_with_id_step(ps, i as int, CORRELATION_DATA);
                property_model::lemma_last_with_id_step(ps, i as int, USER_PROPERTY);
            }
            let id = property.id();
            if id == WILL_DELAY_INTERVAL {
                will_delay_interval = property.value_u32();
            } else if id == PAYLOAD_FORMAT_INDICATOR {
                payload_format_indicator = property.value_u8();
            } else if id == MESSAGE_EXPIRY_INTERVAL {
                message_expiry_interval = property.value_u32();
            } else if id == CONTENT_TYPE {
                content_type = property.value_string();
            } else if id == RESPONSE_TOPIC {
                response_topic = property.value_string();
            } else if id == CORRELATION_DATA {
                correlation_data = property.value_binary_data();
            } else if id == USER_PROPERTY {
                user_property = property.value_string_pair();
            }
            i += 1;
        }
        proof {
            property_model::lemma_take_all(ps);
        }
        let will_topic = read_nonzero_text(stream);
        let will_payload = read_opt_text(stream)?;
        let username = read_nonzero_text(stream);
        let password = read_nonzero_text(stream);
        let correlation_data = opt_bytes_to_string(correlation_data)?;
        Ok(ConnectPayload {
            client_id,
            will_delay_interval,
            payload_format_indicator,
            message_expiry_interval,
            content_type,
            response_topic,
            correlation_data,
            user_property,
            will_topic,
            will_payload,
            username,
            password,
        })
    }
}

/// The slots of the header carry the kinds their identifiers take, no two share an
/// identifier, and decoding their properties gives the header back.
proof fn lemma_connect_payload_slots(v: ConnectPayloadView)
    ensures
        property_model::slots_typed(PropertyTable::Current, connect_payload_slots(v)),
        property_model::slots_distinct(connect_payload_slots(v)),
        connect_payload_from(v.client_id, property_model::slot_list(connect_payload_slots(v)), (v.will_topic, v.will_payload, v.username, v.password)) == Ok::<ConnectPayloadView, MqttError>(v),
{
    let slots = connect_payload_slots(v);
    let ps = property_model::slot_list(slots);
    assert(property_model::slots_typed(PropertyTable::Current, slots));
    assert(property_model::slots_distinct(slots));
    property_model::lemma_slot_lookup(slots, 0);
    assert(property_model::as_u32(property_model::last_with_id(ps, WILL_DELAY_INTERVAL)) == v.will_delay_interval);
    property_model::lemma_slot_lookup(slots, 1);
    assert(property_model::as_u8(property_model::last_with_id(ps, PAYLOAD_FORMAT_INDICATOR)) == v.payload_format_indicator);
    property_model::lemma_slot_lookup(slots, 2);
    assert(property_model::as_u32(property_model::last_with_id(ps, MESSAGE_EXPIRY_INTERVAL)) == v.message_expiry_interval);
    property_model::lemma_slot_lookup(slots, 3);
    assert(property_model::as_text(property_model::last_with_id(ps, CONTENT_TYPE)) == v.content_type);
    property_model::lemma_slot_lookup(slots, 4);
    assert(property_model::as_text(property_model::last_with_id(ps, RESPONSE_TOPIC)) == v.response_topic);
    property_model::lemma_slot_lookup(slots, 5);
    match v.correlation_data {
        Some(d) => {
            assert(data_types::utf8_spec(encode_utf8(d)) == Ok::<Seq<char>, MqttError>(d));
        },
        None => {},
    }
    assert(property_model::opt_utf8(property_model::as_binary(property_model::last_with_id(ps, CORRELATION_DATA))) == Ok::<Option<Seq<char>>, MqttError>(v.correlation_data));
    property_model::lemma_slot_lookup(slots, 6);
    assert(property_model::as_pair(property_model::last_with_id(ps, USER_PROPERTY)) == v.user_property);
}

/// Reading back the bytes of a header that can be written gives the header back, and
/// leaves what follows.
#[verifier::spinoff_prover]
#[verifier::rlimit(30)]
pub proof fn lemma_connect_payload_roundtrip(v: ConnectPayloadView, rest: Seq<u8>)
    requires
        connect_payload_fit(v),
        rest.len() == 0,
        connect_tail_readable((v.will_topic, v.will_payload, v.username, v.password)),
    ensures
        connect_payload_read(connect_payload_bytes(v) + rest) == (Ok::<ConnectPayloadView, MqttError>(v), rest),
        connect_payload_safe(connect_payload_bytes(v) + rest),
{
    let slots = connect_payload_slots(v);
    let ps = property_model::slot_list(slots);
    let block = variable_header_properties::properties_block_bytes(property_model::properties_bytes(ps).len() as u16, ps);
    lemma_connect_payload_slots(v);
    property_model::lemma_slots_encodable(PropertyTable::Current, slots);
    let tail = connect_tail_bytes((v.will_topic, v.will_payload, v.username, v.password)) + rest;
    lemma_connect_tail_roundtrip((v.will_topic, v.will_payload, v.username, v.password), rest);
    variable_header_properties::lemma_properties_block_roundtrip(property_model::properties_bytes(ps).len() as u16, ps, tail);
    data_types::lemma_read_text_prefix(v.client_id, block + tail);
    assert(connect_payload_bytes(v) + rest =~= data_types::text_bytes(v.client_id) + (block + tail));
}

/// Each field of the CONNECT payload's will properties is written as the property with
/// its own MQTT 5 identifier: Will Delay Interval 0x18, Payload Format Indicator 0x01,
/// Message Expiry Interval 0x02, Content Type 0x03, Response Topic 0x08, Correlation
/// Data 0x09 and User Property 0x26.
pub proof fn lemma_connect_payload_property_identifiers(v: ConnectPayloadView)
    ensures
        ({
            let ps = property_model::slot_list(connect_payload_slots(v));
            &&& property_model::as_u32(property_model::last_with_id(ps, 0x18u8)) == v.will_delay_interval
            &&& property_model::as_u8(property_model::last_with_id(ps, 0x01u8)) == v.payload_format_indicator
            &&& property_model::as_u32(property_model::last_with_id(ps, 0x02u8)) == v.message_expiry_interval
            &&& property_model::as_text(property_model::last_with_id(ps, 0x03u8)) == v.content_type
            &&& property_model::as_text(property_model::last_with_id(ps, 0x08u8)) == v.response_topic
            &&& property_model::opt_utf8(property_model::as_binary(property_model::last_with_id(ps, 0x09u8))) == Ok::<Option<Seq<char>>, MqttError>(v.correlation_data)
            &&& property_model::as_pair(property_model::last_with_id(ps, 0x26u8)) == v.user_property
        }),
{
    lemma_connect_payload_slots(v);
}

/// The CONNECT payload starts with the client identifier and ends with the will topic, the
/// will payload, the user name and the password, in that order, each present only when set.
pub proof fn lemma_connect_payload_layout(v: ConnectPayloadView)
    ensures
        ({
            let b = connect_payload_bytes(v);
            let n = data_types::text_bytes(v.client_id).len() as int;
            let tail = data_types::opt_text_bytes(v.will_topic) + data_types::opt_text_bytes(v.will_payload) + data_types::opt_text_bytes(v.username) + data_types::opt_text_bytes(v.password);
            &&& b.subrange(0, n) == data_types::text_bytes(v.client_id)
            &&& b.subrange(b.len() - tail.len(), b.len() as int) == tail
        }),
{
}

} // verus!
