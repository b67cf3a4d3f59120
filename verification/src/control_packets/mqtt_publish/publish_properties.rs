use vstd::prelude::*;
use vstd::utf8::*;

use crate::common::data_types::{read_byte, read_text, read_two_byte_integer, string_len, MqttError};
use crate::common::data_types;
use crate::control_packets::mqtt_packet::packet_property::{append_bytes, clone_opt_pair, clone_opt_string, opt_bytes_to_string, push_text, push_u16, CONTENT_TYPE, CORRELATION_DATA, MESSAGE_EXPIRY_INTERVAL, PAYLOAD_FORMAT_INDICATOR, RESPONSE_TOPIC, SUBSCRIPTION_IDENTIFIER, TOPIC_ALIAS, USER_PROPERTY};
use crate::control_packets::mqtt_packet::packet_property;
use crate::control_packets::mqtt_packet::property_model::{PropertyModel, PropertyTable, Slot};
use crate::control_packets::mqtt_packet::property_model;
use crate::control_packets::mqtt_packet::variable_header_properties::VariableHeaderProperties;
use crate::control_packets::mqtt_packet::variable_header_properties;
use crate::common::data_types::read_opt_text;

verus! {

broadcast use {vstd::utf8::encode_utf8_valid_utf8, vstd::utf8::encode_utf8_decode_utf8};

/// The variable header and payload of a PUBLISH packet: the topic name, the packet
/// identifier, the optional properties, and the application message.
pub struct PublishProperties {
    pub topic_name: String,
    pub packet_identifier: u16,
    pub payload_format_indicator: Option<u8>,
    pub message_expiry_interval: Option<u32>,
    pub topic_alias: Option<u16>,
    pub response_topic: Option<String>,
    pub correlation_data: Option<String>,
    pub user_property: Option<(String, String)>,
    pub subscription_identifier: Option<u32>,
    pub content_type: Option<String>,
    pub application_message: Option<String>,
}

/// The mathematical value of [`PublishProperties`].
pub struct PublishPropertiesView {
    pub topic_name: Seq<char>,
    pub packet_identifier: u16,
    pub payload_format_indicator: Option<u8>,
    pub message_expiry_interval: Option<u32>,
    pub topic_alias: Option<u16>,
    pub response_topic: Option<Seq<char>>,
    pub correlation_data: Option<Seq<char>>,
    pub user_property: Option<(Seq<char>, Seq<char>)>,
    pub subscription_identifier: Option<u32>,
    pub content_type: Option<Seq<char>>,
    pub application_message: Option<Seq<char>>,
}

impl View for PublishProperties {
    type V = PublishPropertiesView;

    open spec fn view(&self) -> PublishPropertiesView {
        PublishPropertiesView {
            topic_name: self.topic_name@,
            packet_identifier: self.packet_identifier,
            payload_format_indicator: self.payload_format_indicator,
            message_expiry_interval: self.message_expiry_interval,
            topic_alias: self.topic_alias,
            response_topic: packet_property::opt_string_view(self.response_topic),
            correlation_data: packet_property::opt_string_view(self.correlation_data),
            user_property: packet_property::opt_pair_view(self.user_property),
            subscription_identifier: self.subscription_identifier,
            content_type: packet_property::opt_string_view(self.content_type),
            application_message: packet_property::opt_string_view(self.application_message),
        }
    }
}

/// The properties of the header, in the order they are written: each field fills the
/// slot of its identifier.
pub open spec fn publish_properties_slots(v: PublishPropertiesView) -> Seq<Slot> {
    seq![
        (PAYLOAD_FORMAT_INDICATOR, property_model::opt_u8(v.payload_format_indicator)),
        (MESSAGE_EXPIRY_INTERVAL, property_model::opt_u32(v.message_expiry_interval)),
        (TOPIC_ALIAS, property_model::opt_u16(v.topic_alias)),
        (RESPONSE_TOPIC, property_model::opt_text(v.response_topic)),
        (CORRELATION_DATA, property_model::opt_text_binary(v.correlation_data)),
        (USER_PROPERTY, property_model::opt_pair(v.user_property)),
        (SUBSCRIPTION_IDENTIFIER, property_model::opt_vbi(v.subscription_identifier)),
        (CONTENT_TYPE, property_model::opt_text(v.content_type)),
    ]
}

/// The bytes of the header: the topic name, the packet identifier, the properties block, then the
/// application message.
pub open spec fn publish_properties_bytes(v: PublishPropertiesView) -> Seq<u8> {
    let ps = property_model::slot_list(publish_properties_slots(v));
    data_types::text_bytes(v.topic_name) + data_types::be16(v.packet_identifier as int) + variable_header_properties::properties_block_bytes(property_model::properties_bytes(ps).len() as u16, ps) + data_types::opt_text_bytes(v.application_message)
}

/// The header that the fixed fields and the decoded properties give, with the payload,: each
/// optional field takes the last property with its identifier.
pub open spec fn publish_properties_from(topic_name: Seq<char>, packet_identifier: u16, ps: Seq<PropertyModel>, payload: Option<Seq<char>>) -> Result<PublishPropertiesView, MqttError> {
    match property_model::opt_utf8(property_model::as_binary(property_model::last_with_id(ps, CORRELATION_DATA))) {
        Err(e) => Err(e),
        Ok(data) => Ok(
            PublishPropertiesView {
                topic_name: topic_name,
                packet_identifier: packet_identifier,
                payload_format_indicator: property_model::as_u8(property_model::last_with_id(ps, PAYLOAD_FORMAT_INDICATOR)),
                message_expiry_interval: property_model::as_u32(property_model::last_with_id(ps, MESSAGE_EXPIRY_INTERVAL)),
                topic_alias: property_model::as_u16(property_model::last_with_id(ps, TOPIC_ALIAS)),
                response_topic: property_model::as_text(property_model::last_with_id(ps, RESPONSE_TOPIC)),
                correlation_data: data,
                user_property: property_model::as_pair(property_model::last_with_id(ps, USER_PROPERTY)),
                subscription_identifier: property_model::as_vbi(property_model::last_with_id(ps, SUBSCRIPTION_IDENTIFIER)),
                content_type: property_model::as_text(property_model::last_with_id(ps, CONTENT_TYPE)),
                application_message: payload,
            },
        ),
    }
}

/// Reading the header from a stream.
pub open spec fn publish_properties_read(s: Seq<u8>) -> (Result<PublishPropertiesView, MqttError>, Seq<u8>) {
    let (r0, s0) = data_types::read_text_spec(s);
    match r0 {
        Err(e) => (Err(e), s0),
        Ok(topic_name) => {
            let (r1, s1) = data_types::read_u16_spec(s0);
            match r1 {
                Err(e) => (Err(e), s1),
                Ok(packet_identifier) => {
                    let (b, sb) = variable_header_properties::properties_block_read(s1);
                    match b {
                        Err(e) => (Err(e), sb),
                        Ok((_, ps)) => {
                            let (pl, sp) = data_types::read_opt_text_spec(sb);
                            match pl {
                                Err(e) => (Err(e), sp),
                                Ok(payload) => (publish_properties_from(topic_name, packet_identifier, ps, payload), sp),
                            }
                        },
                    }
                },
            }
        },
    }
}

/// Reading the header from this stream does not hit a decoding panic.
pub open spec fn publish_properties_safe(s: Seq<u8>) -> bool {
    let (r0, s0) = data_types::read_text_spec(s);
    r0 is Ok ==> {
        let (r1, s1) = data_types::read_u16_spec(s0);
        r1 is Ok ==> {
            variable_header_properties::properties_block_safe(s1)
        }
    }
}

/// The header can be written: its properties fit in one block, and its strings and payload fit their length prefixes.
pub open spec fn publish_properties_fit(v: PublishPropertiesView) -> bool {
    &&& property_model::slots_fit(publish_properties_slots(v))
    &&& encode_utf8(v.topic_name).len() <= u16::MAX
    &&& data_types::opt_text_fit(v.application_message)
}

pub open spec fn publish_properties_result(r: Result<PublishProperties, MqttError>) -> Result<PublishPropertiesView, MqttError> {
    match r {
        Ok(x) => Ok(x@),
        Err(e) => Err(e),
    }
}

impl Clone for PublishProperties {
    fn clone(&self) -> (res: Self)
        ensures
            res@ == self@,
    {
        PublishProperties {
            topic_name: self.topic_name.clone(),
            packet_identifier: self.packet_identifier,
            payload_format_indicator: self.payload_format_indicator,
            message_expiry_interval: self.message_expiry_interval,
            topic_alias: self.topic_alias,
            response_topic: clone_opt_string(&self.response_topic),
            correlation_data: clone_opt_string(&self.correlation_data),
            user_property: clone_opt_pair(&self.user_property),
            subscription_identifier: self.subscription_identifier,
            content_type: clone_opt_string(&self.content_type),
            application_message: clone_opt_string(&self.application_message),
        }
    }
}

impl Default for PublishProperties {
    fn default() -> (res: Self)
        ensures
            res@.topic_name == Seq::<char>::empty(),
            res@.packet_identifier == 0,
            res@.payload_format_indicator is None,
            res@.message_expiry_interval is None,
            res@.topic_alias is None,
            res@.response_topic is None,
            res@.correlation_data is None,
            res@.user_property is None,
            res@.subscription_identifier is None,
            res@.content_type is None,
            res@.application_message == None::<Seq<char>>,
    {
        PublishProperties {
            topic_name: String::new(),
            packet_identifier: 0,
            payload_format_indicator: None,
            message_expiry_interval: None,
            topic_alias: None,
            response_topic: None,
            correlation_data: None,
            user_property: None,
            subscription_identifier: None,
            content_type: None,
            application_message: None,
        }
    }
}

impl PublishProperties {
    /// The properties block of the header.
    pub fn as_variable_header_properties(&self) -> (res: Result<VariableHeaderProperties, MqttError>)
        requires
            property_model::slots_fit(publish_properties_slots(self@)),
        ensures
            res matches Ok(b) && b.wf() && b.models() == property_model::slot_list(publish_properties_slots(self@)),
    {
        let ghost slots = publish_properties_slots(self@);
        assert(property_model::slots_typed(PropertyTable::Current, slots));
        let mut variable_props = VariableHeaderProperties::for_slots(Ghost(slots));
        variable_props.put_u8(PAYLOAD_FORMAT_INDICATOR, self.payload_format_indicator, Ghost(slots), Ghost(0));
        variable_props.put_u32(MESSAGE_EXPIRY_INTERVAL, self.message_expiry_interval, Ghost(slots), Ghost(1));
        variable_props.put_u16(TOPIC_ALIAS, self.topic_alias, Ghost(slots), Ghost(2));
        variable_props.put_text(RESPONSE_TOPIC, &self.response_topic, Ghost(slots), Ghost(3));
        variable_props.put_text_as_binary(CORRELATION_DATA, &self.correlation_data, Ghost(slots), Ghost(4));
        variable_props.put_pair(USER_PROPERTY, &self.user_property, Ghost(slots), Ghost(5));
        variable_props.put_vbi(SUBSCRIPTION_IDENTIFIER, self.subscription_identifier, Ghost(slots), Ghost(6));
        variable_props.put_text(CONTENT_TYPE, &self.content_type, Ghost(slots), Ghost(7));
        proof {
            variable_header_properties::lemma_holds_all_slots(&variable_props, slots);
        }
        Ok(variable_props)
    }

    /// The number of bytes of the header.
    pub fn size_of(&self) -> (res: u32)
        requires
            publish_properties_fit(self@),
            publish_properties_bytes(self@).len() <= u32::MAX,
        ensures
            res == publish_properties_bytes(self@).len(),
    {
        let variable_props = match self.as_variable_header_properties() {
            Ok(v) => v,
            Err(_) => {
                return 0;
            },
        };
        let message_size: u32 = match &self.application_message {
            Some(m) => 2 + string_len(m) as u32,
            None => 0,
        };
        2 + string_len(&self.topic_name) as u32 + 2 + variable_props.size_of() + message_size
    }

    /// The bytes of the header.
    pub fn as_bytes(&self) -> (res: Result<Vec<u8>, MqttError>)
        requires
            publish_properties_fit(self@),
        ensures
            res matches Ok(b) && b@ == publish_properties_bytes(self@),
    {
        let mut bytes: Vec<u8> = Vec::new();
        let variable_header_properties = self.as_variable_header_properties()?;
        push_text(&mut bytes, &self.topic_name);
        push_u16(&mut bytes, self.packet_identifier);
        let block = variable_header_properties.as_bytes();
        append_bytes(&mut bytes, block.as_slice());
        if let Some(m) = &self.application_message {
            push_text(&mut bytes, m);
        }
        assert(bytes@ =~= publish_properties_bytes(self@));
        Ok(bytes)
    }

    /// Reads the header from a stream.
    pub fn read_from(stream: &mut &[u8]) -> (res: Result<Self, MqttError>)
        requires
            publish_properties_safe(old(stream)@),
        ensures
            (publish_properties_result(res), final(stream)@) == publish_properties_read(old(stream)@),
    {
        let topic_name = read_text(stream)?;
        let packet_identifier = read_two_byte_integer(stream)?;
        let variable_header_properties = VariableHeaderProperties::read_from(stream)?;
        let ghost ps = variable_header_properties.models();
        let mut payload_format_indicator = None;
        let mut message_expiry_interval = None;
        let mut topic_alias = None;
        let mut response_topic = None;
        let mut correlation_data = None;
        let mut user_property = None;
        let mut subscription_identifier = None;
        let mut content_type = None;
        let mut i: usize = 0;
        while i < variable_header_properties.properties.len()
            invariant
                0 <= i <= ps.len(),
                ps == variable_header_properties.models(),
                payload_format_indicator == property_model::as_u8(property_model::last_with_id(ps.take(i as int), PAYLOAD_FORMAT_INDICATOR)),
                message_expiry_interval == property_model::as_u32(property_model::last_with_id(ps.take(i as int), MESSAGE_EXPIRY_INTERVAL)),
                topic_alias == property_model::as_u16(property_model::last_with_id(ps.take(i as int), TOPIC_ALIAS)),
                packet_property::opt_string_view(response_topic) == property_model::as_text(property_model::last_with_id(ps.take(i as int), RESPONSE_TOPIC)),
                packet_property::opt_bytes_view(correlation_data) == property_model::as_binary(property_model::last_with_id(ps.take(i as int), CORRELATION_DATA)),
                packet_property::opt_pair_view(user_property) == property_model::as_pair(property_model::last_with_id(ps.take(i as int), USER_PROPERTY)),
                subscription_identifier == property_model::as_vbi(property_model::last_with_id(ps.take(i as int), SUBSCRIPTION_IDENTIFIER)),
                packet_property::opt_string_view(content_type) == property_model::as_text(property_model::last_with_id(ps.take(i as int), CONTENT_TYPE)),
            decreases ps.len() - i,
        {
            let property = &variable_header_properties.properties[i];
            proof {
                property_model::lemma_last_with_id_step(ps, i as int, PAYLOAD_FORMAT_INDICATOR);
                property_model::lemma_last_with_id_step(ps, i as int, MESSAGE_EXPIRY_INTERVAL);
                property_model::lemma_last_with_id_step(ps, i as int, TOPIC_ALIAS);
                property_model::lemma_last_with_id_step(ps, i as int, RESPONSE_TOPIC);
                property_model::lemma_last_with_id_step(ps, i as int, CORRELATION_DATA);
                property_model::lemma_last_with_id_step(ps, i as int, USER_PROPERTY);
                property_model::lemma_last_with_id_step(ps, i as int, SUBSCRIPTION_IDENTIFIER);
                property_model::lemma_last_with_id_step(ps, i as int, CONTENT_TYPE);
            }
            let id = property.id();
            if id == PAYLOAD_FORMAT_INDICATOR {
                payload_format_indicator = property.value_u8();
            } else if id == MESSAGE_EXPIRY_INTERVAL {
                message_expiry_interval = property.value_u32();
            } else if id == TOPIC_ALIAS {
                topic_alias = property.value_u16();
            } else if id == RESPONSE_TOPIC {
                response_topic = property.value_string();
            } else if id == CORRELATION_DATA {
                correlation_data = property.value_binary_data();
            } else if id == USER_PROPERTY {
                user_property = property.value_string_pair();
            } else if id == SUBSCRIPTION_IDENTIFIER {
                subscription_identifier = property.value_variable_byte_integer();
            } else if id == CONTENT_TYPE {
                content_type = property.value_string();
            }
            i += 1;
        }
        proof {
            property_model::lemma_take_all(ps);
        }
        let application_message = read_opt_text(stream)?;
        let correlation_data = opt_bytes_to_string(correlation_data)?;
        Ok(PublishProperties {
            topic_name,
            packet_identifier,
            payload_format_indicator,
            message_expiry_interval,
            topic_alias,
            response_topic,
            correlation_data,
            user_property,
            subscription_identifier,
            content_type,
            application_message,
        })
    }
}

/// The slots of the header carry the kinds their identifiers take, no two share an
/// identifier, and decoding their properties gives the header back.
proof fn lemma_publish_properties_slots(v: PublishPropertiesView)
    ensures
        property_model::slots_typed(PropertyTable::Current, publish_properties_slots(v)),
        property_model::slots_distinct(publish_properties_slots(v)),
        publish_properties_from(v.topic_name, v.packet_identifier, property_model::slot_list(publish_properties_slots(v)), v.application_message) == Ok::<PublishPropertiesView, MqttError>(v),
{
    let slots = publish_properties_slots(v);
    let ps = property_model::slot_list(slots);
    assert(property_model::slots_typed(PropertyTable::Current, slots));
    assert(property_model::slots_distinct(slots));
    property_model::lemma_slot_lookup(slots, 0);
    assert(property_model::as_u8(property_model::last_with_id(ps, PAYLOAD_FORMAT_INDICATOR)) == v.payload_format_indicator);
    property_model::lemma_slot_lookup(slots, 1);
    assert(property_model::as_u32(property_model::last_with_id(ps, MESSAGE_EXPIRY_INTERVAL)) == v.message_expiry_interval);
    property_model::lemma_slot_lookup(slots, 2);
    assert(property_model::as_u16(property_model::last_with_id(ps, TOPIC_ALIAS)) == v.topic_alias);
    property_model::lemma_slot_lookup(slots, 3);
    assert(property_model::as_text(property_model::last_with_id(ps, RESPONSE_TOPIC)) == v.response_topic);
    property_model::lemma_slot_lookup(slots, 4);
    match v.correlation_data {
        Some(d) => {
            assert(data_types::utf8_spec(encode_utf8(d)) == Ok::<Seq<char>, MqttError>(d));
        },
        None => {},
    }
    assert(property_model::opt_utf8(property_model::as_binary(property_model::last_with_id(ps, CORRELATION_DATA))) == Ok::<Option<Seq<char>>, MqttError>(v.correlation_data));
    property_model::lemma_slot_lookup(slots, 5);
    assert(property_model::as_pair(property_model::last_with_id(ps, USER_PROPERTY)) == v.user_property);
    property_model::lemma_slot_lookup(slots, 6);
    assert(property_model::as_vbi(property_model::last_with_id(ps, SUBSCRIPTION_IDENTIFIER)) == v.subscription_identifier);
    property_model::lemma_slot_lookup(slots, 7);
    assert(property_model::as_text(property_model::last_with_id(ps, CONTENT_TYPE)) == v.content_type);
}

/// Reading back the bytes of a header that can be written gives the header back, and
/// leaves what follows.
#[verifier::spinoff_prover]
#[verifier::rlimit(30)]
pub proof fn lemma_publish_properties_roundtrip(v: PublishPropertiesView, rest: Seq<u8>)
    requires
        publish_properties_fit(v),
        rest.len() == 0,
    ensures
        publish_properties_read(publish_properties_bytes(v) + rest) == (Ok::<PublishPropertiesView, MqttError>(v), rest),
        publish_properties_safe(publish_properties_bytes(v) + rest),
{
    let slots = publish_properties_slots(v);
    let ps = property_model::slot_list(slots);
    let block = variable_header_properties::properties_block_bytes(property_model::properties_bytes(ps).len() as u16, ps);
    lemma_publish_properties_slots(v);
    property_model::lemma_slots_encodable(PropertyTable::Current, slots);
    let tail = data_types::opt_text_bytes(v.application_message) + rest;
    data_types::lemma_read_opt_text_prefix(v.application_message, rest);
    variable_header_properties::lemma_properties_block_roundtrip(property_model::properties_bytes(ps).len() as u16, ps, tail);
    data_types::lemma_read_text_prefix(v.topic_name, data_types::be16(v.packet_identifier as int) + (block + tail));
    data_types::lemma_read_u16_prefix(v.packet_identifier, block + tail);
    assert(publish_properties_bytes(v) + rest =~= data_types::text_bytes(v.topic_name) + (data_types::be16(v.packet_identifier as int) + (block + tail)));
}

/// Each field of the PUBLISH header is written as the property with its own MQTT 5
/// identifier: Payload Format Indicator 0x01, Message Expiry Interval 0x02, Topic Alias
/// 0x23, Response Topic 0x08, Correlation Data 0x09, User Property 0x26, Subscription
/// Identifier 0x0B and Content Type 0x03.
pub proof fn lemma_publish_property_identifiers(v: PublishPropertiesView)
    ensures
        ({
            let ps = property_model::slot_list(publish_properties_slots(v));
            &&& property_model::as_u8(property_model::last_with_id(ps, 0x01u8)) == v.payload_format_indicator
            &&& property_model::as_u32(property_model::last_with_id(ps, 0x02u8)) == v.message_expiry_interval
            &&& property_model::as_u16(property_model::last_with_id(ps, 0x23u8)) == v.topic_alias
            &&& property_model::as_text(property_model::last_with_id(ps, 0x08u8)) == v.response_topic
            &&& property_model::opt_utf8(property_model::as_binary(property_model::last_with_id(ps, 0x09u8))) == Ok::<Option<Seq<char>>, MqttError>(v.correlation_data)
            &&& property_model::as_pair(property_model::last_with_id(ps, 0x26u8)) == v.user_property
            &&& property_model::as_vbi(property_model::last_with_id(ps, 0x0Bu8)) == v.subscription_identifier
            &&& property_model::as_text(property_model::last_with_id(ps, 0x03u8)) == v.content_type
        }),
{
    lemma_publish_properties_slots(v);
}

/// The PUBLISH variable header starts with the topic name, then the packet identifier,
/// high byte first.
pub proof fn lemma_publish_header_layout(v: PublishPropertiesView)
    ensures
        ({
            let b = publish_properties_bytes(v);
            let n = data_types::text_bytes(v.topic_name).len() as int;
            &&& b.subrange(0, n) == data_types::text_bytes(v.topic_name)
            &&& b[n] as int * 256 + b[n + 1] as int == v.packet_identifier as int
        }),
{
}

} // verus!
