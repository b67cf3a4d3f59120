use vstd::prelude::*;
use vstd::utf8::*;

use crate::common::data_types::{
    read_two_byte_integer, read_utf8_encoded_string, string_bytes, MqttError,
};
use crate::common::data_types;
use crate::control_packets::mqtt_packet::packet_property::{append_bytes, push_u16};
use crate::control_packets::mqtt_packet::property_list::PropertyList;
use crate::control_packets::mqtt_packet::property_list;
use crate::control_packets::mqtt_packet::property_model::{PropertyModel, PropertyValue};
use crate::control_packets::mqtt_packet::property_model;
use crate::control_packets::mqtt_packet::variable_header_properties;
use crate::control_packets::mqtt_packet::variable_header_property::{
    CONTENT_TYPE, CORRELATION_DATA, MESSAGE_EXPIRY_INTERVAL, PAYLOAD_FORMAT_INDICATOR,
    RESPONSE_TOPIC, SUBSCRIPTION_IDENTIFIER, TOPIC_ALIAS, USER_PROPERTY,
};

verus! {

broadcast use {vstd::utf8::encode_utf8_valid_utf8, vstd::utf8::encode_utf8_decode_utf8};

/// The properties of a PUBLISH variable header in the older layout, all present.
pub struct _PublishProperties {
    pub payload_format_indicator: u8,
    pub message_expiry_interval: u32,
    pub content_type: String,
    pub response_topic: String,
    pub correlation_data: u16,
    pub subscription_identifier: u32,
    pub topic_alias: u16,
    pub user_property_key: String,
    pub user_property_value: String,
}

/// The topic name of a PUBLISH variable header: the length recorded for it, and the name.
pub struct _VariableHeaderTopicName {
    pub length: u16,
    pub name: String,
}

/// The variable header of a PUBLISH packet in the older layout: the topic name, the packet
/// identifier and a properties block of the older table.
pub struct _PublishVariableHeader {
    pub topic_name: _VariableHeaderTopicName,
    pub packet_identifier: u16,
    pub properties: PropertyList,
}

/// The properties of the header, in the order they are added.
pub open spec fn publish_legacy_models(p: _PublishProperties) -> Seq<PropertyModel> {
    seq![
        PropertyModel { id: PAYLOAD_FORMAT_INDICATOR, value: PropertyValue::Byte(p.payload_format_indicator) },
        PropertyModel { id: MESSAGE_EXPIRY_INTERVAL, value: PropertyValue::FourBytes(p.message_expiry_interval) },
        PropertyModel { id: CONTENT_TYPE, value: PropertyValue::Text(p.content_type@) },
        PropertyModel { id: RESPONSE_TOPIC, value: PropertyValue::Text(p.response_topic@) },
        PropertyModel { id: CORRELATION_DATA, value: PropertyValue::TwoBytes(p.correlation_data) },
        PropertyModel { id: SUBSCRIPTION_IDENTIFIER, value: PropertyValue::FourBytes(p.subscription_identifier) },
        PropertyModel { id: TOPIC_ALIAS, value: PropertyValue::TwoBytes(p.topic_alias) },
        PropertyModel { id: USER_PROPERTY, value: PropertyValue::TextPair(p.user_property_key@, p.user_property_value@) },
    ]
}

/// The properties fit in one block.
pub open spec fn publish_legacy_fit(p: _PublishProperties) -> bool {
    2 + 5 + 3 + encode_utf8(p.content_type@).len() + 3 + encode_utf8(p.response_topic@).len() + 3 + 5
        + 3 + 5 + encode_utf8(p.user_property_key@).len() + encode_utf8(p.user_property_value@).len()
        <= u16::MAX
}

/// The bytes of the header: the recorded length of the topic name, the name, the packet
/// identifier, then the block.
pub open spec fn publish_legacy_bytes(
    length: u16,
    name: Seq<char>,
    packet_identifier: u16,
    bytes_length: u16,
    ps: Seq<PropertyModel>,
) -> Seq<u8> {
    data_types::be16(length as int) + encode_utf8(name) + data_types::be16(packet_identifier as int)
        + variable_header_properties::properties_block_bytes(bytes_length, ps)
}

/// Reading the header from a stream: the length of the name, the name, the packet
/// identifier, then a block of the older table.
pub open spec fn publish_legacy_read(s: Seq<u8>) -> (
    Result<(u16, Seq<char>, u16, u16, Seq<PropertyModel>), MqttError>,
    Seq<u8>,
) {
    let (l, s1) = data_types::read_u16_spec(s);
    match l {
        Err(e) => (Err(e), s1),
        Ok(length) => {
            let (t, s2) = data_types::read_string_spec(s1, length as int);
            match t {
                Err(e) => (Err(e), s2),
                Ok(name) => {
                    let (i, s3) = data_types::read_u16_spec(s2);
                    match i {
                        Err(e) => (Err(e), s3),
                        Ok(packet_identifier) => match property_list::list_block_read(s3) {
                            (Err(e), s4) => (Err(e), s4),
                            (Ok((n, ps)), s4) => (Ok((length, name, packet_identifier, n, ps)), s4),
                        },
                    }
                },
            }
        },
    }
}

/// Reading the header from this stream does not hit a decoding panic.
pub open spec fn publish_legacy_safe(s: Seq<u8>) -> bool {
    let n = if s.len() >= 2 {
        data_types::u16_of(s[0], s[1]) as int
    } else {
        0
    };
    s.len() >= 4 + n ==> property_list::list_block_safe(s.skip(4 + n))
}

/// The properties block of a PUBLISH variable header in the older layout.
pub fn _new_publish_properties(publish_props: _PublishProperties) -> (res: Result<PropertyList, MqttError>)
    requires
        publish_legacy_fit(publish_props),
    ensures
        res matches Ok(l) && l.wf() && l.models() == publish_legacy_models(publish_props),
{
    let ghost p = publish_props;
    let mut variable_props = PropertyList::new();
    variable_props.add_u8_property(PAYLOAD_FORMAT_INDICATOR, publish_props.payload_format_indicator)?;
    variable_props.add_u32_property(MESSAGE_EXPIRY_INTERVAL, publish_props.message_expiry_interval)?;
    variable_props.add_utf8_string_property(CONTENT_TYPE, publish_props.content_type)?;
    variable_props.add_utf8_string_property(RESPONSE_TOPIC, publish_props.response_topic)?;
    variable_props.add_u16_property(CORRELATION_DATA, publish_props.correlation_data)?;
    variable_props.add_u32_property(SUBSCRIPTION_IDENTIFIER, publish_props.subscription_identifier)?;
    variable_props.add_u16_property(TOPIC_ALIAS, publish_props.topic_alias)?;
    variable_props.add_utf8_pair_string_property(
        USER_PROPERTY,
        publish_props.user_property_key,
        publish_props.user_property_value,
    )?;
    proof {
        assert(variable_props.models() =~= publish_legacy_models(p));
        lemma_publish_legacy_models(p);
    }
    Ok(variable_props)
}

/// The length and the validity of the properties of the header.
proof fn lemma_publish_legacy_models(p: _PublishProperties)
    requires
        publish_legacy_fit(p),
    ensures
        property_model::properties_bytes(publish_legacy_models(p)).len() == 2 + 5 + 3 + encode_utf8(
            p.content_type@,
        ).len() + 3 + encode_utf8(p.response_topic@).len() + 3 + 5 + 3 + 5 + encode_utf8(
            p.user_property_key@,
        ).len() + encode_utf8(p.user_property_value@).len(),
        property_model::all_encodable(
            crate::control_packets::mqtt_packet::property_model::PropertyTable::Legacy,
            publish_legacy_models(p),
        ),
{
    reveal_with_fuel(property_model::properties_bytes, 9);
}

impl _PublishVariableHeader {
    /// The number of bytes of the header, not counting the two-byte length of the block.
    pub fn _length(&self) -> (res: u8)
        requires
            2 + self.topic_name.length + 2 + self.properties.bytes_length <= u8::MAX,
        ensures
            res == 2 + self.topic_name.length + 2 + self.properties.bytes_length,
    {
        (2 + self.topic_name.length + 2 + self.properties.bytes_length) as u8
    }

    /// The header with the given topic name, packet identifier and properties.
    pub fn _new(
        topic_name_length: u16,
        topic_name: String,
        packet_identifier: u16,
        props: _PublishProperties,
    ) -> (res: Result<Self, MqttError>)
        requires
            publish_legacy_fit(props),
        ensures
            res matches Ok(h) && h.topic_name.length == topic_name_length && h.topic_name.name
                == topic_name && h.packet_identifier == packet_identifier && h.properties.wf()
                && h.properties.models() == publish_legacy_models(props),
    {
        let properties = _new_publish_properties(props)?;
        let variable_header = _PublishVariableHeader {
            topic_name: _VariableHeaderTopicName { length: topic_name_length, name: topic_name },
            packet_identifier,
            properties,
        };
        Ok(variable_header)
    }

    /// The bytes of the header.
    pub fn _as_bytes(&self) -> (res: Vec<u8>)
        ensures
            res@ == publish_legacy_bytes(
                self.topic_name.length,
                self.topic_name.name@,
                self.packet_identifier,
                self.properties.bytes_length,
                self.properties.models(),
            ),
    {
        let mut bytes: Vec<u8> = Vec::new();
        push_u16(&mut bytes, self.topic_name.length);
        append_bytes(&mut bytes, string_bytes(&self.topic_name.name));
        push_u16(&mut bytes, self.packet_identifier);
        let block = self.properties.as_bytes();
        append_bytes(&mut bytes, block.as_slice());
        assert(bytes@ =~= publish_legacy_bytes(
            self.topic_name.length,
            self.topic_name.name@,
            self.packet_identifier,
            self.properties.bytes_length,
            self.properties.models(),
        ));
        bytes
    }

    /// Reads the header from a stream.
    pub fn _read_from(stream: &mut &[u8]) -> (res: Result<Self, MqttError>)
        requires
            publish_legacy_safe(old(stream)@),
        ensures
            ({
                let (r, rest) = publish_legacy_read(old(stream)@);
                &&& final(stream)@ == rest
                &&& match res {
                    Ok(h) => r == Ok::<(u16, Seq<char>, u16, u16, Seq<PropertyModel>), MqttError>(
                        (
                            h.topic_name.length,
                            h.topic_name.name@,
                            h.packet_identifier,
                            h.properties.bytes_length,
                            h.properties.models(),
                        ),
                    ),
                    Err(e) => r == Err::<(u16, Seq<char>, u16, u16, Seq<PropertyModel>), MqttError>(e),
                }
            }),
    {
        let ghost s0 = stream@;
        let topic_name_length = read_two_byte_integer(stream)?;
        let topic_name = read_utf8_encoded_string(stream, topic_name_length)?;
        let packet_identifier = read_two_byte_integer(stream)?;
        assert(stream@ =~= s0.skip(4 + topic_name_length));
        let properties = PropertyList::read_from(stream)?;
        Ok(_PublishVariableHeader {
            topic_name: _VariableHeaderTopicName { length: topic_name_length, name: topic_name },
            packet_identifier,
            properties,
        })
    }
}

/// Reading back the bytes of a header whose recorded name length is the length of the name
/// and whose block is well formed gives the header back.
#[verifier::spinoff_prover]
#[verifier::rlimit(30)]
pub proof fn lemma_publish_legacy_roundtrip(
    name: Seq<char>,
    packet_identifier: u16,
    l: PropertyList,
    rest: Seq<u8>,
)
    requires
        encode_utf8(name).len() <= u16::MAX,
        l.wf(),
    ensures
        ({
            let length = encode_utf8(name).len() as u16;
            let b = publish_legacy_bytes(length, name, packet_identifier, l.bytes_length, l.models());
            &&& publish_legacy_read(b + rest) == (
                Ok::<(u16, Seq<char>, u16, u16, Seq<PropertyModel>), MqttError>(
                    (length, name, packet_identifier, l.bytes_length, l.models()),
                ),
                rest,
            )
            &&& publish_legacy_safe(b + rest)
        }),
{
    let e = encode_utf8(name);
    let length = e.len() as u16;
    let block = variable_header_properties::properties_block_bytes(l.bytes_length, l.models());
    let b = publish_legacy_bytes(length, name, packet_identifier, l.bytes_length, l.models());
    property_list::lemma_list_block_roundtrip(l.bytes_length, l.models(), rest);
    data_types::lemma_read_u16_prefix(packet_identifier, block + rest);
    let t = data_types::be16(packet_identifier as int) + (block + rest);
    data_types::lemma_read_u16_prefix(length, e + t);
    assert(b + rest =~= data_types::be16(length as int) + (e + t));
    assert((e + t).take(length as int) =~= e);
    assert((e + t).skip(length as int) =~= t);
    assert((b + rest).skip(4 + length) =~= block + rest);
}

} // verus!
