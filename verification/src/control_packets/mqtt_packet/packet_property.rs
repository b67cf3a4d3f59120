use vstd::prelude::*;

use crate::common::data_types::{binary_data_from_be_bytes, byte_integer_from_be_bytes, four_byte_integer_from_be_bytes, string_bytes, string_len, two_byte_integer_from_be_bytes, utf8_string_from_be_bytes, variable_byte_integer_encode, variable_byte_integer_from_be_bytes, MqttError};
use crate::common::data_types;
use crate::control_packets::mqtt_packet::property_model::{PropertyModel, PropertyTable, PropertyValue, ValueKind, ValueStep};
use crate::control_packets::mqtt_packet::property_model;

verus! {

// Property identifiers.
pub const PAYLOAD_FORMAT_INDICATOR: u8 = 1;
pub const MESSAGE_EXPIRY_INTERVAL: u8 = 2;
pub const CONTENT_TYPE: u8 = 3;
pub const RESPONSE_TOPIC: u8 = 8;
pub const CORRELATION_DATA: u8 = 9;
pub const SUBSCRIPTION_IDENTIFIER: u8 = 11;
pub const SESSION_EXPIRY_INTERVAL: u8 = 17;
pub const ASSIGNED_CLIENT_IDENTIFIER: u8 = 18;
pub const SERVER_KEEP_ALIVE: u8 = 19;
pub const AUTHENTICATION_METHOD: u8 = 21;
pub const AUTHENTICATION_DATA: u8 = 22;
pub const REQUEST_PROBLEM_INFORMATION: u8 = 23;
pub const WILL_DELAY_INTERVAL: u8 = 24;
pub const REQUEST_RESPONSE_INFORMATION: u8 = 25;
pub const RESPONSE_INFORMATION: u8 = 26;
pub const SERVER_REFERENCE: u8 = 28;
pub const REASON_STRING: u8 = 31;
pub const RECEIVE_MAXIMUM: u8 = 33;
pub const TOPIC_ALIAS_MAXIMUM: u8 = 34;
pub const TOPIC_ALIAS: u8 = 35;
pub const MAXIMUM_QOS: u8 = 36;
pub const RETAIN_AVAILABLE: u8 = 37;
pub const USER_PROPERTY: u8 = 38;
pub const MAXIMUM_PACKET_SIZE: u8 = 39;
pub const WILDCARD_SUBSCRIPTION_AVAILABLE: u8 = 40;
pub const SUBSCRIPTION_IDENTIFIERS_AVAILABLE: u8 = 41;
pub const SHARED_SUBSCRIPTION_AVAILABLE: u8 = 42;

/// A property of an MQTT packet, tagged by its identifier.
#[derive(Debug)]
pub enum PacketProperty {
    PayloadFormatIndicator(u8),
    MessageExpiryInterval(u32),
    ContentType(String),
    ResponseTopic(String),
    CorrelationData(Vec<u8>),
    SubscriptionIdentifier(u32),
    SessionExpiryInterval(u32),
    AssignedClientIdentifier(String),
    ServerKeepAlive(u16),
    AuthenticationMethod(String),
    AuthenticationData(Vec<u8>),
    RequestProblemInformation(u8),
    WillDelayInterval(u32),
    RequestResponseInformation(u8),
    ResponseInformation(String),
    ServerReference(String),
    ReasonString(String),
    ReceiveMaximum(u16),
    TopicAliasMaximum(u16),
    TopicAlias(u16),
    MaximumQoS(u8),
    RetainAvailable(u8),
    UserProperty((String, String)),
    MaximumPacketSize(u32),
    WildcardSubscriptionAvailable(u8),
    SubscriptionIdentifiersAvailable(u8),
    SharedSubscriptionAvailable(u8),
}

impl View for PacketProperty {
    type V = PropertyModel;

    open spec fn view(&self) -> PropertyModel {
        match self {
            PacketProperty::PayloadFormatIndicator(x) => PropertyModel { id: 1, value: PropertyValue::Byte(*x) },
            PacketProperty::MessageExpiryInterval(x) => PropertyModel { id: 2, value: PropertyValue::FourBytes(*x) },
            PacketProperty::ContentType(x) => PropertyModel { id: 3, value: PropertyValue::Text(x@) },
            PacketProperty::ResponseTopic(x) => PropertyModel { id: 8, value: PropertyValue::Text(x@) },
            PacketProperty::CorrelationData(x) => PropertyModel { id: 9, value: PropertyValue::Binary(x@) },
            PacketProperty::SubscriptionIdentifier(x) => PropertyModel { id: 11, value: PropertyValue::VarInt(*x) },
            PacketProperty::SessionExpiryInterval(x) => PropertyModel { id: 17, value: PropertyValue::FourBytes(*x) },
            PacketProperty::AssignedClientIdentifier(x) => PropertyModel { id: 18, value: PropertyValue::Text(x@) },
            PacketProperty::ServerKeepAlive(x) => PropertyModel { id: 19, value: PropertyValue::TwoBytes(*x) },
            PacketProperty::AuthenticationMethod(x) => PropertyModel { id: 21, value: PropertyValue::Text(x@) },
            PacketProperty::AuthenticationData(x) => PropertyModel { id: 22, value: PropertyValue::Binary(x@) },
            PacketProperty::RequestProblemInformation(x) => PropertyModel { id: 23, value: PropertyValue::Byte(*x) },
            PacketProperty::WillDelayInterval(x) => PropertyModel { id: 24, value: PropertyValue::FourBytes(*x) },
            PacketProperty::RequestResponseInformation(x) => PropertyModel { id: 25, value: PropertyValue::Byte(*x) },
            PacketProperty::ResponseInformation(x) => PropertyModel { id: 26, value: PropertyValue::Text(x@) },
            PacketProperty::ServerReference(x) => PropertyModel { id: 28, value: PropertyValue::Text(x@) },
            PacketProperty::ReasonString(x) => PropertyModel { id: 31, value: PropertyValue::Text(x@) },
            PacketProperty::ReceiveMaximum(x) => PropertyModel { id: 33, value: PropertyValue::TwoBytes(*x) },
            PacketProperty::TopicAliasMaximum(x) => PropertyModel { id: 34, value: PropertyValue::TwoBytes(*x) },
            PacketProperty::TopicAlias(x) => PropertyModel { id: 35, value: PropertyValue::TwoBytes(*x) },
            PacketProperty::MaximumQoS(x) => PropertyModel { id: 36, value: PropertyValue::Byte(*x) },
            PacketProperty::RetainAvailable(x) => PropertyModel { id: 37, value: PropertyValue::Byte(*x) },
            PacketProperty::UserProperty(x) => PropertyModel { id: 38, value: PropertyValue::TextPair(x.0@, x.1@) },
            PacketProperty::MaximumPacketSize(x) => PropertyModel { id: 39, value: PropertyValue::FourBytes(*x) },
            PacketProperty::WildcardSubscriptionAvailable(x) => PropertyModel { id: 40, value: PropertyValue::Byte(*x) },
            PacketProperty::SubscriptionIdentifiersAvailable(x) => PropertyModel { id: 41, value: PropertyValue::Byte(*x) },
            PacketProperty::SharedSubscriptionAvailable(x) => PropertyModel { id: 42, value: PropertyValue::Byte(*x) },
        }
    }
}

/// The view of an optional string.
pub open spec fn opt_string_view(o: Option<String>) -> Option<Seq<char>> {
    match o {
        Some(s) => Some(s@),
        None => None,
    }
}

/// The view of optional bytes.
pub open spec fn opt_bytes_view(o: Option<Vec<u8>>) -> Option<Seq<u8>> {
    match o {
        Some(b) => Some(b@),
        None => None,
    }
}

/// The view of an optional string pair.
pub open spec fn opt_pair_view(o: Option<(String, String)>) -> Option<(Seq<char>, Seq<char>)> {
    match o {
        Some(p) => Some((p.0@, p.1@)),
        None => None,
    }
}

/// The view of an optional-string result.
pub open spec fn opt_string_result(r: Result<Option<String>, MqttError>) -> Result<Option<Seq<char>>, MqttError> {
    match r {
        Ok(o) => Ok(opt_string_view(o)),
        Err(e) => Err(e),
    }
}

/// Decodes optional binary data as a UTF-8 string.
pub fn opt_bytes_to_string(b: Option<Vec<u8>>) -> (res: Result<Option<String>, MqttError>)
    ensures
        opt_string_result(res) == crate::control_packets::mqtt_packet::property_model::opt_utf8(
            opt_bytes_view(b),
        ),
{
    match b {
        Some(bytes) => {
            let s = crate::common::data_types::utf8_to_string(bytes)?;
            Ok(Some(s))
        },
        None => Ok(None),
    }
}

/// Clones an optional string.
pub fn clone_opt_string(o: &Option<String>) -> (res: Option<String>)
    ensures
        res == *o,
{
    match o {
        Some(s) => Some(s.clone()),
        None => None,
    }
}

/// Clones an optional string pair.
pub fn clone_opt_pair(o: &Option<(String, String)>) -> (res: Option<(String, String)>)
    ensures
        res == *o,
{
    match o {
        Some(p) => Some((p.0.clone(), p.1.clone())),
        None => None,
    }
}

/// The outcome of building a property: the property, or `InvalidPropertyId` when the
/// identifier does not take a value of kind `k`.
pub open spec fn built(res: Result<PacketProperty, MqttError>, id: u8, k: ValueKind, v: PropertyValue) -> bool {
    &&& (res is Ok <==> property_model::id_kind(PropertyTable::Current, id) == Some(k))
    &&& res matches Ok(p) ==> p@ == PropertyModel { id, value: v }
    &&& res matches Err(e) ==> e == MqttError::InvalidPropertyId
}

/// Appends `data` to `bytes`.
pub fn append_bytes(bytes: &mut Vec<u8>, data: &[u8])
    ensures
        final(bytes)@ == old(bytes)@ + data@,
{
    let mut i: usize = 0;
    while i < data.len()
        invariant
            0 <= i <= data@.len(),
            bytes@ == old(bytes)@ + data@.take(i as int),
        decreases data@.len() - i,
    {
        let ghost before = bytes@;
        bytes.push(data[i]);
        assert(data@.take(i + 1) =~= data@.take(i as int).push(data@[i as int]));
        i += 1;
    }
    assert(data@.take(data@.len() as int) =~= data@);
}

/// Appends the big-endian bytes of a two-byte value.
pub fn push_u16(bytes: &mut Vec<u8>, val: u16)
    ensures
        final(bytes)@ == old(bytes)@ + data_types::be16(val as int),
{
    bytes.push((val / 256) as u8);
    bytes.push((val % 256) as u8);
    assert(final(bytes)@ =~= old(bytes)@ + data_types::be16(val as int));
}

/// Appends the big-endian bytes of a four-byte value.
pub fn push_u32(bytes: &mut Vec<u8>, val: u32)
    ensures
        final(bytes)@ == old(bytes)@ + data_types::be32(val as int),
{
    bytes.push((val / 0x1000000) as u8);
    bytes.push(((val / 0x10000) % 256) as u8);
    bytes.push(((val / 256) % 256) as u8);
    bytes.push((val % 256) as u8);
    assert(final(bytes)@ =~= old(bytes)@ + data_types::be32(val as int));
}

/// Appends a two-byte length (taken modulo 2^16) and the UTF-8 bytes of a string.
pub fn push_text(bytes: &mut Vec<u8>, val: &String)
    ensures
        final(bytes)@ == old(bytes)@ + data_types::text_bytes(val@),
{
    let len = string_len(val);
    push_u16(bytes, (len % 65536) as u16);
    append_bytes(bytes, string_bytes(val));
    assert(final(bytes)@ =~= old(bytes)@ + data_types::text_bytes(val@));
}

/// Appends a two-byte length (taken modulo 2^16) and the data.
pub fn push_binary(bytes: &mut Vec<u8>, val: &Vec<u8>)
    ensures
        final(bytes)@ == old(bytes)@ + data_types::binary_bytes(val@),
{
    push_u16(bytes, (val.len() % 65536) as u16);
    append_bytes(bytes, val.as_slice());
    assert(final(bytes)@ =~= old(bytes)@ + data_types::binary_bytes(val@));
}

pub(crate) fn write_u8_property_as_bytes(bytes: &mut Vec<u8>, id: u8, val: &u8)
    ensures
        final(bytes)@ == old(bytes)@ + seq![id, *val],
{
    bytes.push(id);
    bytes.push(*val);
    assert(final(bytes)@ =~= old(bytes)@ + seq![id, *val]);
}

pub(crate) fn write_u16_property_as_bytes(bytes: &mut Vec<u8>, id: u8, val: &u16)
    ensures
        final(bytes)@ == old(bytes)@ + seq![id] + data_types::be16(*val as int),
{
    bytes.push(id);
    push_u16(bytes, *val);
}

pub(crate) fn write_u32_property_as_bytes(bytes: &mut Vec<u8>, id: u8, val: &u32)
    ensures
        final(bytes)@ == old(bytes)@ + seq![id] + data_types::be32(*val as int),
{
    bytes.push(id);
    push_u32(bytes, *val);
}

fn write_variable_byte_integer_property_as_bytes(bytes: &mut Vec<u8>, id: u8, val: &u32)
    ensures
        final(bytes)@ == old(bytes)@ + seq![id] + crate::common::data_types::vbi_bytes(*val as nat),
{
    bytes.push(id);
    variable_byte_integer_encode(bytes, *val);
}

fn write_binary_data_as_bytes(bytes: &mut Vec<u8>, id: u8, val: &Vec<u8>)
    ensures
        final(bytes)@ == old(bytes)@ + seq![id] + data_types::binary_bytes(val@),
{
    bytes.push(id);
    push_binary(bytes, val);
}

pub(crate) fn write_utf8_string_property_as_bytes(bytes: &mut Vec<u8>, id: u8, val: &String)
    ensures
        final(bytes)@ == old(bytes)@ + seq![id] + data_types::text_bytes(val@),
{
    bytes.push(id);
    push_text(bytes, val);
}

pub(crate) fn write_utf8_string_pair_property_as_bytes(
    bytes: &mut Vec<u8>,
    id: u8,
    first: &String,
    second: &String,
)
    ensures
        final(bytes)@ == old(bytes)@ + seq![id] + (data_types::text_bytes(first@) + data_types::text_bytes(second@)),
{
    bytes.push(id);
    push_text(bytes, first);
    push_text(bytes, second);
    assert(final(bytes)@ =~= old(bytes)@ + seq![id] + (data_types::text_bytes(first@) + data_types::text_bytes(second@)));
}

impl PacketProperty {
    /// The identifier of the property.
    pub fn id(&self) -> (r: u8)
        ensures
            r == self@.id,
    {
        match self {
            PacketProperty::PayloadFormatIndicator(_) => PAYLOAD_FORMAT_INDICATOR,
            PacketProperty::MessageExpiryInterval(_) => MESSAGE_EXPIRY_INTERVAL,
            PacketProperty::ContentType(_) => CONTENT_TYPE,
            PacketProperty::ResponseTopic(_) => RESPONSE_TOPIC,
            PacketProperty::CorrelationData(_) => CORRELATION_DATA,
            PacketProperty::SubscriptionIdentifier(_) => SUBSCRIPTION_IDENTIFIER,
            PacketProperty::SessionExpiryInterval(_) => SESSION_EXPIRY_INTERVAL,
            PacketProperty::AssignedClientIdentifier(_) => ASSIGNED_CLIENT_IDENTIFIER,
            PacketProperty::ServerKeepAlive(_) => SERVER_KEEP_ALIVE,
            PacketProperty::AuthenticationMethod(_) => AUTHENTICATION_METHOD,
            PacketProperty::AuthenticationData(_) => AUTHENTICATION_DATA,
            PacketProperty::RequestProblemInformation(_) => REQUEST_PROBLEM_INFORMATION,
            PacketProperty::WillDelayInterval(_) => WILL_DELAY_INTERVAL,
            PacketProperty::RequestResponseInformation(_) => REQUEST_RESPONSE_INFORMATION,
            PacketProperty::ResponseInformation(_) => RESPONSE_INFORMATION,
            PacketProperty::ServerReference(_) => SERVER_REFERENCE,
            PacketProperty::ReasonString(_) => REASON_STRING,
            PacketProperty::ReceiveMaximum(_) => RECEIVE_MAXIMUM,
            PacketProperty::TopicAliasMaximum(_) => TOPIC_ALIAS_MAXIMUM,
            PacketProperty::TopicAlias(_) => TOPIC_ALIAS,
            PacketProperty::MaximumQoS(_) => MAXIMUM_QOS,
            PacketProperty::RetainAvailable(_) => RETAIN_AVAILABLE,
            PacketProperty::UserProperty(_) => USER_PROPERTY,
            PacketProperty::MaximumPacketSize(_) => MAXIMUM_PACKET_SIZE,
            PacketProperty::WildcardSubscriptionAvailable(_) => WILDCARD_SUBSCRIPTION_AVAILABLE,
            PacketProperty::SubscriptionIdentifiersAvailable(_) => SUBSCRIPTION_IDENTIFIERS_AVAILABLE,
            PacketProperty::SharedSubscriptionAvailable(_) => SHARED_SUBSCRIPTION_AVAILABLE,
        }
    }

    /// The value, when the property carries a value of this kind.
    pub fn value_u8(&self) -> (r: Option<u8>)
        ensures
            r == property_model::as_u8(Some(self@)),
    {
        match self {
            PacketProperty::PayloadFormatIndicator(value) => Some(*value),
            PacketProperty::RequestProblemInformation(value) => Some(*value),
            PacketProperty::RequestResponseInformation(value) => Some(*value),
            PacketProperty::MaximumQoS(value) => Some(*value),
            PacketProperty::RetainAvailable(value) => Some(*value),
            PacketProperty::WildcardSubscriptionAvailable(value) => Some(*value),
            PacketProperty::SubscriptionIdentifiersAvailable(value) => Some(*value),
            PacketProperty::SharedSubscriptionAvailable(value) => Some(*value),
            _ => None,
        }
    }

    /// The value, when the property carries a value of this kind.
    pub fn value_u16(&self) -> (r: Option<u16>)
        ensures
            r == property_model::as_u16(Some(self@)),
    {
        match self {
            PacketProperty::ServerKeepAlive(value) => Some(*value),
            PacketProperty::ReceiveMaximum(value) => Some(*value),
            PacketProperty::TopicAliasMaximum(value) => Some(*value),
            PacketProperty::TopicAlias(value) => Some(*value),
            _ => None,
        }
    }

    /// The value, when the property carries a value of this kind.
    pub fn value_u32(&self) -> (r: Option<u32>)
        ensures
            r == property_model::as_u32(Some(self@)),
    {
        match self {
            PacketProperty::MessageExpiryInterval(value) => Some(*value),
            PacketProperty::SessionExpiryInterval(value) => Some(*value),
            PacketProperty::WillDelayInterval(value) => Some(*value),
            PacketProperty::MaximumPacketSize(value) => Some(*value),
            _ => None,
        }
    }

    /// The value, when the property carries a value of this kind.
    pub fn value_variable_byte_integer(&self) -> (r: Option<u32>)
        ensures
            r == property_model::as_vbi(Some(self@)),
    {
        match self {
            PacketProperty::SubscriptionIdentifier(value) => Some(*value),
            _ => None,
        }
    }

    /// The value, when the property carries a value of this kind.
    pub fn value_binary_data(&self) -> (r: Option<Vec<u8>>)
        ensures
            opt_bytes_view(r) == property_model::as_binary(Some(self@)),
    {
        match self {
            PacketProperty::CorrelationData(value) => Some(value.clone()),
            PacketProperty::AuthenticationData(value) => Some(value.clone()),
            _ => None,
        }
    }

    /// The value, when the property carries a value of this kind.
    pub fn value_string(&self) -> (r: Option<String>)
        ensures
            opt_string_view(r) == property_model::as_text(Some(self@)),
    {
        match self {
            PacketProperty::ContentType(value) => Some(value.clone()),
            PacketProperty::ResponseTopic(value) => Some(value.clone()),
            PacketProperty::AssignedClientIdentifier(value) => Some(value.clone()),
            PacketProperty::AuthenticationMethod(value) => Some(value.clone()),
            PacketProperty::ResponseInformation(value) => Some(value.clone()),
            PacketProperty::ServerReference(value) => Some(value.clone()),
            PacketProperty::ReasonString(value) => Some(value.clone()),
            _ => None,
        }
    }

    /// The value, when the property carries a value of this kind.
    pub fn value_string_pair(&self) -> (r: Option<(String, String)>)
        ensures
            opt_pair_view(r) == property_model::as_pair(Some(self@)),
    {
        match self {
            PacketProperty::UserProperty(value) => Some((value.0.clone(), value.1.clone())),
            _ => None,
        }
    }

    /// Builds a property of this kind from its identifier, or reports `InvalidPropertyId`.
    pub fn new_property_utf8_pair_string(id: u8, first: String, second: String) -> (res: Result<Self, MqttError>)
        ensures
            built(res, id, ValueKind::TextPair, PropertyValue::TextPair(first@, second@)),
    {
        match id {
            USER_PROPERTY => Ok(PacketProperty::UserProperty((first, second))),
            _ => Err(MqttError::InvalidPropertyId),
        }
    }

    /// Builds a property of this kind from its identifier, or reports `InvalidPropertyId`.
    pub fn new_property_utf8_string(id: u8, str: String) -> (res: Result<Self, MqttError>)
        ensures
            built(res, id, ValueKind::Text, PropertyValue::Text(str@)),
    {
        match id {
            CONTENT_TYPE => Ok(PacketProperty::ContentType(str)),
            RESPONSE_TOPIC => Ok(PacketProperty::ResponseTopic(str)),
            ASSIGNED_CLIENT_IDENTIFIER => Ok(PacketProperty::AssignedClientIdentifier(str)),
            AUTHENTICATION_METHOD => Ok(PacketProperty::AuthenticationMethod(str)),
            RESPONSE_INFORMATION => Ok(PacketProperty::ResponseInformation(str)),
            SERVER_REFERENCE => Ok(PacketProperty::ServerReference(str)),
            REASON_STRING => Ok(PacketProperty::ReasonString(str)),
            _ => Err(MqttError::InvalidPropertyId),
        }
    }

    /// Builds a property of this kind from its identifier, or reports `InvalidPropertyId`.
    pub fn new_property_binary_data(id: u8, data: Vec<u8>) -> (res: Result<Self, MqttError>)
        ensures
            built(res, id, ValueKind::Binary, PropertyValue::Binary(data@)),
    {
        match id {
            CORRELATION_DATA => Ok(PacketProperty::CorrelationData(data)),
            AUTHENTICATION_DATA => Ok(PacketProperty::AuthenticationData(data)),
            _ => Err(MqttError::InvalidPropertyId),
        }
    }

    /// Builds a property of this kind from its identifier, or reports `InvalidPropertyId`.
    pub fn new_property_variable_byte_integer(id: u8, value: u32) -> (res: Result<Self, MqttError>)
        ensures
            built(res, id, ValueKind::VarInt, PropertyValue::VarInt(value)),
    {
        match id {
            SUBSCRIPTION_IDENTIFIER => Ok(PacketProperty::SubscriptionIdentifier(value)),
            _ => Err(MqttError::InvalidPropertyId),
        }
    }

    /// Builds a property of this kind from its identifier, or reports `InvalidPropertyId`.
    pub fn new_property_u32(id: u8, value: u32) -> (res: Result<Self, MqttError>)
        ensures
            built(res, id, ValueKind::FourBytes, PropertyValue::FourBytes(value)),
    {
        match id {
            MESSAGE_EXPIRY_INTERVAL => Ok(PacketProperty::MessageExpiryInterval(value)),
            SESSION_EXPIRY_INTERVAL => Ok(PacketProperty::SessionExpiryInterval(value)),
            WILL_DELAY_INTERVAL => Ok(PacketProperty::WillDelayInterval(value)),
            MAXIMUM_PACKET_SIZE => Ok(PacketProperty::MaximumPacketSize(value)),
            _ => Err(MqttError::InvalidPropertyId),
        }
    }

    /// Builds a property of this kind from its identifier, or reports `InvalidPropertyId`.
    pub fn new_property_u16(id: u8, value: u16) -> (res: Result<Self, MqttError>)
        ensures
            built(res, id, ValueKind::TwoBytes, PropertyValue::TwoBytes(value)),
    {
        match id {
            SERVER_KEEP_ALIVE => Ok(PacketProperty::ServerKeepAlive(value)),
            RECEIVE_MAXIMUM => Ok(PacketProperty::ReceiveMaximum(value)),
            TOPIC_ALIAS_MAXIMUM => Ok(PacketProperty::TopicAliasMaximum(value)),
            TOPIC_ALIAS => Ok(PacketProperty::TopicAlias(value)),
            _ => Err(MqttError::InvalidPropertyId),
        }
    }

    /// Builds a property of this kind from its identifier, or reports `InvalidPropertyId`.
    pub fn new_property_u8(id: u8, value: u8) -> (res: Result<Self, MqttError>)
        ensures
            built(res, id, ValueKind::Byte, PropertyValue::Byte(value)),
    {
        match id {
            PAYLOAD_FORMAT_INDICATOR => Ok(PacketProperty::PayloadFormatIndicator(value)),
            REQUEST_PROBLEM_INFORMATION => Ok(PacketProperty::RequestProblemInformation(value)),
            REQUEST_RESPONSE_INFORMATION => Ok(PacketProperty::RequestResponseInformation(value)),
            MAXIMUM_QOS => Ok(PacketProperty::MaximumQoS(value)),
            RETAIN_AVAILABLE => Ok(PacketProperty::RetainAvailable(value)),
            WILDCARD_SUBSCRIPTION_AVAILABLE => Ok(PacketProperty::WildcardSubscriptionAvailable(value)),
            SUBSCRIPTION_IDENTIFIERS_AVAILABLE => Ok(PacketProperty::SubscriptionIdentifiersAvailable(value)),
            SHARED_SUBSCRIPTION_AVAILABLE => Ok(PacketProperty::SharedSubscriptionAvailable(value)),
            _ => Err(MqttError::InvalidPropertyId),
        }
    }

    /// Decodes the value of the property with identifier `id` from `buff` at the cursor.
    /// An unknown identifier gives `None` and leaves the cursor.
    pub fn new_property_from_be_bytes(buff: &[u8], buff_size: &mut usize, id: u8) -> (res: Result<
        Option<Self>,
        MqttError,
    >)
        requires
            property_model::property_at(PropertyTable::Current, buff@, *old(buff_size) as int, id) != Some(
                ValueStep::Panic,
            ),
        ensures
            match property_model::property_at(PropertyTable::Current, buff@, *old(buff_size) as int, id) {
                None => res matches Ok(None) && *final(buff_size) == *old(buff_size),
                Some(ValueStep::Value(v, np)) => res matches Ok(Some(p)) && p@ == PropertyModel {
                    id,
                    value: v,
                } && *final(buff_size) == np,
                Some(ValueStep::Utf8Error) => res == Err::<Option<Self>, MqttError>(
                    MqttError::InvalidUtf8,
                ),
                Some(ValueStep::Panic) => false,
            },
    {
        let ghost pos = *buff_size as int;
        let property = match id {
            PAYLOAD_FORMAT_INDICATOR => {
                let value = byte_integer_from_be_bytes(buff, buff_size);
                Some(PacketProperty::PayloadFormatIndicator(value))
            }
            MESSAGE_EXPIRY_INTERVAL => {
                let value = four_byte_integer_from_be_bytes(buff, buff_size);
                Some(PacketProperty::MessageExpiryInterval(value))
            }
            CONTENT_TYPE => {
                let value_len = two_byte_integer_from_be_bytes(buff, buff_size);
                let value = utf8_string_from_be_bytes(buff, value_len, buff_size)?;
                Some(PacketProperty::ContentType(value))
            }
            RESPONSE_TOPIC => {
                let value_len = two_byte_integer_from_be_bytes(buff, buff_size);
                let value = utf8_string_from_be_bytes(buff, value_len, buff_size)?;
                Some(PacketProperty::ResponseTopic(value))
            }
            CORRELATION_DATA => {
                let value_len = two_byte_integer_from_be_bytes(buff, buff_size);
                let value = binary_data_from_be_bytes(buff, value_len, buff_size);
                assert(buff@.subrange(pos + 3, pos + 3 + value_len) == buff@.subrange(pos + 1 + 2, pos + 1 + 2 + value_len));
                Some(PacketProperty::CorrelationData(value))
            }
            SUBSCRIPTION_IDENTIFIER => {
                let value = variable_byte_integer_from_be_bytes(buff, buff_size);
                Some(PacketProperty::SubscriptionIdentifier(value))
            }
            SESSION_EXPIRY_INTERVAL => {
                let value = four_byte_integer_from_be_bytes(buff, buff_size);
                Some(PacketProperty::SessionExpiryInterval(value))
            }
            ASSIGNED_CLIENT_IDENTIFIER => {
                let value_len = two_byte_integer_from_be_bytes(buff, buff_size);
                let value = utf8_string_from_be_bytes(buff, value_len, buff_size)?;
                Some(PacketProperty::AssignedClientIdentifier(value))
            }
            SERVER_KEEP_ALIVE => {
                let value = two_byte_integer_from_be_bytes(buff, buff_size);
                Some(PacketProperty::ServerKeepAlive(value))
            }
            AUTHENTICATION_METHOD => {
                let value_len = two_byte_integer_from_be_bytes(buff, buff_size);
                let value = utf8_string_from_be_bytes(buff, value_len, buff_size)?;
                Some(PacketProperty::AuthenticationMethod(value))
            }
            AUTHENTICATION_DATA => {
                let value_len = two_byte_integer_from_be_bytes(buff, buff_size);
                let value = binary_data_from_be_bytes(buff, value_len, buff_size);
                assert(buff@.subrange(pos + 3, pos + 3 + value_len) == buff@.subrange(pos + 1 + 2, pos + 1 + 2 + value_len));
                Some(PacketProperty::AuthenticationData(value))
            }
            REQUEST_PROBLEM_INFORMATION => {
                let value = byte_integer_from_be_bytes(buff, buff_size);
                Some(PacketProperty::RequestProblemInformation(value))
            }
            WILL_DELAY_INTERVAL => {
                let value = four_byte_integer_from_be_bytes(buff, buff_size);
                Some(PacketProperty::WillDelayInterval(value))
            }
            REQUEST_RESPONSE_INFORMATION => {
                let value = byte_integer_from_be_bytes(buff, buff_size);
                Some(PacketProperty::RequestResponseInformation(value))
            }
            RESPONSE_INFORMATION => {
                let value_len = two_byte_integer_from_be_bytes(buff, buff_size);
                let value = utf8_string_from_be_bytes(buff, value_len, buff_size)?;
                Some(PacketProperty::ResponseInformation(value))
            }
            SERVER_REFERENCE => {
                let value_len = two_byte_integer_from_be_bytes(buff, buff_size);
                let value = utf8_string_from_be_bytes(buff, value_len, buff_size)?;
                Some(PacketProperty::ServerReference(value))
            }
            REASON_STRING => {
                let value_len = two_byte_integer_from_be_bytes(buff, buff_size);
                let value = utf8_string_from_be_bytes(buff, value_len, buff_size)?;
                Some(PacketProperty::ReasonString(value))
            }
            RECEIVE_MAXIMUM => {
                let value = two_byte_integer_from_be_bytes(buff, buff_size);
                Some(PacketProperty::ReceiveMaximum(value))
            }
            TOPIC_ALIAS_MAXIMUM => {
                let value = two_byte_integer_from_be_bytes(buff, buff_size);
                Some(PacketProperty::TopicAliasMaximum(value))
            }
            TOPIC_ALIAS => {
                let value = two_byte_integer_from_be_bytes(buff, buff_size);
                Some(PacketProperty::TopicAlias(value))
            }
            MAXIMUM_QOS => {
                let value = byte_integer_from_be_bytes(buff, buff_size);
                Some(PacketProperty::MaximumQoS(value))
            }
            RETAIN_AVAILABLE => {
                let value = byte_integer_from_be_bytes(buff, buff_size);
                Some(PacketProperty::RetainAvailable(value))
            }
            USER_PROPERTY => {
                let key_len = two_byte_integer_from_be_bytes(buff, buff_size);
                let key = utf8_string_from_be_bytes(buff, key_len, buff_size)?;
                let value_len = two_byte_integer_from_be_bytes(buff, buff_size);
                let value = utf8_string_from_be_bytes(buff, value_len, buff_size)?;
                Some(PacketProperty::UserProperty((key, value)))
            }
            MAXIMUM_PACKET_SIZE => {
                let value = four_byte_integer_from_be_bytes(buff, buff_size);
                Some(PacketProperty::MaximumPacketSize(value))
            }
            WILDCARD_SUBSCRIPTION_AVAILABLE => {
                let value = byte_integer_from_be_bytes(buff, buff_size);
                Some(PacketProperty::WildcardSubscriptionAvailable(value))
            }
            SUBSCRIPTION_IDENTIFIERS_AVAILABLE => {
                let value = byte_integer_from_be_bytes(buff, buff_size);
                Some(PacketProperty::SubscriptionIdentifiersAvailable(value))
            }
            SHARED_SUBSCRIPTION_AVAILABLE => {
                let value = byte_integer_from_be_bytes(buff, buff_size);
                Some(PacketProperty::SharedSubscriptionAvailable(value))
            }
            _ => None,
        };
        Ok(property)
    }

    /// Appends the identifier and the encoded value of the property to `bytes`.
    pub fn write_as_bytes(&self, bytes: &mut Vec<u8>)
        ensures
            final(bytes)@ == old(bytes)@ + property_model::property_bytes(self@),
    {
        match self {
            PacketProperty::PayloadFormatIndicator(value) => write_u8_property_as_bytes(bytes, self.id(), value),
            PacketProperty::MessageExpiryInterval(value) => write_u32_property_as_bytes(bytes, self.id(), value),
            PacketProperty::ContentType(value) => write_utf8_string_property_as_bytes(bytes, self.id(), value),
            PacketProperty::ResponseTopic(value) => write_utf8_string_property_as_bytes(bytes, self.id(), value),
            PacketProperty::CorrelationData(value) => write_binary_data_as_bytes(bytes, self.id(), value),
            PacketProperty::SubscriptionIdentifier(value) => write_variable_byte_integer_property_as_bytes(bytes, self.id(), value),
            PacketProperty::SessionExpiryInterval(value) => write_u32_property_as_bytes(bytes, self.id(), value),
            PacketProperty::AssignedClientIdentifier(value) => write_utf8_string_property_as_bytes(bytes, self.id(), value),
            PacketProperty::ServerKeepAlive(value) => write_u16_property_as_bytes(bytes, self.id(), value),
            PacketProperty::AuthenticationMethod(value) => write_utf8_string_property_as_bytes(bytes, self.id(), value),
            PacketProperty::AuthenticationData(value) => write_binary_data_as_bytes(bytes, self.id(), value),
            PacketProperty::RequestProblemInformation(value) => write_u8_property_as_bytes(bytes, self.id(), value),
            PacketProperty::WillDelayInterval(value) => write_u32_property_as_bytes(bytes, self.id(), value),
            PacketProperty::RequestResponseInformation(value) => write_u8_property_as_bytes(bytes, self.id(), value),
            PacketProperty::ResponseInformation(value) => write_utf8_string_property_as_bytes(bytes, self.id(), value),
            PacketProperty::ServerReference(value) => write_utf8_string_property_as_bytes(bytes, self.id(), value),
            PacketProperty::ReasonString(value) => write_utf8_string_property_as_bytes(bytes, self.id(), value),
            PacketProperty::ReceiveMaximum(value) => write_u16_property_as_bytes(bytes, self.id(), value),
            PacketProperty::TopicAliasMaximum(value) => write_u16_property_as_bytes(bytes, self.id(), value),
            PacketProperty::TopicAlias(value) => write_u16_property_as_bytes(bytes, self.id(), value),
            PacketProperty::MaximumQoS(value) => write_u8_property_as_bytes(bytes, self.id(), value),
            PacketProperty::RetainAvailable(value) => write_u8_property_as_bytes(bytes, self.id(), value),
            PacketProperty::UserProperty(value) => write_utf8_string_pair_property_as_bytes(bytes, self.id(), &value.0, &value.1),
            PacketProperty::MaximumPacketSize(value) => write_u32_property_as_bytes(bytes, self.id(), value),
            PacketProperty::WildcardSubscriptionAvailable(value) => write_u8_property_as_bytes(bytes, self.id(), value),
            PacketProperty::SubscriptionIdentifiersAvailable(value) => write_u8_property_as_bytes(bytes, self.id(), value),
            PacketProperty::SharedSubscriptionAvailable(value) => write_u8_property_as_bytes(bytes, self.id(), value),
        }
        assert(final(bytes)@ =~= old(bytes)@ + property_model::property_bytes(self@));
    }
}

} // verus!
