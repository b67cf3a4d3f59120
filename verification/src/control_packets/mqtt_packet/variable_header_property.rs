use vstd::prelude::*;

use crate::common::data_types::{
    byte_integer_from_be_bytes, four_byte_integer_from_be_bytes, two_byte_integer_from_be_bytes,
    utf8_string_from_be_bytes, MqttError,
};
use crate::common::data_types;
use crate::control_packets::mqtt_packet::packet_property;
use crate::control_packets::mqtt_packet::property_model::{
    PropertyModel, PropertyTable, PropertyValue, ValueKind, ValueStep,
};
use crate::control_packets::mqtt_packet::property_model;

verus! {

// Property identifiers.
pub const PAYLOAD_FORMAT_INDICATOR: u8 = 1;
pub const MESSAGE_EXPIRY_INTERVAL: u8 = 2;
pub const CONTENT_TYPE: u8 = 3;
pub const RESPONSE_TOPIC: u8 = 8;
pub const CORRELATION_DATA: u8 = 9;
pub const SUBSCRIPTION_IDENTIFIER: u8 = 11;
pub const SESSION_EXPIRY_INTERVAL: u8 = 17;
pub const ASSIGNED_CLIENT_IDENTIFIER: u8 = 18;
pub const SERVER_KEEP_ALIVE: u8 = 19;
pub const AUTHENTICATION_METHOD: u8 = 21;
pub const AUTHENTICATION_DATA: u8 = 22;
pub const REQUEST_PROBLEM_INFORMATION: u8 = 23;
pub const WILL_DELAY_INTERVAL: u8 = 24;
pub const REQUEST_RESPONSE_INFORMATION: u8 = 25;
pub const RESPONSE_INFORMATION: u8 = 26;
pub const SERVER_REFERENCE: u8 = 28;
pub const REASON_STRING: u8 = 31;
pub const RECEIVE_MAXIMUM: u8 = 33;
pub const TOPIC_ALIAS_MAXIMUM: u8 = 34;
pub const TOPIC_ALIAS: u8 = 35;
pub const MAXIMUM_QOS: u8 = 36;
pub const RETAIN_AVAILABLE: u8 = 37;
pub const USER_PROPERTY: u8 = 38;
pub const MAXIMUM_PACKET_SIZE: u8 = 39;
pub const WILDCARD_SUBSCRIPTION_AVAILABLE: u8 = 40;
pub const SUBSCRIPTION_IDENTIFIERS_AVAILABLE: u8 = 41;
pub const SHARED_SUBSCRIPTION_AVAILABLE: u8 = 42;

/// A property of an MQTT packet in the older table, where Correlation Data and
/// Authentication Data are two-byte integers and the Subscription Identifier is a four-byte
/// integer.
#[derive(Debug)]
pub enum VariableHeaderProperty {
    PayloadFormatIndicator(u8),
    MessageExpiryInterval(u32),
    ContentType(String),
    ResponseTopic(String),
    CorrelationData(u16),
    SubscriptionIdentifier(u32),
    SessionExpiryInterval(u32),
    AssignedClientIdentifier(String),
    ServerKeepAlive(u16),
    AuthenticationMethod(String),
    AuthenticationData(u16),
    RequestProblemInformation(u8),
    WillDelayInterval(u32),
    RequestResponseInformation(u8),
    ResponseInformation(String),
    ServerReference(String),
    ReasonString(String),
    ReceiveMaximum(u16),
    TopicAliasMaximum(u16),
    TopicAlias(u16),
    MaximumQoS(u8),
    RetainAvailable(u8),
    UserProperty((String, String)),
    MaximumPacketSize(u32),
    WildcardSubscriptionAvailable(u8),
    SubscriptionIdentifiersAvailable(u8),
    SharedSubscriptionAvailable(u8),
}

impl View for VariableHeaderProperty {
    type V = PropertyModel;

    open spec fn view(&self) -> PropertyModel {
        match self {
            VariableHeaderProperty::PayloadFormatIndicator(x) => PropertyModel { id: 1, value: PropertyValue::Byte(*x) },
            VariableHeaderProperty::MessageExpiryInterval(x) => PropertyModel { id: 2, value: PropertyValue::FourBytes(*x) },
            VariableHeaderProperty::ContentType(x) => PropertyModel { id: 3, value: PropertyValue::Text(x@) },
            VariableHeaderProperty::ResponseTopic(x) => PropertyModel { id: 8, value: PropertyValue::Text(x@) },
            VariableHeaderProperty::CorrelationData(x) => PropertyModel { id: 9, value: PropertyValue::TwoBytes(*x) },
            VariableHeaderProperty::SubscriptionIdentifier(x) => PropertyModel { id: 11, value: PropertyValue::FourBytes(*x) },
            VariableHeaderProperty::SessionExpiryInterval(x) => PropertyModel { id: 17, value: PropertyValue::FourBytes(*x) },
            VariableHeaderProperty::AssignedClientIdentifier(x) => PropertyModel { id: 18, value: PropertyValue::Text(x@) },
            VariableHeaderProperty::ServerKeepAlive(x) => PropertyModel { id: 19, value: PropertyValue::TwoBytes(*x) },
            VariableHeaderProperty::AuthenticationMethod(x) => PropertyModel { id: 21, value: PropertyValue::Text(x@) },
            VariableHeaderProperty::AuthenticationData(x) => PropertyModel { id: 22, value: PropertyValue::TwoBytes(*x) },
            VariableHeaderProperty::RequestProblemInformation(x) => PropertyModel { id: 23, value: PropertyValue::Byte(*x) },
            VariableHeaderProperty::WillDelayInterval(x) => PropertyModel { id: 24, value: PropertyValue::FourBytes(*x) },
            VariableHeaderProperty::RequestResponseInformation(x) => PropertyModel { id: 25, value: PropertyValue::Byte(*x) },
            VariableHeaderProperty::ResponseInformation(x) => PropertyModel { id: 26, value: PropertyValue::Text(x@) },
            VariableHeaderProperty::ServerReference(x) => PropertyModel { id: 28, value: PropertyValue::Text(x@) },
            VariableHeaderProperty::ReasonString(x) => PropertyModel { id: 31, value: PropertyValue::Text(x@) },
            VariableHeaderProperty::ReceiveMaximum(x) => PropertyModel { id: 33, value: PropertyValue::TwoBytes(*x) },
            VariableHeaderProperty::TopicAliasMaximum(x) => PropertyModel { id: 34, value: PropertyValue::TwoBytes(*x) },
            VariableHeaderProperty::TopicAlias(x) => PropertyModel { id: 35, value: PropertyValue::TwoBytes(*x) },
            VariableHeaderProperty::MaximumQoS(x) => PropertyModel { id: 36, value: PropertyValue::Byte(*x) },
            VariableHeaderProperty::RetainAvailable(x) => PropertyModel { id: 37, value: PropertyValue::Byte(*x) },
            VariableHeaderProperty::UserProperty(x) => PropertyModel { id: 38, value: PropertyValue::TextPair(x.0@, x.1@) },
            VariableHeaderProperty::MaximumPacketSize(x) => PropertyModel { id: 39, value: PropertyValue::FourBytes(*x) },
            VariableHeaderProperty::WildcardSubscriptionAvailable(x) => PropertyModel { id: 40, value: PropertyValue::Byte(*x) },
            VariableHeaderProperty::SubscriptionIdentifiersAvailable(x) => PropertyModel { id: 41, value: PropertyValue::Byte(*x) },
            VariableHeaderProperty::SharedSubscriptionAvailable(x) => PropertyModel { id: 42, value: PropertyValue::Byte(*x) },
        }
    }
}

/// The outcome of building a property of the older table: the property, or
/// `InvalidPropertyId` when the identifier does not take a value of kind `k`.
pub open spec fn built_legacy(res: Result<VariableHeaderProperty, MqttError>, id: u8, k: ValueKind, v: PropertyValue) -> bool {
    &&& (res is Ok <==> property_model::id_kind(PropertyTable::Legacy, id) == Some(k))
    &&& res matches Ok(p) ==> p@ == PropertyModel { id, value: v }
    &&& res matches Err(e) ==> e == MqttError::InvalidPropertyId
}

impl VariableHeaderProperty {
    /// The identifier of the property.
    pub fn id(&self) -> (r: u8)
        ensures
            r == self@.id,
    {
        match self {
            VariableHeaderProperty::PayloadFormatIndicator(_) => PAYLOAD_FORMAT_INDICATOR,
            VariableHeaderProperty::MessageExpiryInterval(_) => MESSAGE_EXPIRY_INTERVAL,
            VariableHeaderProperty::ContentType(_) => CONTENT_TYPE,
            VariableHeaderProperty::ResponseTopic(_) => RESPONSE_TOPIC,
            VariableHeaderProperty::CorrelationData(_) => CORRELATION_DATA,
            VariableHeaderProperty::SubscriptionIdentifier(_) => SUBSCRIPTION_IDENTIFIER,
            VariableHeaderProperty::SessionExpiryInterval(_) => SESSION_EXPIRY_INTERVAL,
            VariableHeaderProperty::AssignedClientIdentifier(_) => ASSIGNED_CLIENT_IDENTIFIER,
            VariableHeaderProperty::ServerKeepAlive(_) => SERVER_KEEP_ALIVE,
            VariableHeaderProperty::AuthenticationMethod(_) => AUTHENTICATION_METHOD,
            VariableHeaderProperty::AuthenticationData(_) => AUTHENTICATION_DATA,
            VariableHeaderProperty::RequestProblemInformation(_) => REQUEST_PROBLEM_INFORMATION,
            VariableHeaderProperty::WillDelayInterval(_) => WILL_DELAY_INTERVAL,
            VariableHeaderProperty::RequestResponseInformation(_) => REQUEST_RESPONSE_INFORMATION,
            VariableHeaderProperty::ResponseInformation(_) => RESPONSE_INFORMATION,
            VariableHeaderProperty::ServerReference(_) => SERVER_REFERENCE,
            VariableHeaderProperty::ReasonString(_) => REASON_STRING,
            VariableHeaderProperty::ReceiveMaximum(_) => RECEIVE_MAXIMUM,
            VariableHeaderProperty::TopicAliasMaximum(_) => TOPIC_ALIAS_MAXIMUM,
            VariableHeaderProperty::TopicAlias(_) => TOPIC_ALIAS,
            VariableHeaderProperty::MaximumQoS(_) => MAXIMUM_QOS,
            VariableHeaderProperty::RetainAvailable(_) => RETAIN_AVAILABLE,
            VariableHeaderProperty::UserProperty(_) => USER_PROPERTY,
            VariableHeaderProperty::MaximumPacketSize(_) => MAXIMUM_PACKET_SIZE,
            VariableHeaderProperty::WildcardSubscriptionAvailable(_) => WILDCARD_SUBSCRIPTION_AVAILABLE,
            VariableHeaderProperty::SubscriptionIdentifiersAvailable(_) => SUBSCRIPTION_IDENTIFIERS_AVAILABLE,
            VariableHeaderProperty::SharedSubscriptionAvailable(_) => SHARED_SUBSCRIPTION_AVAILABLE,
        }
    }

    /// Builds a property of this kind from its identifier, or reports `InvalidPropertyId`.
    pub fn new_property_utf8_pair_string(id: u8, first: String, second: String) -> (res: Result<Self, MqttError>)
        ensures
            built_legacy(res, id, ValueKind::TextPair, PropertyValue::TextPair(first@, second@)),
    {
        match id {
            USER_PROPERTY => Ok(VariableHeaderProperty::UserProperty((first, second))),
            _ => Err(MqttError::InvalidPropertyId),
        }
    }

    /// Builds a property of this kind from its identifier, or reports `InvalidPropertyId`.
    pub fn new_property_utf8_string(id: u8, str: String) -> (res: Result<Self, MqttError>)
        ensures
            built_legacy(res, id, ValueKind::Text, PropertyValue::Text(str@)),
    {
        match id {
            CONTENT_TYPE => Ok(VariableHeaderProperty::ContentType(str)),
            RESPONSE_TOPIC => Ok(VariableHeaderProperty::ResponseTopic(str)),
            ASSIGNED_CLIENT_IDENTIFIER => Ok(VariableHeaderProperty::AssignedClientIdentifier(str)),
            AUTHENTICATION_METHOD => Ok(VariableHeaderProperty::AuthenticationMethod(str)),
            RESPONSE_INFORMATION => Ok(VariableHeaderProperty::ResponseInformation(str)),
            SERVER_REFERENCE => Ok(VariableHeaderProperty::ServerReference(str)),
            REASON_STRING => Ok(VariableHeaderProperty::ReasonString(str)),
            _ => Err(MqttError::InvalidPropertyId),
        }
    }

    /// Builds a property of this kind from its identifier, or reports `InvalidPropertyId`.
    pub fn new_property_u32(id: u8, value: u32) -> (res: Result<Self, MqttError>)
        ensures
            built_legacy(res, id, ValueKind::FourBytes, PropertyValue::FourBytes(value)),
    {
        match id {
            MESSAGE_EXPIRY_INTERVAL => Ok(VariableHeaderProperty::MessageExpiryInterval(value)),
            SUBSCRIPTION_IDENTIFIER => Ok(VariableHeaderProperty::SubscriptionIdentifier(value)),
            SESSION_EXPIRY_INTERVAL => Ok(VariableHeaderProperty::SessionExpiryInterval(value)),
            WILL_DELAY_INTERVAL => Ok(VariableHeaderProperty::WillDelayInterval(value)),
            MAXIMUM_PACKET_SIZE => Ok(VariableHeaderProperty::MaximumPacketSize(value)),
            _ => Err(MqttError::InvalidPropertyId),
        }
    }

    /// Builds a property of this kind from its identifier, or reports `InvalidPropertyId`.
    pub fn new_property_u16(id: u8, value: u16) -> (res: Result<Self, MqttError>)
        ensures
            built_legacy(res, id, ValueKind::TwoBytes, PropertyValue::TwoBytes(value)),
    {
        match id {
            CORRELATION_DATA => Ok(VariableHeaderProperty::CorrelationData(value)),
            SERVER_KEEP_ALIVE => Ok(VariableHeaderProperty::ServerKeepAlive(value)),
            AUTHENTICATION_DATA => Ok(VariableHeaderProperty::AuthenticationData(value)),
            RECEIVE_MAXIMUM => Ok(VariableHeaderProperty::ReceiveMaximum(value)),
            TOPIC_ALIAS_MAXIMUM => Ok(VariableHeaderProperty::TopicAliasMaximum(value)),
            TOPIC_ALIAS => Ok(VariableHeaderProperty::TopicAlias(value)),
            _ => Err(MqttError::InvalidPropertyId),
        }
    }

    /// Builds a property of this kind from its identifier, or reports `InvalidPropertyId`.
    pub fn new_property_u8(id: u8, value: u8) -> (res: Result<Self, MqttError>)
        ensures
            built_legacy(res, id, ValueKind::Byte, PropertyValue::Byte(value)),
    {
        match id {
            PAYLOAD_FORMAT_INDICATOR => Ok(VariableHeaderProperty::PayloadFormatIndicator(value)),
            REQUEST_PROBLEM_INFORMATION => Ok(VariableHeaderProperty::RequestProblemInformation(value)),
            REQUEST_RESPONSE_INFORMATION => Ok(VariableHeaderProperty::RequestResponseInformation(value)),
            MAXIMUM_QOS => Ok(VariableHeaderProperty::MaximumQoS(value)),
            RETAIN_AVAILABLE => Ok(VariableHeaderProperty::RetainAvailable(value)),
            WILDCARD_SUBSCRIPTION_AVAILABLE => Ok(VariableHeaderProperty::WildcardSubscriptionAvailable(value)),
            SUBSCRIPTION_IDENTIFIERS_AVAILABLE => Ok(VariableHeaderProperty::SubscriptionIdentifiersAvailable(value)),
            SHARED_SUBSCRIPTION_AVAILABLE => Ok(VariableHeaderProperty::SharedSubscriptionAvailable(value)),
            _ => Err(MqttError::InvalidPropertyId),
        }
    }

    /// Decodes the value of the property with identifier `id` from `buff` at the cursor.
    /// An unknown identifier gives `None` and leaves the cursor.
    pub fn new_property_from_be_bytes(buff: &[u8], buff_size: &mut usize, id: u8) -> (res: Result<
        Option<Self>,
        MqttError,
    >)
        requires
            property_model::property_at(PropertyTable::Legacy, buff@, *old(buff_size) as int, id) != Some(
                ValueStep::Panic,
            ),
        ensures
            match property_model::property_at(PropertyTable::Legacy, buff@, *old(buff_size) as int, id) {
                None => res matches Ok(None) && *final(buff_size) == *old(buff_size),
                Some(ValueStep::Value(v, np)) => res matches Ok(Some(p)) && p@ == PropertyModel {
                    id,
                    value: v,
                } && *final(buff_size) == np,
                Some(ValueStep::Utf8Error) => res == Err::<Option<Self>, MqttError>(
                    MqttError::InvalidUtf8,
                ),
                Some(ValueStep::Panic) => false,
            },
    {
        let ghost pos = *buff_size as int;
        let property = match id {
            PAYLOAD_FORMAT_INDICATOR => {
                let value = byte_integer_from_be_bytes(buff, buff_size);
                Some(VariableHeaderProperty::PayloadFormatIndicator(value))
            }
            MESSAGE_EXPIRY_INTERVAL => {
                let value = four_byte_integer_from_be_bytes(buff, buff_size);
                Some(VariableHeaderProperty::MessageExpiryInterval(value))
            }
            CONTENT_TYPE => {
                let value_len = two_byte_integer_from_be_bytes(buff, buff_size);
                let value = utf8_string_from_be_bytes(buff, value_len, buff_size)?;
                Some(VariableHeaderProperty::ContentType(value))
            }
            RESPONSE_TOPIC => {
                let value_len = two_byte_integer_from_be_bytes(buff, buff_size);
                let value = utf8_string_from_be_bytes(buff, value_len, buff_size)?;
                Some(VariableHeaderProperty::ResponseTopic(value))
            }
            CORRELATION_DATA => {
                let value = two_byte_integer_from_be_bytes(buff, buff_size);
                Some(VariableHeaderProperty::CorrelationData(value))
            }
            SUBSCRIPTION_IDENTIFIER => {
                let value = four_byte_integer_from_be_bytes(buff, buff_size);
                Some(VariableHeaderProperty::SubscriptionIdentifier(value))
            }
            SESSION_EXPIRY_INTERVAL => {
                let value = four_byte_integer_from_be_bytes(buff, buff_size);
                Some(VariableHeaderProperty::SessionExpiryInterval(value))
            }
            ASSIGNED_CLIENT_IDENTIFIER => {
                let value_len = two_byte_integer_from_be_bytes(buff, buff_size);
                let value = utf8_string_from_be_bytes(buff, value_len, buff_size)?;
                Some(VariableHeaderProperty::AssignedClientIdentifier(value))
            }
            SERVER_KEEP_ALIVE => {
                let value = two_byte_integer_from_be_bytes(buff, buff_size);
                Some(VariableHeaderProperty::ServerKeepAlive(value))
            }
            AUTHENTICATION_METHOD => {
                let value_len = two_byte_integer_from_be_bytes(buff, buff_size);
                let value = utf8_string_from_be_bytes(buff, value_len, buff_size)?;
                Some(VariableHeaderProperty::AuthenticationMethod(value))
            }
            AUTHENTICATION_DATA => {
                let value = two_byte_integer_from_be_bytes(buff, buff_size);
                Some(VariableHeaderProperty::AuthenticationData(value))
            }
            REQUEST_PROBLEM_INFORMATION => {
                let value = byte_integer_from_be_bytes(buff, buff_size);
                Some(VariableHeaderProperty::RequestProblemInformation(value))
            }
            WILL_DELAY_INTERVAL => {
                let value = four_byte_integer_from_be_bytes(buff, buff_size);
                Some(VariableHeaderProperty::WillDelayInterval(value))
            }
            REQUEST_RESPONSE_INFORMATION => {
                let value = byte_integer_from_be_bytes(buff, buff_size);
                Some(VariableHeaderProperty::RequestResponseInformation(value))
            }
            RESPONSE_INFORMATION => {
                let value_len = two_byte_integer_from_be_bytes(buff, buff_size);
                let value = utf8_string_from_be_bytes(buff, value_len, buff_size)?;
                Some(VariableHeaderProperty::ResponseInformation(value))
            }
            SERVER_REFERENCE => {
                let value_len = two_byte_integer_from_be_bytes(buff, buff_size);
                let value = utf8_string_from_be_bytes(buff, value_len, buff_size)?;
                Some(VariableHeaderProperty::ServerReference(value))
            }
            REASON_STRING => {
                let value_len = two_byte_integer_from_be_bytes(buff, buff_size);
                let value = utf8_string_from_be_bytes(buff, value_len, buff_size)?;
                Some(VariableHeaderProperty::ReasonString(value))
            }
            RECEIVE_MAXIMUM => {
                let value = two_byte_integer_from_be_bytes(buff, buff_size);
                Some(VariableHeaderProperty::ReceiveMaximum(value))
            }
            TOPIC_ALIAS_MAXIMUM => {
                let value = two_byte_integer_from_be_bytes(buff, buff_size);
                Some(VariableHeaderProperty::TopicAliasMaximum(value))
            }
            TOPIC_ALIAS => {
                let value = two_byte_integer_from_be_bytes(buff, buff_size);
                Some(VariableHeaderProperty::TopicAlias(value))
            }
            MAXIMUM_QOS => {
                let value = byte_integer_from_be_bytes(buff, buff_size);
                Some(VariableHeaderProperty::MaximumQoS(value))
            }
            RETAIN_AVAILABLE => {
                let value = byte_integer_from_be_bytes(buff, buff_size);
                Some(VariableHeaderProperty::RetainAvailable(value))
            }
            USER_PROPERTY => {
                let key_len = two_byte_integer_from_be_bytes(buff, buff_size);
                let key = utf8_string_from_be_bytes(buff, key_len, buff_size)?;
                let value_len = two_byte_integer_from_be_bytes(buff, buff_size);
                let value = utf8_string_from_be_bytes(buff, value_len, buff_size)?;
                Some(VariableHeaderProperty::UserProperty((key, value)))
            }
            MAXIMUM_PACKET_SIZE => {
                let value = four_byte_integer_from_be_bytes(buff, buff_size);
                Some(VariableHeaderProperty::MaximumPacketSize(value))
            }
            WILDCARD_SUBSCRIPTION_AVAILABLE => {
                let value = byte_integer_from_be_bytes(buff, buff_size);
                Some(VariableHeaderProperty::WildcardSubscriptionAvailable(value))
            }
            SUBSCRIPTION_IDENTIFIERS_AVAILABLE => {
                let value = byte_integer_from_be_bytes(buff, buff_size);
                Some(VariableHeaderProperty::SubscriptionIdentifiersAvailable(value))
            }
            SHARED_SUBSCRIPTION_AVAILABLE => {
                let value = byte_integer_from_be_bytes(buff, buff_size);
                Some(VariableHeaderProperty::SharedSubscriptionAvailable(value))
            }
            _ => None,
        };
        Ok(property)
    }

    /// Appends the identifier and the encoded value of the property to `bytes`.
    pub fn write_as_bytes(&self, bytes: &mut Vec<u8>)
        ensures
            final(bytes)@ == old(bytes)@ + property_model::property_bytes(self@),
    {
        match self {
            VariableHeaderProperty::PayloadFormatIndicator(value) => packet_property::write_u8_property_as_bytes(bytes, self.id(), value),
            VariableHeaderProperty::MessageExpiryInterval(value) => packet_property::write_u32_property_as_bytes(bytes, self.id(), value),
            VariableHeaderProperty::ContentType(value) => packet_property::write_utf8_string_property_as_bytes(bytes, self.id(), value),
            VariableHeaderProperty::ResponseTopic(value) => packet_property::write_utf8_string_property_as_bytes(bytes, self.id(), value),
            VariableHeaderProperty::CorrelationData(value) => packet_property::write_u16_property_as_bytes(bytes, self.id(), value),
            VariableHeaderProperty::SubscriptionIdentifier(value) => packet_property::write_u32_property_as_bytes(bytes, self.id(), value),
            VariableHeaderProperty::SessionExpiryInterval(value) => packet_property::write_u32_property_as_bytes(bytes, self.id(), value),
            VariableHeaderProperty::AssignedClientIdentifier(value) => packet_property::write_utf8_string_property_as_bytes(bytes, self.id(), value),
            VariableHeaderProperty::ServerKeepAlive(value) => packet_property::write_u16_property_as_bytes(bytes, self.id(), value),
            VariableHeaderProperty::AuthenticationMethod(value) => packet_property::write_utf8_string_property_as_bytes(bytes, self.id(), value),
            VariableHeaderProperty::AuthenticationData(value) => packet_property::write_u16_property_as_bytes(bytes, self.id(), value),
            VariableHeaderProperty::RequestProblemInformation(value) => packet_property::write_u8_property_as_bytes(bytes, self.id(), value),
            VariableHeaderProperty::WillDelayInterval(value) => packet_property::write_u32_property_as_bytes(bytes, self.id(), value),
            VariableHeaderProperty::RequestResponseInformation(value) => packet_property::write_u8_property_as_bytes(bytes, self.id(), value),
            VariableHeaderProperty::ResponseInformation(value) => packet_property::write_utf8_string_property_as_bytes(bytes, self.id(), value),
            VariableHeaderProperty::ServerReference(value) => packet_property::write_utf8_string_property_as_bytes(bytes, self.id(), value),
            VariableHeaderProperty::ReasonString(value) => packet_property::write_utf8_string_property_as_bytes(bytes, self.id(), value),
            VariableHeaderProperty::ReceiveMaximum(value) => packet_property::write_u16_property_as_bytes(bytes, self.id(), value),
            VariableHeaderProperty::TopicAliasMaximum(value) => packet_property::write_u16_property_as_bytes(bytes, self.id(), value),
            VariableHeaderProperty::TopicAlias(value) => packet_property::write_u16_property_as_bytes(bytes, self.id(), value),
            VariableHeaderProperty::MaximumQoS(value) => packet_property::write_u8_property_as_bytes(bytes, self.id(), value),
            VariableHeaderProperty::RetainAvailable(value) => packet_property::write_u8_property_as_bytes(bytes, self.id(), value),
            VariableHeaderProperty::UserProperty(value) => packet_property::write_utf8_string_pair_property_as_bytes(bytes, self.id(), &value.0, &value.1),
            VariableHeaderProperty::MaximumPacketSize(value) => packet_property::write_u32_property_as_bytes(bytes, self.id(), value),
            VariableHeaderProperty::WildcardSubscriptionAvailable(value) => packet_property::write_u8_property_as_bytes(bytes, self.id(), value),
            VariableHeaderProperty::SubscriptionIdentifiersAvailable(value) => packet_property::write_u8_property_as_bytes(bytes, self.id(), value),
            VariableHeaderProperty::SharedSubscriptionAvailable(value) => packet_property::write_u8_property_as_bytes(bytes, self.id(), value),
        }
        assert(final(bytes)@ =~= old(bytes)@ + property_model::property_bytes(self@));
    }
}

} // verus!
