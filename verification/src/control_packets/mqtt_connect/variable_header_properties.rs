//! The properties of a CONNECT variable header in their first layout: each property keeps
//! its identifier beside its value, and the block is preceded by its length as a `usize`.
use vstd::prelude::*;
use vstd::utf8::*;

use crate::common::data_types::{
    binary_data_from_be_bytes, byte_integer_from_be_bytes, four_byte_integer_from_be_bytes,
    string_len, two_byte_integer_from_be_bytes, utf8_string_from_be_bytes, utf8_to_string,
    MqttError,
};
use crate::common::data_types;
use crate::control_packets::mqtt_packet::packet_property::push_u32;
use crate::control_packets::mqtt_packet::packet_property;
use crate::control_packets::mqtt_packet::property_model::{
    ListStep, PropertyModel, PropertyValue, ValueKind, ValueStep,
};
use crate::control_packets::mqtt_packet::property_model;

verus! {

/// A property of a CONNECT variable header, with the identifier it is written under.
#[derive(Debug)]
pub enum VariableHeaderProperty {
    SessionExpiryInterval { id: u8, property: u32 },
    AuthenticationMethod { id: u8, property: String },
    AuthenticationData { id: u8, property: u16 },
    RequestProblemInformation { id: u8, property: u8 },
    RequestResponseInformation { id: u8, property: u8 },
    ReceiveMaximum { id: u8, property: u16 },
    TopicAliasMaximum { id: u8, property: u16 },
    UserProperty { id: u8, property: (String, String) },
    MaximumPacketSize { id: u8, property: u32 },
    AsignedClientIdentifier { id: u8, property: String },
    ServerKeepAlive { id: u8, property: u16 },
    ResponseInformation { id: u8, property: String },
    ServerReference { id: u8, property: String },
    ReasonString { id: u8, property: String },
    MaximumQoS { id: u8, property: u8 },
    RetainAvailable { id: u8, property: u8 },
    WildcardSubscriptionAvailable { id: u8, property: u8 },
    SubscriptionIdentifiersAvailable { id: u8, property: u8 },
    SharedSubscriptionAvailable { id: u8, property: u8 },
}

impl View for VariableHeaderProperty {
    type V = PropertyModel;

    /// The identifier the property is written under, and its value.
    open spec fn view(&self) -> PropertyModel {
        match self {
            VariableHeaderProperty::SessionExpiryInterval { id, property } => PropertyModel { id: *id, value: PropertyValue::FourBytes(*property) },
            VariableHeaderProperty::AuthenticationMethod { id, property } => PropertyModel { id: *id, value: PropertyValue::Text(property@) },
            VariableHeaderProperty::AuthenticationData { id, property } => PropertyModel { id: *id, value: PropertyValue::TwoBytes(*property) },
            VariableHeaderProperty::RequestProblemInformation { id, property } => PropertyModel { id: *id, value: PropertyValue::Byte(*property) },
            VariableHeaderProperty::RequestResponseInformation { id, property } => PropertyModel { id: *id, value: PropertyValue::Byte(*property) },
            VariableHeaderProperty::ReceiveMaximum { id, property } => PropertyModel { id: *id, value: PropertyValue::TwoBytes(*property) },
            VariableHeaderProperty::TopicAliasMaximum { id, property } => PropertyModel { id: *id, value: PropertyValue::TwoBytes(*property) },
            VariableHeaderProperty::UserProperty { id, property } => PropertyModel { id: *id, value: PropertyValue::TextPair(property.0@, property.1@) },
            VariableHeaderProperty::MaximumPacketSize { id, property } => PropertyModel { id: *id, value: PropertyValue::FourBytes(*property) },
            VariableHeaderProperty::AsignedClientIdentifier { id, property } => PropertyModel { id: *id, value: PropertyValue::Text(property@) },
            VariableHeaderProperty::ServerKeepAlive { id, property } => PropertyModel { id: *id, value: PropertyValue::TwoBytes(*property) },
            VariableHeaderProperty::ResponseInformation { id, property } => PropertyModel { id: *id, value: PropertyValue::Text(property@) },
            VariableHeaderProperty::ServerReference { id, property } => PropertyModel { id: *id, value: PropertyValue::Text(property@) },
            VariableHeaderProperty::ReasonString { id, property } => PropertyModel { id: *id, value: PropertyValue::Text(property@) },
            VariableHeaderProperty::MaximumQoS { id, property } => PropertyModel { id: *id, value: PropertyValue::Byte(*property) },
            VariableHeaderProperty::RetainAvailable { id, property } => PropertyModel { id: *id, value: PropertyValue::Byte(*property) },
            VariableHeaderProperty::WildcardSubscriptionAvailable { id, property } => PropertyModel { id: *id, value: PropertyValue::Byte(*property) },
            VariableHeaderProperty::SubscriptionIdentifiersAvailable { id, property } => PropertyModel { id: *id, value: PropertyValue::Byte(*property) },
            VariableHeaderProperty::SharedSubscriptionAvailable { id, property } => PropertyModel { id: *id, value: PropertyValue::Byte(*property) },
        }
    }
}

impl VariableHeaderProperty {
    /// The identifier the protocol gives to the kind of this property.
    pub open spec fn kind_id(&self) -> u8 {
        match self {
            VariableHeaderProperty::SessionExpiryInterval { .. } => 17,
            VariableHeaderProperty::AuthenticationMethod { .. } => 21,
            VariableHeaderProperty::AuthenticationData { .. } => 22,
            VariableHeaderProperty::RequestProblemInformation { .. } => 23,
            VariableHeaderProperty::RequestResponseInformation { .. } => 25,
            VariableHeaderProperty::ReceiveMaximum { .. } => 33,
            VariableHeaderProperty::TopicAliasMaximum { .. } => 34,
            VariableHeaderProperty::UserProperty { .. } => 38,
            VariableHeaderProperty::MaximumPacketSize { .. } => 39,
            VariableHeaderProperty::AsignedClientIdentifier { .. } => 18,
            VariableHeaderProperty::ServerKeepAlive { .. } => 19,
            VariableHeaderProperty::ResponseInformation { .. } => 26,
            VariableHeaderProperty::ServerReference { .. } => 28,
            VariableHeaderProperty::ReasonString { .. } => 31,
            VariableHeaderProperty::MaximumQoS { .. } => 36,
            VariableHeaderProperty::RetainAvailable { .. } => 37,
            VariableHeaderProperty::WildcardSubscriptionAvailable { .. } => 40,
            VariableHeaderProperty::SubscriptionIdentifiersAvailable { .. } => 41,
            VariableHeaderProperty::SharedSubscriptionAvailable { .. } => 42,
        }
    }
}

/// The kind of value each identifier of a CONNECT property carries; other identifiers are
/// unknown here.
pub open spec fn connect_kind(id: u8) -> Option<ValueKind> {
    if id == 17 || id == 39 {
        Some(ValueKind::FourBytes)
    } else if id == 19 || id == 22 || id == 33 || id == 34 {
        Some(ValueKind::TwoBytes)
    } else if id == 23 || id == 25 || id == 36 || id == 37 || id == 40 || id == 41 || id == 42 {
        Some(ValueKind::Byte)
    } else if id == 18 || id == 21 || id == 26 || id == 28 || id == 31 {
        Some(ValueKind::Text)
    } else if id == 38 {
        Some(ValueKind::TextPair)
    } else {
        None
    }
}

/// The end of a length-prefixed field at `pos`, if both the length and the field lie in
/// the buffer.
pub open spec fn field_end(buf: Seq<u8>, pos: int) -> Option<int> {
    if 0 <= pos && pos + 2 <= buf.len() && pos + 2 + data_types::u16_of(buf[pos], buf[pos + 1])
        <= buf.len() {
        Some(pos + 2 + data_types::u16_of(buf[pos], buf[pos + 1]))
    } else {
        None
    }
}

/// Decoding a string property: only the Authentication Method reports bad UTF-8; for the
/// other string properties bad UTF-8 is a panic.
pub open spec fn string_at(buf: Seq<u8>, pos: int, id: u8) -> ValueStep {
    match property_model::text_at(buf, pos) {
        ValueStep::Utf8Error => if id == 21 {
            ValueStep::Utf8Error
        } else {
            ValueStep::Panic
        },
        other => other,
    }
}

/// Decoding a user property: both fields must lie in the buffer, then both are decoded as
/// UTF-8.
pub open spec fn pair_at(buf: Seq<u8>, pos: int) -> ValueStep {
    match field_end(buf, pos) {
        None => ValueStep::Panic,
        Some(p1) => match field_end(buf, p1) {
            None => ValueStep::Panic,
            Some(p2) => match (property_model::text_at(buf, pos), property_model::text_at(buf, p1)) {
                (ValueStep::Value(PropertyValue::Text(a), _), ValueStep::Value(PropertyValue::Text(b), _)) =>
                    ValueStep::Value(PropertyValue::TextPair(a, b), p2),
                _ => ValueStep::Utf8Error,
            },
        },
    }
}

/// Decoding the value of a CONNECT property whose identifier was read: nothing for an
/// unknown identifier (the cursor stays), else the value step.
pub open spec fn connect_property_at(buf: Seq<u8>, pos: int, id: u8) -> Option<ValueStep> {
    match connect_kind(id) {
        None => None,
        Some(ValueKind::Text) => Some(string_at(buf, pos, id)),
        Some(ValueKind::TextPair) => Some(pair_at(buf, pos)),
        Some(k) => Some(property_model::value_at(k, buf, pos)),
    }
}

/// Decodes CONNECT properties from `pos` while the cursor is before the last byte: read an
/// identifier, then its value; unknown identifiers are skipped one byte at a time.
pub open spec fn connect_properties_at(buf: Seq<u8>, pos: int) -> ListStep
    decreases buf.len() - pos,
{
    if pos < 0 || !(pos < buf.len() - 1) {
        ListStep::Done(Seq::empty())
    } else {
        let id = buf[pos];
        match connect_property_at(buf, pos + 1, id) {
            None => connect_properties_at(buf, pos + 1),
            Some(ValueStep::Panic) => ListStep::Panic,
            Some(ValueStep::Utf8Error) => ListStep::Utf8Error,
            Some(ValueStep::Value(v, np)) => if np <= pos || np > buf.len() {
                ListStep::Panic
            } else {
                match connect_properties_at(buf, np) {
                    ListStep::Done(rest) => ListStep::Done(
                        seq![PropertyModel { id, value: v }] + rest,
                    ),
                    other => other,
                }
            },
        }
    }
}

/// A property that decodes back to itself: its identifier carries its kind of value, and
/// its strings fit their length fields.
pub open spec fn connect_encodable(p: PropertyModel) -> bool {
    &&& connect_kind(p.id) == Some(property_model::kind_of(p.value))
    &&& property_model::value_fits(p.value)
}

/// The length of a block as a `usize` in big-endian order: eight bytes where `usize` has
/// 64 bits, else four.
pub open spec fn usize_bytes(n: usize) -> Seq<u8> {
    if usize::BITS == 64 {
        data_types::be32((n as int) / 0x1_0000_0000) + data_types::be32((n as int) % 0x1_0000_0000)
    } else {
        data_types::be32(n as int)
    }
}

/// The models of a list of properties.
pub open spec fn models(ps: Seq<VariableHeaderProperty>) -> Seq<PropertyModel> {
    ps.map_values(|p: VariableHeaderProperty| p@)
}

/// The properties of a CONNECT variable header and the number of bytes they take.
pub struct VariableHeaderProperties {
    pub bytes_length: usize,
    pub properties: Vec<VariableHeaderProperty>,
}

impl VariableHeaderProperties {
    pub open spec fn models(&self) -> Seq<PropertyModel> {
        models(self.properties@)
    }

    /// The recorded length is the length of the encoded properties.
    pub open spec fn length_matches(&self) -> bool {
        self.bytes_length == property_model::properties_bytes(self.models()).len()
    }

    /// Every property is written under the identifier of its kind.
    pub open spec fn canonical(&self) -> bool {
        forall|i: int| 0 <= i < self.properties@.len() ==> #[trigger] self.properties@[i].kind_id()
            == self.properties@[i]@.id
    }
}

/// Appending a property adds its encoded length to the length of the list.
proof fn lemma_push_model(ps: Seq<VariableHeaderProperty>, p: VariableHeaderProperty)
    ensures
        models(ps.push(p)) == models(ps).push(p@),
        property_model::properties_bytes(models(ps.push(p))).len() == property_model::properties_bytes(
            models(ps),
        ).len() + property_model::property_bytes(p@).len(),
{
    assert(models(ps.push(p)) =~= models(ps).push(p@));
    property_model::lemma_properties_bytes_push(models(ps), p@);
}

/// Appends the bytes of a `usize` length.
fn push_usize(bytes: &mut Vec<u8>, n: usize)
    ensures
        final(bytes)@ == old(bytes)@ + usize_bytes(n),
{
    if usize::BITS == 64 {
        let wide = n as u64;
        push_u32(bytes, (wide / 0x1_0000_0000) as u32);
        push_u32(bytes, (wide % 0x1_0000_0000) as u32);
        assert(final(bytes)@ =~= old(bytes)@ + usize_bytes(n));
    } else {
        assert(n <= u32::MAX);
        push_u32(bytes, n as u32);
    }
}

impl VariableHeaderProperty {
    /// Appends the identifier the property is written under, then its value.
    pub fn write_as_bytes(&self, bytes: &mut Vec<u8>)
        ensures
            final(bytes)@ == old(bytes)@ + property_model::property_bytes(self@),
    {
        match self {
            VariableHeaderProperty::SessionExpiryInterval { id, property } => packet_property::write_u32_property_as_bytes(bytes, *id, property),
            VariableHeaderProperty::AuthenticationMethod { id, property } => packet_property::write_utf8_string_property_as_bytes(bytes, *id, property),
            VariableHeaderProperty::AuthenticationData { id, property } => packet_property::write_u16_property_as_bytes(bytes, *id, property),
            VariableHeaderProperty::RequestProblemInformation { id, property } => packet_property::write_u8_property_as_bytes(bytes, *id, property),
            VariableHeaderProperty::RequestResponseInformation { id, property } => packet_property::write_u8_property_as_bytes(bytes, *id, property),
            VariableHeaderProperty::ReceiveMaximum { id, property } => packet_property::write_u16_property_as_bytes(bytes, *id, property),
            VariableHeaderProperty::TopicAliasMaximum { id, property } => packet_property::write_u16_property_as_bytes(bytes, *id, property),
            VariableHeaderProperty::UserProperty { id, property } => packet_property::write_utf8_string_pair_property_as_bytes(bytes, *id, &property.0, &property.1),
            VariableHeaderProperty::MaximumPacketSize { id, property } => packet_property::write_u32_property_as_bytes(bytes, *id, property),
            VariableHeaderProperty::AsignedClientIdentifier { id, property } => packet_property::write_utf8_string_property_as_bytes(bytes, *id, property),
            VariableHeaderProperty::ServerKeepAlive { id, property } => packet_property::write_u16_property_as_bytes(bytes, *id, property),
            VariableHeaderProperty::ResponseInformation { id, property } => packet_property::write_utf8_string_property_as_bytes(bytes, *id, property),
            VariableHeaderProperty::ServerReference { id, property } => packet_property::write_utf8_string_property_as_bytes(bytes, *id, property),
            VariableHeaderProperty::ReasonString { id, property } => packet_property::write_utf8_string_property_as_bytes(bytes, *id, property),
            VariableHeaderProperty::MaximumQoS { id, property } => packet_property::write_u8_property_as_bytes(bytes, *id, property),
            VariableHeaderProperty::RetainAvailable { id, property } => packet_property::write_u8_property_as_bytes(bytes, *id, property),
            VariableHeaderProperty::WildcardSubscriptionAvailable { id, property } => packet_property::write_u8_property_as_bytes(bytes, *id, property),
            VariableHeaderProperty::SubscriptionIdentifiersAvailable { id, property } => packet_property::write_u8_property_as_bytes(bytes, *id, property),
            VariableHeaderProperty::SharedSubscriptionAvailable { id, property } => packet_property::write_u8_property_as_bytes(bytes, *id, property),
        }
        assert(final(bytes)@ =~= old(bytes)@ + property_model::property_bytes(self@));
    }
}

impl VariableHeaderProperties {
    /// Adds the Assigned Client Identifier property (18) and counts its bytes.
    pub fn add_property_assigned_client_identifier(&mut self, identifier: String)
        requires
            old(self).bytes_length + 3 + encode_utf8(identifier@).len() <= usize::MAX,
        ensures
            final(self).properties@ == old(self).properties@.push(
                VariableHeaderProperty::AsignedClientIdentifier { id: 18, property: identifier },
            ),
            final(self).bytes_length == old(self).bytes_length + 3 + encode_utf8(identifier@).len(),
            old(self).length_matches() ==> final(self).length_matches(),
            old(self).canonical() ==> final(self).canonical(),
    {
        let len = string_len(&identifier);
        let property = VariableHeaderProperty::AsignedClientIdentifier { id: 18, property: identifier };
        proof {
            lemma_push_model(self.properties@, property);
        }
        self.bytes_length += 3 + len;
        self.properties.push(property);
    }

    /// Adds the Server Keep Alive property (19) and counts its bytes.
    pub fn add_property_server_keep_alive(&mut self, keep_alive: u16)
        requires
            old(self).bytes_length + 3 <= usize::MAX,
        ensures
            final(self).properties@ == old(self).properties@.push(
                VariableHeaderProperty::ServerKeepAlive { id: 19, property: keep_alive },
            ),
            final(self).bytes_length == old(self).bytes_length + 3,
            old(self).length_matches() ==> final(self).length_matches(),
            old(self).canonical() ==> final(self).canonical(),
    {
        let property = VariableHeaderProperty::ServerKeepAlive { id: 19, property: keep_alive };
        proof {
            lemma_push_model(self.properties@, property);
        }
        self.bytes_length += 3;
        self.properties.push(property);
    }

    /// Adds the Response Information property (26) and counts its bytes.
    pub fn add_property_response_information(&mut self, information: String)
        requires
            old(self).bytes_length + 3 + encode_utf8(information@).len() <= usize::MAX,
        ensures
            final(self).properties@ == old(self).properties@.push(
                VariableHeaderProperty::ResponseInformation { id: 26, property: information },
            ),
            final(self).bytes_length == old(self).bytes_length + 3 + encode_utf8(information@).len(),
            old(self).length_matches() ==> final(self).length_matches(),
            old(self).canonical() ==> final(self).canonical(),
    {
        let len = string_len(&information);
        let property = VariableHeaderProperty::ResponseInformation { id: 26, property: information };
        proof {
            lemma_push_model(self.properties@, property);
        }
        self.bytes_length += 3 + len;
        self.properties.push(property);
    }

    /// Adds the Server Reference property (28) and counts its bytes.
    pub fn add_property_server_reference(&mut self, reference: String)
        requires
            old(self).bytes_length + 3 + encode_utf8(reference@).len() <= usize::MAX,
        ensures
            final(self).properties@ == old(self).properties@.push(
                VariableHeaderProperty::ServerReference { id: 28, property: reference },
            ),
            final(self).bytes_length == old(self).bytes_length + 3 + encode_utf8(reference@).len(),
            old(self).length_matches() ==> final(self).length_matches(),
            old(self).canonical() ==> final(self).canonical(),
    {
        let len = string_len(&reference);
        let property = VariableHeaderProperty::ServerReference { id: 28, property: reference };
        proof {
            lemma_push_model(self.properties@, property);
        }
        self.bytes_length += 3 + len;
        self.properties.push(property);
    }

    /// Adds the Reason String property (31) and counts its bytes.
    pub fn add_property_reason_string(&mut self, reason: String)
        requires
            old(self).bytes_length + 3 + encode_utf8(reason@).len() <= usize::MAX,
        ensures
            final(self).properties@ == old(self).properties@.push(
                VariableHeaderProperty::ReasonString { id: 31, property: reason },
            ),
            final(self).bytes_length == old(self).bytes_length + 3 + encode_utf8(reason@).len(),
            old(self).length_matches() ==> final(self).length_matches(),
            old(self).canonical() ==> final(self).canonical(),
    {
        let len = string_len(&reason);
        let property = VariableHeaderProperty::ReasonString { id: 31, property: reason };
        proof {
            lemma_push_model(self.properties@, property);
        }
        self.bytes_length += 3 + len;
        self.properties.push(property);
    }

    /// Adds the Maximum QoS property (36) and counts its bytes.
    pub fn add_property_maximum_qos(&mut self, qos: u8)
        requires
            old(self).bytes_length + 2 <= usize::MAX,
        ensures
            final(self).properties@ == old(self).properties@.push(
                VariableHeaderProperty::MaximumQoS { id: 36, property: qos },
            ),
            final(self).bytes_length == old(self).bytes_length + 2,
            old(self).length_matches() ==> final(self).length_matches(),
            old(self).canonical() ==> final(self).canonical(),
    {
        let property = VariableHeaderProperty::MaximumQoS { id: 36, property: qos };
        proof {
            lemma_push_model(self.properties@, property);
        }
        self.bytes_length += 2;
        self.properties.push(property);
    }

    /// Adds the Retain Available property (37) and counts its bytes.
    pub fn add_property_retain_available(&mut self, available: u8)
        requires
            old(self).bytes_length + 2 <= usize::MAX,
        ensures
            final(self).properties@ == old(self).properties@.push(
                VariableHeaderProperty::RetainAvailable { id: 37, property: available },
            ),
            final(self).bytes_length == old(self).bytes_length + 2,
            old(self).length_matches() ==> final(self).length_matches(),
            old(self).canonical() ==> final(self).canonical(),
    {
        let property = VariableHeaderProperty::RetainAvailable { id: 37, property: available };
        proof {
            lemma_push_model(self.properties@, property);
        }
        self.bytes_length += 2;
        self.properties.push(property);
    }

    /// Adds the Wildcard Subscription Available property (40) and counts its bytes.
    pub fn add_property_wildcard_subscription_available(&mut self, available: u8)
        requires
            old(self).bytes_length + 2 <= usize::MAX,
        ensures
            final(self).properties@ == old(self).properties@.push(
                VariableHeaderProperty::WildcardSubscriptionAvailable { id: 40, property: available },
            ),
            final(self).bytes_length == old(self).bytes_length + 2,
            old(self).length_matches() ==> final(self).length_matches(),
            old(self).canonical() ==> final(self).canonical(),
    {
        let property = VariableHeaderProperty::WildcardSubscriptionAvailable { id: 40, property: available };
        proof {
            lemma_push_model(self.properties@, property);
        }
        self.bytes_length += 2;
        self.properties.push(property);
    }

    /// Adds the Subscription Identifiers Available property (41) and counts its bytes.
    pub fn add_property_subscription_identifiers_available(&mut self, available: u8)
        requires
            old(self).bytes_length + 2 <= usize::MAX,
        ensures
            final(self).properties@ == old(self).properties@.push(
                VariableHeaderProperty::SubscriptionIdentifiersAvailable { id: 41, property: available },
            ),
            final(self).bytes_length == old(self).bytes_length + 2,
            old(self).length_matches() ==> final(self).length_matches(),
            old(self).canonical() ==> final(self).canonical(),
    {
        let property = VariableHeaderProperty::SubscriptionIdentifiersAvailable { id: 41, property: available };
        proof {
            lemma_push_model(self.properties@, property);
        }
        self.bytes_length += 2;
        self.properties.push(property);
    }

    /// Adds the Shared Subscription Available property (42) and counts its bytes.
    pub fn add_property_shared_subscription_available(&mut self, available: u8)
        requires
            old(self).bytes_length + 2 <= usize::MAX,
        ensures
            final(self).properties@ == old(self).properties@.push(
                VariableHeaderProperty::SharedSubscriptionAvailable { id: 42, property: available },
            ),
            final(self).bytes_length == old(self).bytes_length + 2,
            old(self).length_matches() ==> final(self).length_matches(),
            old(self).canonical() ==> final(self).canonical(),
    {
        let property = VariableHeaderProperty::SharedSubscriptionAvailable { id: 42, property: available };
        proof {
            lemma_push_model(self.properties@, property);
        }
        self.bytes_length += 2;
        self.properties.push(property);
    }

    /// Adds the Session Expiry Interval property (17) and counts its bytes.
    pub fn add_property_session_expiry_interval(&mut self, interval: u32)
        requires
            old(self).bytes_length + 5 <= usize::MAX,
        ensures
            final(self).properties@ == old(self).properties@.push(
                VariableHeaderProperty::SessionExpiryInterval { id: 17, property: interval },
            ),
            final(self).bytes_length == old(self).bytes_length + 5,
            old(self).length_matches() ==> final(self).length_matches(),
            old(self).canonical() ==> final(self).canonical(),
    {
        let property = VariableHeaderProperty::SessionExpiryInterval { id: 17, property: interval };
        proof {
            lemma_push_model(self.properties@, property);
        }
        self.bytes_length += 5;
        self.properties.push(property);
    }

    /// Adds the Authentication Method property (21) and counts its bytes.
    pub fn add_property_authentication_method(&mut self, method: String)
        requires
            old(self).bytes_length + 3 + encode_utf8(method@).len() <= usize::MAX,
        ensures
            final(self).properties@ == old(self).properties@.push(
                VariableHeaderProperty::AuthenticationMethod { id: 21, property: method },
            ),
            final(self).bytes_length == old(self).bytes_length + 3 + encode_utf8(method@).len(),
            old(self).length_matches() ==> final(self).length_matches(),
            old(self).canonical() ==> final(self).canonical(),
    {
        let len = string_len(&method);
        let property = VariableHeaderProperty::AuthenticationMethod { id: 21, property: method };
        proof {
            lemma_push_model(self.properties@, property);
        }
        self.bytes_length += 3 + len;
        self.properties.push(property);
    }

    /// Adds the Authentication Data property (22) and counts its bytes.
    pub fn add_property_authentication_data(&mut self, data: u16)
        requires
            old(self).bytes_length + 3 <= usize::MAX,
        ensures
            final(self).properties@ == old(self).properties@.push(
                VariableHeaderProperty::AuthenticationData { id: 22, property: data },
            ),
            final(self).bytes_length == old(self).bytes_length + 3,
            old(self).length_matches() ==> final(self).length_matches(),
            old(self).canonical() ==> final(self).canonical(),
    {
        let property = VariableHeaderProperty::AuthenticationData { id: 22, property: data };
        proof {
            lemma_push_model(self.properties@, property);
        }
        self.bytes_length += 3;
        self.properties.push(property);
    }

    /// Adds the Request Problem Information property (23) and counts its bytes.
    pub fn add_property_request_problem_information(&mut self, information: u8)
        requires
            old(self).bytes_length + 2 <= usize::MAX,
        ensures
            final(self).properties@ == old(self).properties@.push(
                VariableHeaderProperty::RequestProblemInformation { id: 23, property: information },
            ),
            final(self).bytes_length == old(self).bytes_length + 2,
            old(self).length_matches() ==> final(self).length_matches(),
            old(self).canonical() ==> final(self).canonical(),
    {
        let property = VariableHeaderProperty::RequestProblemInformation { id: 23, property: information };
        proof {
            lemma_push_model(self.properties@, property);
        }
        self.bytes_length += 2;
        self.properties.push(property);
    }

    /// Adds the Request Response Information property (25) and counts its bytes.
    pub fn add_property_request_response_information(&mut self, information: u8)
        requires
            old(self).bytes_length + 2 <= usize::MAX,
        ensures
            final(self).properties@ == old(self).properties@.push(
                VariableHeaderProperty::RequestResponseInformation { id: 25, property: information },
            ),
            final(self).bytes_length == old(self).bytes_length + 2,
            old(self).length_matches() ==> final(self).length_matches(),
            old(self).canonical() ==> final(self).canonical(),
    {
        let property = VariableHeaderProperty::RequestResponseInformation { id: 25, property: information };
        proof {
            lemma_push_model(self.properties@, property);
        }
        self.bytes_length += 2;
        self.properties.push(property);
    }

    /// Adds the Receive Maximum property (33) and counts its bytes.
    pub fn add_property_receive_maximum(&mut self, maximum: u16)
        requires
            old(self).bytes_length + 3 <= usize::MAX,
        ensures
            final(self).properties@ == old(self).properties@.push(
                VariableHeaderProperty::ReceiveMaximum { id: 33, property: maximum },
            ),
            final(self).bytes_length == old(self).bytes_length + 3,
            old(self).length_matches() ==> final(self).length_matches(),
            old(self).canonical() ==> final(self).canonical(),
    {
        let property = VariableHeaderProperty::ReceiveMaximum { id: 33, property: maximum };
        proof {
            lemma_push_model(self.properties@, property);
        }
        self.bytes_length += 3;
        self.properties.push(property);
    }

    /// Adds the Topic Alias Maximum property (34) and counts its bytes.
    pub fn add_property_topic_alias_maximum(&mut self, maximum: u16)
        requires
            old(self).bytes_length + 3 <= usize::MAX,
        ensures
            final(self).properties@ == old(self).properties@.push(
                VariableHeaderProperty::TopicAliasMaximum { id: 34, property: maximum },
            ),
            final(self).bytes_length == old(self).bytes_length + 3,
            old(self).length_matches() ==> final(self).length_matches(),
            old(self).canonical() ==> final(self).canonical(),
    {
        let property = VariableHeaderProperty::TopicAliasMaximum { id: 34, property: maximum };
        proof {
            lemma_push_model(self.properties@, property);
        }
        self.bytes_length += 3;
        self.properties.push(property);
    }

    /// Adds the Maximum Packet Size property (39) and counts its bytes.
    pub fn add_property_maximum_packet_size(&mut self, size: u32)
        requires
            old(self).bytes_length + 5 <= usize::MAX,
        ensures
            final(self).properties@ == old(self).properties@.push(
                VariableHeaderProperty::MaximumPacketSize { id: 39, property: size },
            ),
            final(self).bytes_length == old(self).bytes_length + 5,
            old(self).length_matches() ==> final(self).length_matches(),
            old(self).canonical() ==> final(self).canonical(),
    {
        let property = VariableHeaderProperty::MaximumPacketSize { id: 39, property: size };
        proof {
            lemma_push_model(self.properties@, property);
        }
        self.bytes_length += 5;
        self.properties.push(property);
    }

    /// Adds a User Property (38), a key and a value, and counts its bytes.
    pub fn add_property_user_property(&mut self, key: String, value: String)
        requires
            old(self).bytes_length + 5 + encode_utf8(key@).len() + encode_utf8(value@).len() <= usize::MAX,
        ensures
            final(self).properties@ == old(self).properties@.push(
                VariableHeaderProperty::UserProperty { id: 38, property: (key, value) },
            ),
            final(self).bytes_length == old(self).bytes_length + 5 + encode_utf8(key@).len() + encode_utf8(value@).len(),
            old(self).length_matches() ==> final(self).length_matches(),
            old(self).canonical() ==> final(self).canonical(),
    {
        let key_len = string_len(&key);
        let value_len = string_len(&value);
        let property = VariableHeaderProperty::UserProperty { id: 38, property: (key, value) };
        proof {
            lemma_push_model(self.properties@, property);
        }
        self.bytes_length += 5 + key_len + value_len;
        self.properties.push(property);
    }

    /// An empty block.
    pub fn new() -> (res: Self)
        ensures
            res.bytes_length == 0,
            res.properties@ == Seq::<VariableHeaderProperty>::empty(),
            res.length_matches(),
            res.canonical(),
    {
        let res = VariableHeaderProperties { bytes_length: 0, properties: Vec::new() };
        assert(res.models() =~= Seq::<PropertyModel>::empty());
        res
    }

    /// The recorded length as a `usize` in big-endian order, then each property.
    pub fn as_bytes(&self) -> (res: Vec<u8>)
        ensures
            res@ == usize_bytes(self.bytes_length) + property_model::properties_bytes(self.models()),
    {
        let mut bytes: Vec<u8> = Vec::new();
        push_usize(&mut bytes, self.bytes_length);
        let ghost head = bytes@;
        let mut i: usize = 0;
        while i < self.properties.len()
            invariant
                i <= self.properties@.len(),
                head == usize_bytes(self.bytes_length),
                bytes@ == head + property_model::properties_bytes(self.models().take(i as int)),
            decreases self.properties@.len() - i,
        {
            let ghost before = bytes@;
            self.properties[i].write_as_bytes(&mut bytes);
            proof {
                property_model::lemma_properties_bytes_push(self.models().take(i as int), self.properties@[i as int]@);
                assert(self.models().take(i + 1) =~= self.models().take(i as int).push(
                    self.properties@[i as int]@,
                ));
            }
            i += 1;
        }
        assert(self.models().take(self.properties@.len() as int) =~= self.models());
        bytes
    }

    /// Decodes one property whose identifier was read, at the cursor.
    fn property_from_be_bytes(buff: &[u8], buff_size: &mut usize, id: u8) -> (res: Result<
        Option<VariableHeaderProperty>,
        MqttError,
    >)
        requires
            connect_property_at(buff@, *old(buff_size) as int, id) != Some(ValueStep::Panic),
        ensures
            match connect_property_at(buff@, *old(buff_size) as int, id) {
                None => res matches Ok(None) && *final(buff_size) == *old(buff_size),
                Some(ValueStep::Value(v, np)) => res matches Ok(Some(p)) && p@ == PropertyModel {
                    id,
                    value: v,
                } && p.kind_id() == id && *final(buff_size) == np,
                Some(ValueStep::Utf8Error) => res == Err::<Option<VariableHeaderProperty>, MqttError>(
                    MqttError::InvalidUtf8,
                ),
                Some(ValueStep::Panic) => false,
            },
    {
        let property = match id {
            17 => {
                let property = four_byte_integer_from_be_bytes(buff, buff_size);
                Some(VariableHeaderProperty::SessionExpiryInterval { id, property })
            },
            18 => {
                let len = two_byte_integer_from_be_bytes(buff, buff_size);
                let property = utf8_string_from_be_bytes(buff, len, buff_size)?;
                Some(VariableHeaderProperty::AsignedClientIdentifier { id, property })
            },
            19 => {
                let property = two_byte_integer_from_be_bytes(buff, buff_size);
                Some(VariableHeaderProperty::ServerKeepAlive { id, property })
            },
            21 => {
                let len = two_byte_integer_from_be_bytes(buff, buff_size);
                let property = utf8_string_from_be_bytes(buff, len, buff_size)?;
                Some(VariableHeaderProperty::AuthenticationMethod { id, property })
            },
            22 => {
                let property = two_byte_integer_from_be_bytes(buff, buff_size);
                Some(VariableHeaderProperty::AuthenticationData { id, property })
            },
            23 => {
                let property = byte_integer_from_be_bytes(buff, buff_size);
                Some(VariableHeaderProperty::RequestProblemInformation { id, property })
            },
            25 => {
                let property = byte_integer_from_be_bytes(buff, buff_size);
                Some(VariableHeaderProperty::RequestResponseInformation { id, property })
            },
            26 => {
                let len = two_byte_integer_from_be_bytes(buff, buff_size);
                let property = utf8_string_from_be_bytes(buff, len, buff_size)?;
                Some(VariableHeaderProperty::ResponseInformation { id, property })
            },
            28 => {
                let len = two_byte_integer_from_be_bytes(buff, buff_size);
                let property = utf8_string_from_be_bytes(buff, len, buff_size)?;
                Some(VariableHeaderProperty::ServerReference { id, property })
            },
            31 => {
                let len = two_byte_integer_from_be_bytes(buff, buff_size);
                let property = utf8_string_from_be_bytes(buff, len, buff_size)?;
                Some(VariableHeaderProperty::ReasonString { id, property })
            },
            33 => {
                let property = two_byte_integer_from_be_bytes(buff, buff_size);
                Some(VariableHeaderProperty::ReceiveMaximum { id, property })
            },
            34 => {
                let property = two_byte_integer_from_be_bytes(buff, buff_size);
                Some(VariableHeaderProperty::TopicAliasMaximum { id, property })
            },
            36 => {
                let property = byte_integer_from_be_bytes(buff, buff_size);
                Some(VariableHeaderProperty::MaximumQoS { id, property })
            },
            37 => {
                let property = byte_integer_from_be_bytes(buff, buff_size);
                Some(VariableHeaderProperty::RetainAvailable { id, property })
            },
            38 => {
                let key_len = two_byte_integer_from_be_bytes(buff, buff_size);
                let key_bytes = binary_data_from_be_bytes(buff, key_len, buff_size);
                let value_len = two_byte_integer_from_be_bytes(buff, buff_size);
                let value_bytes = binary_data_from_be_bytes(buff, value_len, buff_size);
                let key = utf8_to_string(key_bytes)?;
                let value = utf8_to_string(value_bytes)?;
                Some(VariableHeaderProperty::UserProperty { id, property: (key, value) })
            },
            39 => {
                let property = four_byte_integer_from_be_bytes(buff, buff_size);
                Some(VariableHeaderProperty::MaximumPacketSize { id, property })
            },
            40 => {
                let property = byte_integer_from_be_bytes(buff, buff_size);
                Some(VariableHeaderProperty::WildcardSubscriptionAvailable { id, property })
            },
            41 => {
                let property = byte_integer_from_be_bytes(buff, buff_size);
                Some(VariableHeaderProperty::SubscriptionIdentifiersAvailable { id, property })
            },
            42 => {
                let property = byte_integer_from_be_bytes(buff, buff_size);
                Some(VariableHeaderProperty::SharedSubscriptionAvailable { id, property })
            },
            _ => None,
        };
        Ok(property)
    }
}

impl VariableHeaderProperties {
    /// Decodes a buffer holding only properties; the recorded length is the buffer length.
    /// Unknown identifiers are skipped; a bad UTF-8 Authentication Method or User Property
    /// is reported.
    pub fn from_be_bytes(properties: &[u8]) -> (res: Result<Self, MqttError>)
        requires
            properties@.len() > 0,
            connect_properties_at(properties@, 0) != ListStep::Panic,
        ensures
            match connect_properties_at(properties@, 0) {
                ListStep::Done(ps) => res matches Ok(v) && v.models() == ps && v.canonical()
                    && v.bytes_length == properties@.len(),
                _ => res == Err::<Self, MqttError>(MqttError::InvalidUtf8),
            },
    {
        let mut properties_vec: Vec<VariableHeaderProperty> = Vec::new();
        let mut i: usize = 0;
        let ghost whole = connect_properties_at(properties@, 0);
        while i < properties.len() - 1
            invariant
                properties@.len() > 0,
                0 <= i <= properties@.len(),
                whole == connect_properties_at(properties@, 0),
                connect_properties_at(properties@, i as int) != ListStep::Panic,
                match connect_properties_at(properties@, i as int) {
                    ListStep::Done(rest) => whole == ListStep::Done(models(properties_vec@) + rest),
                    other => whole == other,
                },
                forall|k: int| 0 <= k < properties_vec@.len() ==> #[trigger] properties_vec@[k].kind_id()
                    == properties_vec@[k]@.id,
            decreases properties@.len() - i,
        {
            let id = properties[i];
            i += 1;
            let property = match VariableHeaderProperties::property_from_be_bytes(properties, &mut i, id) {
                Ok(p) => p,
                Err(e) => {
                    return Err(e);
                },
            };
            if let Some(p) = property {
                let ghost before = properties_vec@;
                properties_vec.push(p);
                assert(models(properties_vec@) =~= models(before) + seq![p@]);
                proof {
                    match connect_properties_at(properties@, i as int) {
                        ListStep::Done(rest) => {
                            assert(models(before) + (seq![p@] + rest) =~= models(properties_vec@) + rest);
                        },
                        _ => {},
                    }
                }
            }
        }
        assert(connect_properties_at(properties@, i as int) == ListStep::Done(Seq::<PropertyModel>::empty()));
        assert(models(properties_vec@) + Seq::<PropertyModel>::empty() =~= models(properties_vec@));
        Ok(VariableHeaderProperties { bytes_length: properties.len(), properties: properties_vec })
    }
}

/// Decoding the bytes of an encodable value of a CONNECT property gives it back, with the
/// cursor after it.
proof fn lemma_connect_value_roundtrip(buf: Seq<u8>, pos: int, p: PropertyModel)
    requires
        0 <= pos,
        connect_encodable(p),
        pos + property_model::value_bytes(p.value).len() <= buf.len(),
        buf.subrange(pos, pos + property_model::value_bytes(p.value).len())
            == property_model::value_bytes(p.value),
    ensures
        connect_property_at(buf, pos, p.id) == Some(
            ValueStep::Value(p.value, pos + property_model::value_bytes(p.value).len()),
        ),
{
    property_model::lemma_value_roundtrip(buf, pos, p.value);
    match p.value {
        PropertyValue::TextPair(a, b) => {
            let ta = data_types::text_bytes(a);
            let tb = data_types::text_bytes(b);
            let e = property_model::value_bytes(p.value);
            assert(buf.subrange(pos, pos + ta.len()) =~= ta) by {
                assert forall|j: int| 0 <= j < ta.len() implies buf.subrange(pos, pos + ta.len())[j]
                    == ta[j] by {
                    assert(buf.subrange(pos, pos + e.len())[j] == e[j]);
                }
            }
            property_model::lemma_value_roundtrip(buf, pos, PropertyValue::Text(a));
            assert(buf.subrange(pos + ta.len(), pos + ta.len() + tb.len()) =~= tb) by {
                assert forall|j: int| 0 <= j < tb.len() implies buf.subrange(
                    pos + ta.len(),
                    pos + ta.len() + tb.len(),
                )[j] == tb[j] by {
                    assert(buf.subrange(pos, pos + e.len())[ta.len() + j] == e[ta.len() + j]);
                }
            }
            property_model::lemma_value_roundtrip(buf, pos + ta.len(), PropertyValue::Text(b));
        },
        _ => {},
    }
}

/// Decoding the encoded properties of a CONNECT variable header gives them back: when every
/// property is written under the identifier of its kind and its strings fit their length
/// fields, reading the bytes after the length returns the same properties.
#[verifier::spinoff_prover]
#[verifier::rlimit(30)]
pub proof fn lemma_connect_list_roundtrip(buf: Seq<u8>, pos: int, ps: Seq<PropertyModel>)
    requires
        0 <= pos,
        forall|i: int| 0 <= i < ps.len() ==> #[trigger] connect_encodable(ps[i]),
        buf.len() == pos + property_model::properties_bytes(ps).len(),
        buf.subrange(pos, buf.len() as int) == property_model::properties_bytes(ps),
    ensures
        connect_properties_at(buf, pos) == ListStep::Done(ps),
    decreases ps.len(),
{
    if ps.len() == 0 {
        assert(ps =~= Seq::<PropertyModel>::empty());
    } else {
        let p = ps[0];
        let e = property_model::properties_bytes(ps);
        let vb = property_model::value_bytes(p.value);
        assert(connect_encodable(p));
        property_model::lemma_value_bytes_len(p.value);
        assert(e == seq![p.id] + vb + property_model::properties_bytes(ps.drop_first()));
        assert(buf[pos] == p.id) by {
            assert(buf.subrange(pos, buf.len() as int)[0] == e[0]);
        }
        assert(buf.subrange(pos + 1, pos + 1 + vb.len()) =~= vb) by {
            assert forall|j: int| 0 <= j < vb.len() implies buf.subrange(pos + 1, pos + 1 + vb.len())[j]
                == vb[j] by {
                assert(buf.subrange(pos, buf.len() as int)[1 + j] == e[1 + j]);
            }
        }
        lemma_connect_value_roundtrip(buf, pos + 1, p);
        let np = pos + 1 + vb.len();
        assert(buf.subrange(np, buf.len() as int) =~= property_model::properties_bytes(ps.drop_first())) by {
            assert forall|j: int| 0 <= j < buf.len() - np implies buf.subrange(
                np,
                buf.len() as int,
            )[j] == property_model::properties_bytes(ps.drop_first())[j] by {
                assert(buf.subrange(pos, buf.len() as int)[1 + vb.len() + j] == e[1 + vb.len()
                    + j]);
            }
        }
        assert forall|i: int| 0 <= i < ps.drop_first().len() implies #[trigger] connect_encodable(
            ps.drop_first()[i],
        ) by {
            assert(connect_encodable(ps[i + 1]));
        }
        lemma_connect_list_roundtrip(buf, np, ps.drop_first());
        assert(seq![PropertyModel { id: p.id, value: p.value }] + ps.drop_first() =~= ps);
    }
}

/// What `as_bytes` writes after the length decodes, through `from_be_bytes`, to the same
/// properties, when every property is written under the identifier of its kind and its
/// strings fit their length fields.
#[verifier::spinoff_prover]
#[verifier::rlimit(30)]
pub proof fn lemma_block_roundtrip(v: &VariableHeaderProperties)
    requires
        v.canonical(),
        forall|i: int| 0 <= i < v.models().len() ==> property_model::value_fits(#[trigger] v.models()[i].value),
    ensures
        connect_properties_at(property_model::properties_bytes(v.models()), 0) == ListStep::Done(v.models()),
{
    let ps = v.models();
    assert forall|i: int| 0 <= i < ps.len() implies #[trigger] connect_encodable(ps[i]) by {
        assert(v.properties@[i].kind_id() == v.properties@[i]@.id);
        assert(ps[i] == v.properties@[i]@);
        assert(property_model::value_fits(ps[i].value));
    }
    let buf = property_model::properties_bytes(ps);
    assert(buf.subrange(0, buf.len() as int) =~= buf);
    lemma_connect_list_roundtrip(buf, 0, ps);
}

} // verus!
