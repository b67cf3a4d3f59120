//! What every properties record of a packet offers: its size, its properties block, its
//! bytes, and reading it from a stream.
use vstd::prelude::*;

use crate::common::data_types::MqttError;
use crate::control_packets::mqtt_auth::auth_properties::AuthProperties;
use crate::control_packets::mqtt_auth::auth_properties;
use crate::control_packets::mqtt_connack::connack_properties::ConnackProperties;
use crate::control_packets::mqtt_connack::connack_properties;
use crate::control_packets::mqtt_connect::payload::ConnectPayload;
use crate::control_packets::mqtt_connect::payload;
use crate::control_packets::mqtt_disconnect::disconnect_properties::DisconnectProperties;
use crate::control_packets::mqtt_disconnect::disconnect_properties;
use crate::control_packets::mqtt_puback::puback_properties::PubackProperties;
use crate::control_packets::mqtt_puback::puback_properties;
use crate::control_packets::mqtt_publish::publish_properties::PublishProperties;
use crate::control_packets::mqtt_publish::publish_properties;
use crate::control_packets::mqtt_subscribe::subscribe_properties::SubscribeProperties;
use crate::control_packets::mqtt_subscribe::subscribe_properties;
use crate::control_packets::mqtt_packet::property_model::PropertyModel;
use crate::control_packets::mqtt_packet::property_model;
use crate::control_packets::mqtt_packet::variable_header_properties::VariableHeaderProperties;

verus! {

/// The properties of a packet: how many bytes they take, the properties block they make,
/// their bytes, and how they are read back.
pub trait PacketProperties: Sized {
    /// The bytes of the record.
    spec fn record_bytes(&self) -> Seq<u8>;

    /// The properties of the block the record makes.
    spec fn block_models(&self) -> Seq<PropertyModel>;

    /// The record can be written: its properties fit in one block and its strings fit
    /// their length fields.
    spec fn writable(&self) -> bool;

    /// The size of the record can be counted.
    spec fn countable(&self) -> bool;

    /// Reading a record from this stream does not hit a decoding panic.
    spec fn readable(s: Seq<u8>) -> bool;

    /// Reading the stream `s` gives `res` and leaves `rest`.
    spec fn reads(s: Seq<u8>, res: Result<Self, MqttError>, rest: Seq<u8>) -> bool;

    /// The number of bytes the record takes.
    fn size_of(&self) -> (res: u32)
        requires
            self.countable(),
        ensures
            res == self.record_bytes().len(),
    ;

    /// The properties block of the record.
    fn as_variable_header_properties(&self) -> (res: Result<VariableHeaderProperties, MqttError>)
        requires
            self.writable(),
        ensures
            res matches Ok(b) && b.wf() && b.models() == self.block_models(),
    ;

    /// The bytes of the record.
    fn as_bytes(&self) -> (res: Result<Vec<u8>, MqttError>)
        requires
            self.writable(),
        ensures
            res matches Ok(b) && b@ == self.record_bytes(),
    ;

    /// Reads a record from a stream.
    fn read_from(stream: &mut &[u8]) -> (res: Result<Self, MqttError>)
        requires
            Self::readable(old(stream)@),
        ensures
            Self::reads(old(stream)@, res, final(stream)@),
    ;
}

impl PacketProperties for AuthProperties {
    open spec fn record_bytes(&self) -> Seq<u8> {
        auth_properties::auth_properties_bytes(self@)
    }

    open spec fn block_models(&self) -> Seq<PropertyModel> {
        property_model::slot_list(auth_properties::auth_properties_slots(self@))
    }

    open spec fn writable(&self) -> bool {
        auth_properties::auth_properties_fit(self@)
    }

    open spec fn countable(&self) -> bool {
        auth_properties::auth_properties_fit(self@)
    }

    open spec fn readable(s: Seq<u8>) -> bool {
        auth_properties::auth_properties_safe(s)
    }

    open spec fn reads(s: Seq<u8>, res: Result<Self, MqttError>, rest: Seq<u8>) -> bool {
        (auth_properties::auth_properties_result(res), rest) == auth_properties::auth_properties_read(s)
    }

    fn size_of(&self) -> (res: u32) {
        AuthProperties::size_of(self)
    }

    fn as_variable_header_properties(&self) -> (res: Result<VariableHeaderProperties, MqttError>) {
        AuthProperties::as_variable_header_properties(self)
    }

    fn as_bytes(&self) -> (res: Result<Vec<u8>, MqttError>) {
        AuthProperties::as_bytes(self)
    }

    fn read_from(stream: &mut &[u8]) -> (res: Result<Self, MqttError>) {
        AuthProperties::read_from(stream)
    }
}

impl PacketProperties for ConnackProperties {
    open spec fn record_bytes(&self) -> Seq<u8> {
        connack_properties::connack_properties_bytes(self@)
    }

    open spec fn block_models(&self) -> Seq<PropertyModel> {
        property_model::slot_list(connack_properties::connack_properties_slots(self@))
    }

    open spec fn writable(&self) -> bool {
        connack_properties::connack_properties_fit(self@)
    }

    open spec fn countable(&self) -> bool {
        connack_properties::connack_properties_fit(self@)
    }

    open spec fn readable(s: Seq<u8>) -> bool {
        connack_properties::connack_properties_safe(s)
    }

    open spec fn reads(s: Seq<u8>, res: Result<Self, MqttError>, rest: Seq<u8>) -> bool {
        (connack_properties::connack_properties_result(res), rest) == connack_properties::connack_properties_read(s)
    }

    fn size_of(&self) -> (res: u32) {
        ConnackProperties::size_of(self)
    }

    fn as_variable_header_properties(&self) -> (res: Result<VariableHeaderProperties, MqttError>) {
        ConnackProperties::as_variable_header_properties(self)
    }

    fn as_bytes(&self) -> (res: Result<Vec<u8>, MqttError>) {
        ConnackProperties::as_bytes(self)
    }

    fn read_from(stream: &mut &[u8]) -> (res: Result<Self, MqttError>) {
        ConnackProperties::read_from(stream)
    }
}

impl PacketProperties for ConnectPayload {
    open spec fn record_bytes(&self) -> Seq<u8> {
        payload::connect_payload_bytes(self@)
    }

    open spec fn block_models(&self) -> Seq<PropertyModel> {
        property_model::slot_list(payload::connect_payload_slots(self@))
    }

    open spec fn writable(&self) -> bool {
        payload::connect_payload_fit(self@)
    }

    open spec fn countable(&self) -> bool {
        payload::connect_payload_fit(self@) && payload::connect_payload_bytes(self@).len() <= u16::MAX
    }

    open spec fn readable(s: Seq<u8>) -> bool {
        payload::connect_payload_safe(s)
    }

    open spec fn reads(s: Seq<u8>, res: Result<Self, MqttError>, rest: Seq<u8>) -> bool {
        (payload::connect_payload_result(res), rest) == payload::connect_payload_read(s)
    }

    fn size_of(&self) -> (res: u32) {
        ConnectPayload::size_of(self) as u32
    }

    fn as_variable_header_properties(&self) -> (res: Result<VariableHeaderProperties, MqttError>) {
        ConnectPayload::as_variable_header_properties(self)
    }

    fn as_bytes(&self) -> (res: Result<Vec<u8>, MqttError>) {
        ConnectPayload::as_bytes(self)
    }

    fn read_from(stream: &mut &[u8]) -> (res: Result<Self, MqttError>) {
        ConnectPayload::read_from(stream)
    }
}

impl PacketProperties for DisconnectProperties {
    open spec fn record_bytes(&self) -> Seq<u8> {
        disconnect_properties::disconnect_properties_bytes(self@)
    }

    open spec fn block_models(&self) -> Seq<PropertyModel> {
        property_model::slot_list(disconnect_properties::disconnect_properties_slots(self@))
    }

    open spec fn writable(&self) -> bool {
        disconnect_properties::disconnect_properties_fit(self@)
    }

    open spec fn countable(&self) -> bool {
        disconnect_properties::disconnect_properties_fit(self@)
    }

    open spec fn readable(s: Seq<u8>) -> bool {
        disconnect_properties::disconnect_properties_safe(s)
    }

    open spec fn reads(s: Seq<u8>, res: Result<Self, MqttError>, rest: Seq<u8>) -> bool {
        (disconnect_properties::disconnect_properties_result(res), rest) == disconnect_properties::disconnect_properties_read(s)
    }

    fn size_of(&self) -> (res: u32) {
        DisconnectProperties::size_of(self)
    }

    fn as_variable_header_properties(&self) -> (res: Result<VariableHeaderProperties, MqttError>) {
        DisconnectProperties::as_variable_header_properties(self)
    }

    fn as_bytes(&self) -> (res: Result<Vec<u8>, MqttError>) {
        DisconnectProperties::as_bytes(self)
    }

    fn read_from(stream: &mut &[u8]) -> (res: Result<Self, MqttError>) {
        DisconnectProperties::read_from(stream)
    }
}

impl PacketProperties for PubackProperties {
    open spec fn record_bytes(&self) -> Seq<u8> {
        puback_properties::puback_properties_bytes(self@)
    }

    open spec fn block_models(&self) -> Seq<PropertyModel> {
        property_model::slot_list(puback_properties::puback_properties_slots(self@))
    }

    open spec fn writable(&self) -> bool {
        puback_properties::puback_properties_fit(self@)
    }

    open spec fn countable(&self) -> bool {
        puback_properties::puback_properties_fit(self@)
    }

    open spec fn readable(s: Seq<u8>) -> bool {
        puback_properties::puback_properties_safe(s)
    }

    open spec fn reads(s: Seq<u8>, res: Result<Self, MqttError>, rest: Seq<u8>) -> bool {
        (puback_properties::puback_properties_result(res), rest) == puback_properties::puback_properties_read(s)
    }

    fn size_of(&self) -> (res: u32) {
        PubackProperties::size_of(self)
    }

    fn as_variable_header_properties(&self) -> (res: Result<VariableHeaderProperties, MqttError>) {
        PubackProperties::as_variable_header_properties(self)
    }

    fn as_bytes(&self) -> (res: Result<Vec<u8>, MqttError>) {
        PubackProperties::as_bytes(self)
    }

    fn read_from(stream: &mut &[u8]) -> (res: Result<Self, MqttError>) {
        PubackProperties::read_from(stream)
    }
}

impl PacketProperties for PublishProperties {
    open spec fn record_bytes(&self) -> Seq<u8> {
        publish_properties::publish_properties_bytes(self@)
    }

    open spec fn block_models(&self) -> Seq<PropertyModel> {
        property_model::slot_list(publish_properties::publish_properties_slots(self@))
    }

    open spec fn writable(&self) -> bool {
        publish_properties::publish_properties_fit(self@)
    }

    open spec fn countable(&self) -> bool {
        publish_properties::publish_properties_fit(self@) && publish_properties::publish_properties_bytes(self@).len() <= u32::MAX
    }

    open spec fn readable(s: Seq<u8>) -> bool {
        publish_properties::publish_properties_safe(s)
    }

    open spec fn reads(s: Seq<u8>, res: Result<Self, MqttError>, rest: Seq<u8>) -> bool {
        (publish_properties::publish_properties_result(res), rest) == publish_properties::publish_properties_read(s)
    }

    fn size_of(&self) -> (res: u32) {
        PublishProperties::size_of(self)
    }

    fn as_variable_header_properties(&self) -> (res: Result<VariableHeaderProperties, MqttError>) {
        PublishProperties::as_variable_header_properties(self)
    }

    fn as_bytes(&self) -> (res: Result<Vec<u8>, MqttError>) {
        PublishProperties::as_bytes(self)
    }

    fn read_from(stream: &mut &[u8]) -> (res: Result<Self, MqttError>) {
        PublishProperties::read_from(stream)
    }
}

impl PacketProperties for SubscribeProperties {
    open spec fn record_bytes(&self) -> Seq<u8> {
        subscribe_properties::subscribe_properties_bytes(self@)
    }

    open spec fn block_models(&self) -> Seq<PropertyModel> {
        property_model::slot_list(subscribe_properties::subscribe_properties_slots(self@))
    }

    open spec fn writable(&self) -> bool {
        subscribe_properties::subscribe_properties_fit(self@)
    }

    open spec fn countable(&self) -> bool {
        subscribe_properties::subscribe_properties_fit(self@) && subscribe_properties::subscribe_properties_bytes(self@).len() <= u32::MAX
    }

    open spec fn readable(s: Seq<u8>) -> bool {
        subscribe_properties::subscribe_properties_safe(s)
    }

    open spec fn reads(s: Seq<u8>, res: Result<Self, MqttError>, rest: Seq<u8>) -> bool {
        (subscribe_properties::subscribe_properties_result(res), rest) == subscribe_properties::subscribe_properties_read(s)
    }

    fn size_of(&self) -> (res: u32) {
        SubscribeProperties::size_of(self)
    }

    fn as_variable_header_properties(&self) -> (res: Result<VariableHeaderProperties, MqttError>) {
        SubscribeProperties::as_variable_header_properties(self)
    }

    fn as_bytes(&self) -> (res: Result<Vec<u8>, MqttError>) {
        SubscribeProperties::as_bytes(self)
    }

    fn read_from(stream: &mut &[u8]) -> (res: Result<Self, MqttError>) {
        SubscribeProperties::read_from(stream)
    }
}

} // verus!
