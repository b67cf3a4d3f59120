//! What a client decides and builds between its reads and writes: the requests it sends,
//! the message a received packet carries, and when its session expires.
use vstd::prelude::*;

pub mod client_message;

use crate::common::data_types::{concat_strings, push_part};
use crate::common::data_types;
use crate::config::client_config::ClientConfig;
use crate::control_packets::mqtt_disconnect::disconnect::Disconnect;
use crate::control_packets::mqtt_disconnect::disconnect_properties::{
    DisconnectProperties, DisconnectPropertiesView,
};
use crate::control_packets::mqtt_packet::packet::PacketReceived;
use crate::control_packets::mqtt_packet::reason_codes::ReasonCode;
use crate::control_packets::mqtt_packet::reason_codes;
use crate::control_packets::mqtt_publish::publish::Publish;
use crate::control_packets::mqtt_publish::publish;
use crate::control_packets::mqtt_publish::publish_properties::{
    PublishProperties, PublishPropertiesView,
};
use crate::control_packets::mqtt_subscribe::subscribe::Subscribe;
use crate::control_packets::mqtt_subscribe::subscribe_properties::SubscribeProperties;
use crate::control_packets::mqtt_subscribe::subscribe_properties;
use crate::control_packets::mqtt_unsubscribe::unsubscribe::Unsubscribe;
use crate::control_packets::mqtt_unsubscribe::unsubscribe_properties::UnsubscribeProperties;

verus! {

/// A message received on a topic, with its data as text.
pub struct Message {
    pub topic: String,
    pub data: String,
}

/// The topic filter a client subscribes with: its identifier, a slash, then the topic.
pub open spec fn client_topic(client_id: Seq<char>, topic: Seq<char>) -> Seq<char> {
    client_id + "/"@ + topic
}

/// Joins the client identifier and a topic with a slash.
pub fn client_topic_filter(client_id: &String, topic: &String) -> (res: String)
    ensures
        res@ == client_topic(client_id@, topic@),
{
    let mut parts: Vec<String> = Vec::new();
    assert(data_types::string_values(parts@) =~= Seq::<Seq<char>>::empty());
    push_part(&mut parts, client_id.clone());
    push_part(&mut parts, "/".to_owned());
    push_part(&mut parts, topic.clone());
    assert(data_types::joined(parts@) =~= client_topic(client_id@, topic@));
    concat_strings(parts)
}

/// The PUBLISH a client sends: its configured publish flags, the packet identifier, a
/// payload format indicator of 1 (the message is text), the topic and the message.
pub fn publish_packet(config: &ClientConfig, packet_identifier: u16, message: String, topic: String) -> (res: Publish)
    ensures
        res.fixed_header_flags == publish::publish_flags(
            config.pub_dup_flag,
            config.pub_qos,
            config.pub_retain,
        ),
        res.properties@ == (PublishPropertiesView {
            topic_name: topic@,
            packet_identifier,
            payload_format_indicator: Some(1),
            message_expiry_interval: None,
            topic_alias: None,
            response_topic: None,
            correlation_data: None,
            user_property: None,
            subscription_identifier: None,
            content_type: None,
            application_message: Some(message@),
        }),
{
    let mut properties = PublishProperties::default();
    properties.topic_name = topic;
    properties.packet_identifier = packet_identifier;
    properties.payload_format_indicator = Some(1);
    properties.application_message = Some(message);
    Publish::new(config.pub_dup_flag, config.pub_qos, config.pub_retain, properties)
}

/// The SUBSCRIBE a client sends: packet identifier 0, and for each topic the filter
/// `client_id/topic` with the given subscription options.
pub fn subscribe_packet(
    client_id: &String,
    topics: &Vec<String>,
    max_qos: u8,
    no_local_option: bool,
    retain_as_published: bool,
    retain_handling: u8,
) -> (res: Subscribe)
    ensures
        res.properties@.packet_identifier == 0,
        res.properties@.subscription_identifier is None,
        res.properties@.user_property is None,
        res.properties@.topic_filters.len() == topics@.len(),
        forall|i: int|
            0 <= i < topics@.len() ==> #[trigger] res.properties@.topic_filters[i] == (
                client_topic(client_id@, topics@[i]@),
                subscribe_properties::subscription_options(
                    max_qos,
                    no_local_option,
                    retain_as_published,
                    retain_handling,
                ),
            ),
{
    let mut properties = SubscribeProperties::default();
    let mut i: usize = 0;
    while i < topics.len()
        invariant
            i <= topics@.len(),
            properties@.packet_identifier == 0,
            properties@.subscription_identifier is None,
            properties@.user_property is None,
            properties@.topic_filters.len() == i,
            forall|k: int|
                0 <= k < i ==> #[trigger] properties@.topic_filters[k] == (
                    client_topic(client_id@, topics@[k]@),
                    subscribe_properties::subscription_options(
                        max_qos,
                        no_local_option,
                        retain_as_published,
                        retain_handling,
                    ),
                ),
        decreases topics@.len() - i,
    {
        let topic_filter = client_topic_filter(client_id, &topics[i]);
        let ghost before = properties.topic_filters@;
        let ghost old_view = properties@.topic_filters;
        properties.add_topic_filter(
            topic_filter,
            max_qos,
            no_local_option,
            retain_as_published,
            retain_handling,
        );
        assert(properties@.topic_filters[i as int] == (
            client_topic(client_id@, topics@[i as int]@),
            subscribe_properties::subscription_options(
                max_qos,
                no_local_option,
                retain_as_published,
                retain_handling,
            ),
        ));
        assert forall|k: int| 0 <= k < i implies #[trigger] properties@.topic_filters[k] == (
            client_topic(client_id@, topics@[k]@),
            subscribe_properties::subscription_options(
                max_qos,
                no_local_option,
                retain_as_published,
                retain_handling,
            ),
        ) by {
            assert(properties.topic_filters@[k] == before[k]);
            assert(old_view[k] == (
                client_topic(client_id@, topics@[k]@),
                subscribe_properties::subscription_options(
                    max_qos,
                    no_local_option,
                    retain_as_published,
                    retain_handling,
                ),
            ));
        }
        i += 1;
    }
    Subscribe::new(properties)
}

/// The message a received packet carries: the topic and the text of a PUBLISH (empty when
/// it has no message); other packets carry none.
pub fn received_message(packet: &PacketReceived) -> (res: Option<Message>)
    ensures
        match packet {
            PacketReceived::Publish(p) => res matches Some(m) && m.topic@ == p.properties@.topic_name
                && m.data@ == (match p.properties@.application_message {
                Some(d) => d,
                None => Seq::<char>::empty(),
            }),
            _ => res is None,
        },
{
    match packet {
        PacketReceived::Publish(p) => {
            let data = match &p.properties.application_message {
                Some(d) => d.clone(),
                None => String::new(),
            };
            Some(Message { topic: p.properties.topic_name.clone(), data })
        },
        _ => None,
    }
}

/// One more second of a session without messages: the counter goes up by one, and the
/// session has expired when an expiry interval is set and the counter is past it.
pub fn session_timer(counter: &mut u32, expiry_interval: u32) -> (expired: bool)
    requires
        *old(counter) < u32::MAX,
    ensures
        *final(counter) == *old(counter) + 1,
        expired == (expiry_interval != 0 && *final(counter) > expiry_interval),
{
    *counter += 1;
    expiry_interval != 0 && *counter > expiry_interval
}

/// The DISCONNECT a client sends with a reason code: none for a code a client may not
/// send; Success is sent as Normal Disconnection. It carries no other property.
pub fn disconnect_packet(reason_code: ReasonCode) -> (res: Option<Disconnect>)
    ensures
        !reason_codes::client_disconnect_code(reason_code) ==> res is None,
        reason_codes::client_disconnect_code(reason_code) ==> (res matches Some(d) && d.properties@
            == (DisconnectPropertiesView {
            disconnect_reason_code: if reason_code == ReasonCode::Success {
                reason_codes::reason_code_id(ReasonCode::NormalDisconnection)
            } else {
                reason_codes::reason_code_id(reason_code)
            },
            session_expiry_interval: None,
            reason_string: None,
            user_property: None,
            server_reference: None,
        })),
{
    if !reason_code.is_valid_disconnect_code_from_client() {
        return None;
    }
    let disconnect_reason_code;
    if let ReasonCode::Success = reason_code {
        disconnect_reason_code = ReasonCode::NormalDisconnection.get_id();
    } else {
        disconnect_reason_code = reason_code.get_id();
    }
    let properties = DisconnectProperties {
        disconnect_reason_code,
        session_expiry_interval: None,
        reason_string: None,
        user_property: None,
        server_reference: None,
    };
    Some(Disconnect::new(properties))
}

/// The UNSUBSCRIBE a client sends: the packet identifier, and for each topic the filter
/// `client_id/topic`.
pub fn unsubscribe_packet(client_id: &String, topics: &Vec<String>, packet_identifier: u16) -> (res: Unsubscribe)
    ensures
        res.properties@.packet_identifier == packet_identifier,
        res.properties@.user_property is None,
        res.properties@.topic_filters.len() == topics@.len(),
        forall|i: int|
            0 <= i < topics@.len() ==> #[trigger] res.properties@.topic_filters[i] == client_topic(
                client_id@,
                topics@[i]@,
            ),
{
    let mut properties = UnsubscribeProperties::default();
    properties.packet_identifier = packet_identifier;
    let mut i: usize = 0;
    while i < topics.len()
        invariant
            i <= topics@.len(),
            properties@.packet_identifier == packet_identifier,
            properties@.user_property is None,
            properties@.topic_filters.len() == i,
            forall|k: int|
                0 <= k < i ==> #[trigger] properties@.topic_filters[k] == client_topic(
                    client_id@,
                    topics@[k]@,
                ),
        decreases topics@.len() - i,
    {
        let topic_filter = client_topic_filter(client_id, &topics[i]);
        let ghost old_view = properties@.topic_filters;
        properties.topic_filters.push(topic_filter);
        assert forall|k: int| 0 <= k < i + 1 implies #[trigger] properties@.topic_filters[k]
            == client_topic(client_id@, topics@[k]@) by {
            if k < i {
                assert(old_view[k] == client_topic(client_id@, topics@[k]@));
            }
        }
        i += 1;
    }
    Unsubscribe::new(properties)
}

} // verus!
