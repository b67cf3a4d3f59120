//! The actions a client or a server records, and the line that describes each.
use vstd::prelude::*;

use crate::common::data_types::{concat_strings, push_part};
use crate::common::data_types;
use crate::control_packets::mqtt_packet::reason_codes::ReasonCode;
use crate::control_packets::mqtt_packet::reason_codes;
use crate::control_packets::mqtt_subscribe::subscribe_properties::TopicFilter;

verus! {

/// An action of a client or a server.
pub enum MqttActions {
    ServerConnection(String),
    ClientConnection(String, u8),
    ClientReceivePublish(String, String, String),
    ClientSendConnect(String, String),
    ClientSendPublish(String, String, String),
    ClientSendSubscribe(String, Vec<TopicFilter>),
    DisconnectClient,
    ServerPublishReceive(String, String),
    ServerSendPublish(String, String, Vec<String>),
    ServerSubscribeReceive(Vec<TopicFilter>),
    TryConnect,
    PackageError,
}

/// The text that `{:?}` gives for a list of topic filters, each taken as its filter and its
/// subscription options byte.
pub uninterp spec fn topic_filters_debug(filters: Seq<(Seq<char>, u8)>) -> Seq<char>;

/// The text that `{:?}` gives for a list of strings.
pub uninterp spec fn strings_debug(strings: Seq<Seq<char>>) -> Seq<char>;

/// The topic filters of a list, each as its filter and its subscription options byte.
pub open spec fn filter_values(filters: Seq<TopicFilter>) -> Seq<(Seq<char>, u8)> {
    filters.map_values(|t: TopicFilter| (t.topic_filter@, t.subscription_options))
}

/// Calls `format!("{:?}", ..)` on topic filters. Trusted: the result is the debug text of
/// the filters, which depends on the filters alone.
#[verifier::external_body]
fn debug_topic_filters(filters: &Vec<TopicFilter>) -> (res: String)
    ensures
        res@ == topic_filters_debug(filter_values(filters@)),
{
    format!("{:?}", filters)
}

/// Calls `format!("{:?}", ..)` on strings. Trusted: the result is the debug text of the
/// strings, which depends on their characters alone.
#[verifier::external_body]
fn debug_strings(strings: &Vec<String>) -> (res: String)
    ensures
        res@ == strings_debug(data_types::string_values(strings@)),
{
    format!("{:?}", strings)
}

/// The text of a reason code: its number, a dash and its name.
pub open spec fn reason_text(code: u8) -> Seq<char> {
    reason_codes::decimal(reason_codes::reason_code_id(reason_codes::reason_code_of(code)) as nat)
        + " - "@ + reason_codes::reason_code_label(reason_codes::reason_code_of(code))
}

/// The line that describes an action.
pub open spec fn action_text(a: &MqttActions) -> Seq<char> {
    match a {
        MqttActions::ServerConnection(id) => "CONNECT - Conexion establecida con '"@ + id@ + "'"@,
        MqttActions::ClientConnection(addrs, code) => "CONNACK - Conexion establecida con '"@
            + addrs@ + "' y reason code: "@ + reason_text(*code),
        MqttActions::ClientReceivePublish(id, msg, topic) => "PUBLISH - Cliente '"@ + id@
            + "' recibio: '"@ + msg@ + "' proveniente del topic: '"@ + topic@ + "'"@,
        MqttActions::ClientSendConnect(id, addrs) => "CONNECT - Cliente '"@ + id@
            + "' intenta conectarse a '"@ + addrs@ + "'"@,
        MqttActions::ClientSendPublish(id, msg, topic) => "PUBLISH - Cliente '"@ + id@
            + "' envio: '"@ + msg@ + "' al topico '"@ + topic@ + "'"@,
        MqttActions::ClientSendSubscribe(id, topics) => "SUBSCRIBE - Cliente '"@ + id@
            + "' se subscribió a "@ + topic_filters_debug(filter_values(topics@)),
        MqttActions::ServerPublishReceive(topic, msg) => "PUBLISH - Servidor recibio '"@ + msg@
            + "' del topico '"@ + topic@ + "'"@,
        MqttActions::ServerSendPublish(topic, msg, receivers) => "PUBLISH - Servidor envío '"@
            + msg@ + "' del topico '"@ + topic@ + "' a los clientes "@ + strings_debug(
            data_types::string_values(receivers@),
        ),
        MqttActions::ServerSubscribeReceive(topics) =>
            "SUBSCRIBE - Servidor recibio una subscripción a los tópicos '"@ + topic_filters_debug(
            filter_values(topics@),
        ) + "'"@,
        MqttActions::TryConnect => "Intentando conectar"@,
        MqttActions::DisconnectClient => "Desconectando cliente"@,
        MqttActions::PackageError => "Error en el paquete"@,
    }
}

impl MqttActions {
    /// The line that describes the action.
    pub fn to_string(&self) -> (res: String)
        ensures
            res@ == action_text(self),
    {
        let mut parts: Vec<String> = Vec::new();
        assert(data_types::string_values(parts@) =~= Seq::<Seq<char>>::empty());
        match self {
            MqttActions::ServerConnection(id) => {
                push_part(&mut parts, "CONNECT - Conexion establecida con '".to_owned());
                push_part(&mut parts, id.clone());
                push_part(&mut parts, "'".to_owned());
            },
            MqttActions::ClientConnection(addrs, code) => {
                let reason_code = ReasonCode::new(*code);
                push_part(&mut parts, "CONNACK - Conexion establecida con '".to_owned());
                push_part(&mut parts, addrs.clone());
                push_part(&mut parts, "' y reason code: ".to_owned());
                push_part(&mut parts, reason_code.to_string());
            },
            MqttActions::ClientReceivePublish(id, msg, topic) => {
                push_part(&mut parts, "PUBLISH - Cliente '".to_owned());
                push_part(&mut parts, id.clone());
                push_part(&mut parts, "' recibio: '".to_owned());
                push_part(&mut parts, msg.clone());
                push_part(&mut parts, "' proveniente del topic: '".to_owned());
                push_part(&mut parts, topic.clone());
                push_part(&mut parts, "'".to_owned());
            },
            MqttActions::ClientSendConnect(id, addrs) => {
                push_part(&mut parts, "CONNECT - Cliente '".to_owned());
                push_part(&mut parts, id.clone());
                push_part(&mut parts, "' intenta conectarse a '".to_owned());
                push_part(&mut parts, addrs.clone());
                push_part(&mut parts, "'".to_owned());
            },
            MqttActions::ClientSendPublish(id, msg, topic) => {
                push_part(&mut parts, "PUBLISH - Cliente '".to_owned());
                push_part(&mut parts, id.clone());
                push_part(&mut parts, "' envio: '".to_owned());
                push_part(&mut parts, msg.clone());
                push_part(&mut parts, "' al topico '".to_owned());
                push_part(&mut parts, topic.clone());
                push_part(&mut parts, "'".to_owned());
            },
            MqttActions::ClientSendSubscribe(id, topics) => {
                push_part(&mut parts, "SUBSCRIBE - Cliente '".to_owned());
                push_part(&mut parts, id.clone());
                push_part(&mut parts, "' se subscribió a ".to_owned());
                push_part(&mut parts, debug_topic_filters(topics));
            },
            MqttActions::ServerPublishReceive(topic, msg) => {
                push_part(&mut parts, "PUBLISH - Servidor recibio '".to_owned());
                push_part(&mut parts, msg.clone());
                push_part(&mut parts, "' del topico '".to_owned());
                push_part(&mut parts, topic.clone());
                push_part(&mut parts, "'".to_owned());
            },
            MqttActions::ServerSendPublish(topic, msg, receivers) => {
                push_part(&mut parts, "PUBLISH - Servidor envío '".to_owned());
                push_part(&mut parts, msg.clone());
                push_part(&mut parts, "' del topico '".to_owned());
                push_part(&mut parts, topic.clone());
                push_part(&mut parts, "' a los clientes ".to_owned());
                push_part(&mut parts, debug_strings(receivers));
            },
            MqttActions::ServerSubscribeReceive(topics) => {
                push_part(
                    &mut parts,
                    "SUBSCRIBE - Servidor recibio una subscripción a los tópicos '".to_owned(),
                );
                push_part(&mut parts, debug_topic_filters(topics));
                push_part(&mut parts, "'".to_owned());
            },
            MqttActions::TryConnect => {
                push_part(&mut parts, "Intentando conectar".to_owned());
            },
            MqttActions::DisconnectClient => {
                push_part(&mut parts, "Desconectando cliente".to_owned());
            },
            MqttActions::PackageError => {
                push_part(&mut parts, "Error en el paquete".to_owned());
            },
        }
        assert(data_types::joined(parts@) =~= action_text(self));
        concat_strings(parts)
    }
}

} // verus!
