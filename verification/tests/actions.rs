use mqtt::actions::MqttActions;
use mqtt::client::client_message::MqttClientMessage;
use mqtt::client::Message;
use mqtt::common::data_types::parse_decimal;
use mqtt::control_packets::mqtt_auth::auth_properties::AuthProperties;
use mqtt::control_packets::mqtt_packet::packet_properties::PacketProperties;
use mqtt::control_packets::mqtt_subscribe::subscribe_properties::TopicFilter;

#[test]
fn test_action_texts() {
    assert_eq!(
        MqttActions::ServerConnection("c1".to_string()).to_string(),
        "CONNECT - Conexion establecida con 'c1'"
    );
    assert_eq!(
        MqttActions::ClientConnection("127.0.0.1:1883".to_string(), 0).to_string(),
        "CONNACK - Conexion establecida con '127.0.0.1:1883' y reason code: 0 - Success"
    );
    assert_eq!(
        MqttActions::ClientReceivePublish("c1".to_string(), "hola".to_string(), "t".to_string())
            .to_string(),
        "PUBLISH - Cliente 'c1' recibio: 'hola' proveniente del topic: 't'"
    );
    assert_eq!(
        MqttActions::ClientSendConnect("c1".to_string(), "addr".to_string()).to_string(),
        "CONNECT - Cliente 'c1' intenta conectarse a 'addr'"
    );
    assert_eq!(
        MqttActions::ClientSendPublish("c1".to_string(), "m".to_string(), "t".to_string())
            .to_string(),
        "PUBLISH - Cliente 'c1' envio: 'm' al topico 't'"
    );
    assert_eq!(
        MqttActions::ServerPublishReceive("t".to_string(), "m".to_string()).to_string(),
        "PUBLISH - Servidor recibio 'm' del topico 't'"
    );
    assert_eq!(
        MqttActions::ServerSendPublish(
            "t".to_string(),
            "m".to_string(),
            vec!["a".to_string(), "b".to_string()]
        )
        .to_string(),
        "PUBLISH - Servidor envío 'm' del topico 't' a los clientes [\"a\", \"b\"]"
    );
    assert_eq!(MqttActions::TryConnect.to_string(), "Intentando conectar");
    assert_eq!(MqttActions::DisconnectClient.to_string(), "Desconectando cliente");
    assert_eq!(MqttActions::PackageError.to_string(), "Error en el paquete");
}

#[test]
fn test_action_texts_with_topic_filters() {
    let filters = vec![TopicFilter { topic_filter: "a/b".to_string(), subscription_options: 1 }];
    assert_eq!(
        MqttActions::ClientSendSubscribe("c1".to_string(), filters).to_string(),
        "SUBSCRIBE - Cliente 'c1' se subscribió a [TopicFilter { topic_filter: \"a/b\", subscription_options: 1 }]"
    );
    let filters = vec![TopicFilter { topic_filter: "x".to_string(), subscription_options: 0 }];
    assert_eq!(
        MqttActions::ServerSubscribeReceive(filters).to_string(),
        "SUBSCRIBE - Servidor recibio una subscripción a los tópicos '[TopicFilter { topic_filter: \"x\", subscription_options: 0 }]'"
    );
}

#[test]
fn test_parse_decimal() {
    assert_eq!(parse_decimal(&"0".to_string(), 10), Some(0));
    assert_eq!(parse_decimal(&"+10".to_string(), 10), Some(10));
    assert_eq!(parse_decimal(&"11".to_string(), 10), None);
    assert_eq!(parse_decimal(&"".to_string(), 10), None);
    assert_eq!(parse_decimal(&"-1".to_string(), 10), None);
    assert_eq!(parse_decimal(&"18446744073709551615".to_string(), u64::MAX), Some(u64::MAX));
    assert_eq!(parse_decimal(&"18446744073709551616".to_string(), u64::MAX), None);
}

#[test]
fn test_packet_properties_through_trait() {
    let props = AuthProperties {
        reason_code: 0,
        authentication_method: Some("m".to_string()),
        authentication_data: None,
        reason_string: None,
        user_property: None,
    };
    let size = PacketProperties::size_of(&props);
    let bytes = PacketProperties::as_bytes(&props).unwrap();
    assert_eq!(size as usize, bytes.len());
    let block = PacketProperties::as_variable_header_properties(&props).unwrap();
    assert_eq!(block.properties.len(), 1);
    let mut stream: &[u8] = &bytes;
    let read: AuthProperties = PacketProperties::read_from(&mut stream).unwrap();
    assert_eq!(read.authentication_method, Some("m".to_string()));
    assert_eq!(read.reason_code, 0);
}

#[test]
fn test_messages() {
    let m = Message { topic: "t".to_string(), data: "d".to_string() };
    assert_eq!(m.topic, "t");
    assert_eq!(m.data, "d");
    let c = MqttClientMessage { topic: "t".to_string(), data: vec![1, 2] };
    assert_eq!(c.data, vec![1, 2]);
}
