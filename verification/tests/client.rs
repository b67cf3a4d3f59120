use mqtt::client::{
    client_topic_filter, disconnect_packet, publish_packet, received_message,
    session_timer, subscribe_packet, unsubscribe_packet,
};
use mqtt::config::client_config::ClientConfig;
use mqtt::control_packets::mqtt_packet::packet::PacketReceived;
use mqtt::control_packets::mqtt_packet::reason_codes::ReasonCode;
use mqtt::control_packets::mqtt_pingresp::pingresp::PingResp;

fn config() -> ClientConfig {
    let params: Vec<(String, String)> = [
        ("id", "client_1"),
        ("ip", "127.0.0.1"),
        ("port", "1883"),
        ("log_path", "log.csv"),
        ("log_in_terminal", "false"),
        ("publish_dup", "true"),
        ("publish_qos", "1"),
        ("publish_retain", "true"),
    ]
    .iter()
    .map(|(k, v)| (k.to_string(), v.to_string()))
    .collect();
    let valid = vec![true; params.len()];
    ClientConfig::set_params(&params, &valid).unwrap()
}

#[test]
fn test_client_topic_filter() {
    assert_eq!(client_topic_filter(&"c".to_string(), &"news".to_string()), "c/news");
}

#[test]
fn test_publish_packet() {
    let publish = publish_packet(&config(), 7, "hello".to_string(), "t".to_string());
    assert_eq!(publish.fixed_header_flags, 0b1011);
    assert_eq!(publish.properties.packet_identifier, 7);
    assert_eq!(publish.properties.topic_name, "t");
    assert_eq!(publish.properties.payload_format_indicator, Some(1));
    assert_eq!(publish.properties.application_message, Some("hello".to_string()));

    let packet = PacketReceived::Publish(Box::new(publish));
    let message = received_message(&packet).unwrap();
    assert_eq!(message.topic, "t");
    assert_eq!(message.data, "hello");
}

#[test]
fn test_received_message_other_packet() {
    let packet = PacketReceived::PingResp(Box::new(PingResp));
    assert!(received_message(&packet).is_none());
}

#[test]
fn test_subscribe_packet() {
    let topics = vec!["a".to_string(), "b".to_string()];
    let subscribe = subscribe_packet(&"c1".to_string(), &topics, 1, true, false, 2);
    let filters = &subscribe.properties.topic_filters;
    assert_eq!(subscribe.properties.packet_identifier, 0);
    assert_eq!(filters.len(), 2);
    assert_eq!(filters[0].topic_filter, "c1/a");
    assert_eq!(filters[1].topic_filter, "c1/b");
    assert_eq!(filters[0].subscription_options, 1 | 4 | (2 << 4));
}

#[test]
fn test_session_timer() {
    let mut counter = 0;
    assert!(!session_timer(&mut counter, 2));
    assert!(!session_timer(&mut counter, 2));
    assert!(session_timer(&mut counter, 2));
    assert_eq!(counter, 3);
    let mut counter = 100;
    assert!(!session_timer(&mut counter, 0));
}

#[test]
fn test_disconnect_packet() {
    assert!(disconnect_packet(ReasonCode::Success).is_none());
    assert!(disconnect_packet(ReasonCode::ServerBusy).is_none());
    let d = disconnect_packet(ReasonCode::NormalDisconnection).unwrap();
    assert_eq!(d.properties.disconnect_reason_code, 0);
    let d = disconnect_packet(ReasonCode::DisconnectWithWillMessage).unwrap();
    assert_eq!(d.properties.disconnect_reason_code, 4);
    assert!(d.properties.reason_string.is_none());
}

#[test]
fn test_unsubscribe_packet() {
    let topics = vec!["a".to_string(), "b/c".to_string()];
    let u = unsubscribe_packet(&"c1".to_string(), &topics, 9);
    assert_eq!(u.properties.packet_identifier, 9);
    assert_eq!(u.properties.topic_filters, vec!["c1/a".to_string(), "c1/b/c".to_string()]);
}
