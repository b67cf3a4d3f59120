use mqtt::control_packets::mqtt_packet::reason_codes::ReasonCode;

#[test]
fn reason_code_values() {
    assert_eq!(ReasonCode::Success.get_id(), 0);
    assert_eq!(ReasonCode::NormalDisconnection.get_id(), 0);
    assert_eq!(ReasonCode::GrantedQoS2.get_id(), 2);
    assert_eq!(ReasonCode::ReceiveMaximumExceeded.get_id(), 147);
    assert_eq!(ReasonCode::WildcardSubscriptionsNotSupported.get_id(), 162);
}

#[test]
fn reason_code_from_value() {
    assert_eq!(ReasonCode::new(0), ReasonCode::Success);
    assert_eq!(ReasonCode::new(147), ReasonCode::ReceiveMaximumExceeded);
    assert_eq!(ReasonCode::new(3), ReasonCode::UnspecifiedError);
    assert_eq!(ReasonCode::new(146), ReasonCode::UnspecifiedError);
    assert_eq!(ReasonCode::new(ReasonCode::Banned.get_id()), ReasonCode::Banned);
}

#[test]
fn disconnect_codes() {
    assert!(ReasonCode::NormalDisconnection.is_valid_disconnect_code_from_server());
    assert!(ReasonCode::ServerShuttingDown.is_valid_disconnect_code_from_server());
    assert!(!ReasonCode::DisconnectWithWillMessage.is_valid_disconnect_code_from_server());
    assert!(ReasonCode::DisconnectWithWillMessage.is_valid_disconnect_code_from_client());
    assert!(!ReasonCode::ServerShuttingDown.is_valid_disconnect_code_from_client());
    assert!(!ReasonCode::Success.is_valid_disconnect_code_from_client());
}

#[test]
fn reason_code_text() {
    assert_eq!(ReasonCode::Success.to_string(), "0 - Success".to_string());
    assert_eq!(
        ReasonCode::ReceiveMaximumExceeded.to_string(),
        "147 - Receive maximum exceeded".to_string()
    );
}
