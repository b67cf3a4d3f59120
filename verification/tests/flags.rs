use mqtt::common::data_types::MqttError;
use mqtt::common::flags::flags_handler as common_flags;
use mqtt::control_packets::mqtt_packet::flags::flags_handler;

#[test]
fn connect_flag_getters() {
    let flags = 0b1101_0110u8;
    assert_eq!(flags_handler::get_connect_flag_reserved(flags), 0);
    assert_eq!(flags_handler::get_connect_flag_clean_start(flags), 1);
    assert_eq!(flags_handler::get_connect_flag_will_flag(flags), 1);
    assert_eq!(flags_handler::get_connect_flag_will_qos(flags), 2);
    assert_eq!(flags_handler::get_connect_flag_will_retain(flags), 0);
    assert_eq!(flags_handler::get_connect_flag_password(flags), 1);
    assert_eq!(flags_handler::get_connect_flag_username(flags), 1);
    assert_eq!(common_flags::get_connect_flag_will_qos(flags), 2);
    assert_eq!(common_flags::get_connect_acknowledge_flag_session_present(1), 1);
}

#[test]
fn publish_and_subscribe_flag_getters() {
    let flags = 0x3Du8; // 0011 1101: DUP, QoS 2, RETAIN
    assert_eq!(flags_handler::get_publish_dup_flag(flags), 1);
    assert_eq!(flags_handler::get_publish_qos_level(flags), 2);
    assert_eq!(flags_handler::get_publish_retain(flags), 1);
    let options = 0b0010_1110u8;
    assert_eq!(flags_handler::get_subscribe_max_qos(options), 2);
    assert_eq!(flags_handler::get_subscribe_no_local_option(options), 1);
    assert_eq!(flags_handler::get_subscribe_retain_as_published(options), 1);
    assert_eq!(flags_handler::get_subscribe_retain_handling(options), 2);
    assert_eq!(common_flags::get_subscribe_retain_handling(options), 2);
}

#[test]
fn adding_connect_flags() {
    let flags = flags_handler::add_connect_flag_clean_start(0, "true".to_string()).unwrap();
    let flags = flags_handler::add_connect_flag_will_flag(flags, "false".to_string()).unwrap();
    let flags = flags_handler::add_connect_flag_will_qos(flags, "1".to_string()).unwrap();
    let flags = flags_handler::add_connect_flag_will_retain(flags, "true".to_string()).unwrap();
    let flags = flags_handler::add_connect_flag_password(flags, "true".to_string()).unwrap();
    let flags = flags_handler::add_connect_flag_username(flags, "true".to_string()).unwrap();
    assert_eq!(flags, 0b1110_1010);
    assert_eq!(flags_handler::get_connect_flag_will_qos(flags), 1);
    assert_eq!(flags_handler::get_connect_flag_will_flag(flags), 0);
    assert_eq!(
        flags_handler::add_connect_flag_username(0, "yes".to_string()),
        Err(MqttError::InvalidFlag)
    );
    assert_eq!(
        flags_handler::add_connect_flag_will_qos(0, "300".to_string()),
        Err(MqttError::InvalidNumber)
    );
    assert_eq!(flags_handler::catch_true_false(&"false".to_string()), Ok(0));
    assert_eq!(flags_handler::catch_true_false(&"1".to_string()), Err(MqttError::InvalidFlag));
}

#[test]
fn adding_connect_flags_from_text() {
    let flags = common_flags::add_connect_flag_clean_start(0, "true".to_string()).unwrap();
    let flags = common_flags::add_connect_flag_will_qos(flags, "2".to_string()).unwrap();
    let flags = common_flags::add_connect_flag_will_flag(flags, "true".to_string()).unwrap();
    let flags = common_flags::add_connect_flag_will_retain(flags, "false".to_string()).unwrap();
    let flags = common_flags::add_connect_flag_password(flags, "false".to_string()).unwrap();
    let flags = common_flags::add_connect_flag_username(flags, "true".to_string()).unwrap();
    assert_eq!(flags, 0b1001_0110);
    assert_eq!(
        common_flags::add_connect_flag_password(0, "TRUE".to_string()),
        Err(MqttError::InvalidFlag)
    );
}
