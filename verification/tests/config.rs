use mqtt::configs::server_config::ServerConfig as ThreadedServerConfig;
use mqtt::common::utils::get_file_parameters;
use mqtt::config::client_config::ClientConfig;
use mqtt::config::mqtt_config::{ConfigError, MqttConfig};
use mqtt::config::server_config::ServerConfig;

fn params(pairs: &[(&str, &str)]) -> Vec<(String, String)> {
    pairs.iter().map(|(k, v)| (k.to_string(), v.to_string())).collect()
}

fn general() -> Vec<(String, String)> {
    params(&[
        ("id", "client_1"),
        ("ip", "127.0.0.1"),
        ("port", "1883"),
        ("log_path", "log.csv"),
        ("log_in_terminal", "true"),
    ])
}

#[test]
fn test_mqtt_config_reads_fields() {
    let p = general();
    let valid = vec![true; p.len()];
    let config = MqttConfig::set_params(&p, &valid).unwrap();
    assert_eq!(config.id, "client_1");
    assert_eq!(config.ip, "127.0.0.1");
    assert_eq!(config.port, 1883);
    assert_eq!(config.log_path, "log.csv");
    assert!(config.log_in_term);
}

#[test]
fn test_mqtt_config_errors() {
    let mut p = general();
    p.push(("port".to_string(), "70000".to_string()));
    let valid = vec![true; p.len()];
    assert_eq!(MqttConfig::set_params(&p, &valid).err(), Some(ConfigError::InvalidPort));

    let p = general();
    let mut valid = vec![true; p.len()];
    valid[1] = false;
    assert_eq!(MqttConfig::set_params(&p, &valid).err(), Some(ConfigError::InvalidIp));

    let p = params(&[("id", "a"), ("ip", "1.2.3.4"), ("port", "1")]);
    let valid = vec![true; p.len()];
    assert_eq!(
        MqttConfig::set_params(&p, &valid).err(),
        Some(ConfigError::MissingParameters)
    );

    let mut p = general();
    p[4].1 = "yes".to_string();
    let valid = vec![true; p.len()];
    assert_eq!(
        MqttConfig::set_params(&p, &valid).err(),
        Some(ConfigError::InvalidLogInTerminal)
    );
}

#[test]
fn test_client_config_reads_fields() {
    let mut p = general();
    p.extend(params(&[
        ("protocol_version", "5"),
        ("flag_clean_start", "true"),
        ("flag_will_qos", "1"),
        ("flag_username", "true"),
        ("keep_alive", "+60"),
        ("session_expiry_interval", "4294967295"),
        ("receive_maximum", "20"),
        ("maximum_packet_size", "1024"),
        ("topic_alias_maximum", "10"),
        ("request_response_information", "true"),
        ("request_problem_information", "false"),
        ("authentication_method", "password"),
        ("authentication_data", "secret"),
        ("publish_dup", "true"),
        ("publish_qos", "1"),
        ("publish_retain", "false"),
        ("subscribe_max_qos", "2"),
        ("subscribe_no_local", "true"),
        ("subscribe_retain_as_published", "false"),
        ("subscribe_retain_handling", "1"),
        ("cert_path", "cert.pfx"),
    ]));
    let valid = vec![true; p.len()];
    let config = ClientConfig::set_params(&p, &valid).unwrap();
    let props = &config.connect_properties;
    assert_eq!(config.general.id, "client_1");
    assert_eq!(props.protocol_name, "MQTT");
    assert_eq!(props.protocol_version, 5);
    assert_eq!(props.connect_flags, 0b1000_1010);
    assert_eq!(props.keep_alive, 60);
    assert_eq!(props.session_expiry_interval, Some(4294967295));
    assert_eq!(props.receive_maximum, Some(20));
    assert_eq!(props.maximum_packet_size, Some(1024));
    assert_eq!(props.topic_alias_maximum, Some(10));
    assert_eq!(props.request_response_information, Some(1));
    assert_eq!(props.request_problem_information, Some(0));
    assert_eq!(props.authentication_method, Some("password".to_string()));
    assert_eq!(props.authentication_data, Some("secret".to_string()));
    assert_eq!(config.pub_dup_flag, 1);
    assert_eq!(config.pub_qos, 1);
    assert_eq!(config.pub_retain, 0);
    assert_eq!(config.sub_max_qos, 2);
    assert!(config.sub_no_local);
    assert!(!config.sub_retain_as_published);
    assert_eq!(config.sub_retain_handling, 1);
}

#[test]
fn test_client_config_errors() {
    let cases: Vec<(&str, &str, ConfigError)> = vec![
        ("protocol_version", "256", ConfigError::InvalidProtocolVersion),
        ("flag_password", "maybe", ConfigError::InvalidFlag),
        ("flag_will_qos", "x", ConfigError::InvalidFlag),
        ("keep_alive", "-1", ConfigError::InvalidKeepAlive),
        ("session_expiry_interval", "4294967296", ConfigError::InvalidSessionExpiryInterval),
        ("receive_maximum", "", ConfigError::InvalidReceiveMaximum),
        ("maximum_packet_size", "1e3", ConfigError::InvalidMaximumPacketSize),
        ("topic_alias_maximum", "65536", ConfigError::InvalidTopicAliasMaximum),
        ("request_response_information", "1", ConfigError::InvalidBool),
        ("publish_qos", "+", ConfigError::InvalidNumber),
        ("subscribe_max_qos", "300", ConfigError::InvalidSubscribeMaxQos),
        ("subscribe_retain_handling", "two", ConfigError::InvalidSubscribeRetainHandling),
        ("unknown_key", "1", ConfigError::ParameterNotFound),
    ];
    for (key, value, error) in cases {
        let mut p = general();
        p.push((key.to_string(), value.to_string()));
        let valid = vec![true; p.len()];
        assert_eq!(ClientConfig::set_params(&p, &valid).err(), Some(error));
    }
}

#[test]
fn test_client_config_general_errors_come_first() {
    let mut p = params(&[("unknown_key", "1")]);
    p.extend(general());
    p[3].1 = "not a port".to_string();
    let valid = vec![true; p.len()];
    assert_eq!(ClientConfig::set_params(&p, &valid).err(), Some(ConfigError::InvalidPort));
}

#[test]
fn test_server_config_db_path() {
    let mut p = general();
    p.push(("db_path".to_string(), "first.db".to_string()));
    p.push(("db_path".to_string(), "second.db".to_string()));
    let valid = vec![true; p.len()];
    let config = ServerConfig::set_params(&p, &valid).unwrap();
    assert_eq!(config.db_path, Some("first.db".to_string()));
    assert_eq!(config.general.port, 1883);

    let p = general();
    let valid = vec![true; p.len()];
    assert_eq!(ServerConfig::set_params(&p, &valid).unwrap().db_path, None);
}

#[test]
fn test_get_file_parameters() {
    let lines = vec![
        "ip: 127.0.0.1".to_string(),
        "port:   1883  ".to_string(),
        "single".to_string(),
        "".to_string(),
    ];
    let params = get_file_parameters(lines.clone(), 2);
    assert_eq!(
        params,
        vec![
            ("ip".to_string(), "127.0.0.1".to_string()),
            ("port".to_string(), "1883".to_string()),
            ("singl".to_string(), "".to_string()),
            ("".to_string(), "".to_string()),
        ]
    );
    assert!(get_file_parameters(lines, 5).is_empty());
}

#[test]
fn test_threaded_server_config() {
    let p = params(&[("ip", "0.0.0.0"), ("port", "1883"), ("maximum_threads", "8")]);
    let valid = vec![true; p.len()];
    let config = ThreadedServerConfig::set_params(&p, &valid).unwrap();
    assert_eq!(config.ip, "0.0.0.0");
    assert_eq!(config.port, 1883);
    assert_eq!(config.maximum_threads, 8);

    let p = params(&[("ip", "0.0.0.0"), ("port", "1883")]);
    let valid = vec![true; p.len()];
    assert_eq!(
        ThreadedServerConfig::set_params(&p, &valid).err(),
        Some(ConfigError::MissingParameters)
    );

    let p = params(&[("ip", "0.0.0.0"), ("id", "x")]);
    let valid = vec![true; p.len()];
    assert_eq!(
        ThreadedServerConfig::set_params(&p, &valid).err(),
        Some(ConfigError::ParameterNotFound)
    );

    let p = params(&[("maximum_threads", "-2")]);
    let valid = vec![true; p.len()];
    assert_eq!(
        ThreadedServerConfig::set_params(&p, &valid).err(),
        Some(ConfigError::InvalidMaximumThreads)
    );
}
