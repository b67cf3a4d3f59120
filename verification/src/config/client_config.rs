//! The configuration of an MQTT client, read from `key`/`value` parameters: the general
//! configuration, the properties of its CONNECT, and its PUBLISH and SUBSCRIBE options.
use vstd::prelude::*;
use vstd::utf8::*;

use crate::common::data_types::{parse_bool_flag, parse_decimal, parse_u8};
use crate::common::data_types;
use crate::common::flags::flags_handler;
use crate::common::flags::flags_handler::{
    add_connect_flag_clean_start, add_connect_flag_password, add_connect_flag_username,
    add_connect_flag_will_flag, add_connect_flag_will_qos, add_connect_flag_will_retain,
};
use crate::config::mqtt_config::{is_key, ConfigError, MqttConfig, MqttConfigView};
use crate::config::mqtt_config;
use crate::control_packets::mqtt_connect::connect_properties::{
    ConnectProperties, ConnectPropertiesView,
};

verus! {

/// The configuration of a client.
pub struct ClientConfig {
    pub general: MqttConfig,
    pub connect_properties: ConnectProperties,
    pub pub_dup_flag: u8,
    pub pub_qos: u8,
    pub pub_retain: u8,
    pub sub_max_qos: u8,
    pub sub_no_local: bool,
    pub sub_retain_as_published: bool,
    pub sub_retain_handling: u8,
}

/// The client fields found so far while reading the parameters.
pub struct ClientFound {
    pub props: ConnectPropertiesView,
    pub pub_dup_flag: u8,
    pub pub_qos: u8,
    pub pub_retain: u8,
    pub sub_max_qos: u8,
    pub sub_no_local: bool,
    pub sub_retain_as_published: bool,
    pub sub_retain_handling: u8,
}

/// The mathematical value of a [`ClientConfig`].
pub struct ClientConfigView {
    pub general: MqttConfigView,
    pub found: ClientFound,
}

impl View for ClientConfig {
    type V = ClientConfigView;

    open spec fn view(&self) -> ClientConfigView {
        ClientConfigView {
            general: self.general@,
            found: ClientFound {
                props: self.connect_properties@,
                pub_dup_flag: self.pub_dup_flag,
                pub_qos: self.pub_qos,
                pub_retain: self.pub_retain,
                sub_max_qos: self.sub_max_qos,
                sub_no_local: self.sub_no_local,
                sub_retain_as_published: self.sub_retain_as_published,
                sub_retain_handling: self.sub_retain_handling,
            },
        }
    }
}

/// The CONNECT properties before any parameter: protocol `MQTT` version 5, no flags, no
/// keep alive and no optional property.
pub open spec fn default_connect_properties() -> ConnectPropertiesView {
    ConnectPropertiesView {
        protocol_name: "MQTT"@,
        protocol_version: 5,
        connect_flags: 0,
        keep_alive: 0,
        session_expiry_interval: None,
        authentication_data: None,
        authentication_method: None,
        request_problem_information: None,
        request_response_information: None,
        receive_maximum: None,
        topic_alias_maximum: None,
        user_property: None,
        maximum_packet_size: None,
    }
}

/// `1` for true and `0` for false.
pub open spec fn bit_of(b: bool) -> u8 {
    if b {
        1
    } else {
        0
    }
}

/// Setting one of the connect flags from its text: `true` or `false` set or keep bit
/// `shift`.
pub open spec fn flag_step(acc: ClientFound, value: Seq<char>, shift: u8) -> Result<ClientFound, ConfigError> {
    match data_types::bool_flag_value(value) {
        Some(b) => Ok(ClientFound { props: ConnectPropertiesView { connect_flags: acc.props.connect_flags | (b << shift), ..acc.props }, ..acc }),
        None => Err(ConfigError::InvalidFlag),
    }
}

/// Reading one parameter into the client fields. The keys of the general configuration
/// and a few others (`domain_name`, `cert_path`, `cert_pass`) are left alone; any other
/// key is refused.
pub open spec fn client_step(acc: ClientFound, key: Seq<char>, value: Seq<char>) -> Result<ClientFound, ConfigError> {
    let p = acc.props;
    if key == "protocol_name"@ {
        Ok(ClientFound { props: ConnectPropertiesView { protocol_name: value, ..p }, ..acc })
    } else if key == "protocol_version"@ {
        match mqtt_config::number_value(value, 255) {
            Some(v) => Ok(ClientFound { props: ConnectPropertiesView { protocol_version: v as u8, ..p }, ..acc }),
            None => Err(ConfigError::InvalidProtocolVersion),
        }
    } else if key == "flag_clean_start"@ {
        flag_step(acc, value, 1)
    } else if key == "flag_will_flag"@ {
        flag_step(acc, value, 2)
    } else if key == "flag_will_qos"@ {
        match data_types::parse_u8_spec(encode_utf8(value)) {
            Some(q) => Ok(ClientFound { props: ConnectPropertiesView { connect_flags: p.connect_flags | (q << 3u8), ..p }, ..acc }),
            None => Err(ConfigError::InvalidFlag),
        }
    } else if key == "flag_will_retain"@ {
        flag_step(acc, value, 5)
    } else if key == "flag_password"@ {
        flag_step(acc, value, 6)
    } else if key == "flag_username"@ {
        flag_step(acc, value, 7)
    } else if key == "keep_alive"@ {
        match mqtt_config::number_value(value, u16::MAX as nat) {
            Some(v) => Ok(ClientFound { props: ConnectPropertiesView { keep_alive: v as u16, ..p }, ..acc }),
            None => Err(ConfigError::InvalidKeepAlive),
        }
    } else if key == "session_expiry_interval"@ {
        match mqtt_config::number_value(value, u32::MAX as nat) {
            Some(v) => Ok(ClientFound { props: ConnectPropertiesView { session_expiry_interval: Some(v as u32), ..p }, ..acc }),
            None => Err(ConfigError::InvalidSessionExpiryInterval),
        }
    } else if key == "receive_maximum"@ {
        match mqtt_config::number_value(value, u16::MAX as nat) {
            Some(v) => Ok(ClientFound { props: ConnectPropertiesView { receive_maximum: Some(v as u16), ..p }, ..acc }),
            None => Err(ConfigError::InvalidReceiveMaximum),
        }
    } else if key == "maximum_packet_size"@ {
        match mqtt_config::number_value(value, u32::MAX as nat) {
            Some(v) => Ok(ClientFound { props: ConnectPropertiesView { maximum_packet_size: Some(v as u32), ..p }, ..acc }),
            None => Err(ConfigError::InvalidMaximumPacketSize),
        }
    } else if key == "topic_alias_maximum"@ {
        match mqtt_config::number_value(value, u16::MAX as nat) {
            Some(v) => Ok(ClientFound { props: ConnectPropertiesView { topic_alias_maximum: Some(v as u16), ..p }, ..acc }),
            None => Err(ConfigError::InvalidTopicAliasMaximum),
        }
    } else if key == "request_response_information"@ {
        match mqtt_config::bool_value(value) {
            Some(b) => Ok(ClientFound { props: ConnectPropertiesView { request_response_information: Some(bit_of(b)), ..p }, ..acc }),
            None => Err(ConfigError::InvalidBool),
        }
    } else if key == "request_problem_information"@ {
        match mqtt_config::bool_value(value) {
            Some(b) => Ok(ClientFound { props: ConnectPropertiesView { request_problem_information: Some(bit_of(b)), ..p }, ..acc }),
            None => Err(ConfigError::InvalidBool),
        }
    } else if key == "authentication_method"@ {
        Ok(ClientFound { props: ConnectPropertiesView { authentication_method: Some(value), ..p }, ..acc })
    } else if key == "authentication_data"@ {
        Ok(ClientFound { props: ConnectPropertiesView { authentication_data: Some(value), ..p }, ..acc })
    } else if key == "publish_dup"@ {
        match mqtt_config::bool_value(value) {
            Some(b) => Ok(ClientFound { pub_dup_flag: bit_of(b), ..acc }),
            None => Err(ConfigError::InvalidBool),
        }
    } else if key == "publish_qos"@ {
        match mqtt_config::number_value(value, 255) {
            Some(v) => Ok(ClientFound { pub_qos: v as u8, ..acc }),
            None => Err(ConfigError::InvalidNumber),
        }
    } else if key == "publish_retain"@ {
        match mqtt_config::bool_value(value) {
            Some(b) => Ok(ClientFound { pub_retain: bit_of(b), ..acc }),
            None => Err(ConfigError::InvalidBool),
        }
    } else if key == "subscribe_max_qos"@ {
        match mqtt_config::number_value(value, 255) {
            Some(v) => Ok(ClientFound { sub_max_qos: v as u8, ..acc }),
            None => Err(ConfigError::InvalidSubscribeMaxQos),
        }
    } else if key == "subscribe_no_local"@ {
        match mqtt_config::bool_value(value) {
            Some(b) => Ok(ClientFound { sub_no_local: b, ..acc }),
            None => Err(ConfigError::InvalidBool),
        }
    } else if key == "subscribe_retain_as_published"@ {
        match mqtt_config::bool_value(value) {
            Some(b) => Ok(ClientFound { sub_retain_as_published: b, ..acc }),
            None => Err(ConfigError::InvalidBool),
        }
    } else if key == "subscribe_retain_handling"@ {
        match mqtt_config::number_value(value, 255) {
            Some(v) => Ok(ClientFound { sub_retain_handling: v as u8, ..acc }),
            None => Err(ConfigError::InvalidSubscribeRetainHandling),
        }
    } else if key == "id"@ || key == "ip"@ || key == "port"@ || key == "log_path"@ || key
        == "log_in_terminal"@ || key == "domain_name"@ || key == "cert_path"@ || key
        == "cert_pass"@ {
        Ok(acc)
    } else {
        Err(ConfigError::ParameterNotFound)
    }
}

/// Reading the first `n` parameters in order into the client fields; the first refused one
/// gives the error.
pub open spec fn client_scan(params: Seq<(String, String)>, n: int) -> Result<ClientFound, ConfigError>
    decreases n,
{
    if n <= 0 {
        Ok(
            ClientFound {
                props: default_connect_properties(),
                pub_dup_flag: 0,
                pub_qos: 0,
                pub_retain: 0,
                sub_max_qos: 0,
                sub_no_local: false,
                sub_retain_as_published: false,
                sub_retain_handling: 0,
            },
        )
    } else {
        match client_scan(params, n - 1) {
            Err(e) => Err(e),
            Ok(acc) => client_step(acc, params[n - 1].0@, params[n - 1].1@),
        }
    }
}

/// The client configuration the parameters give: first the general configuration, then the
/// client fields.
pub open spec fn client_config_of(params: Seq<(String, String)>, valid_ips: Seq<bool>) -> Result<ClientConfigView, ConfigError> {
    match mqtt_config::mqtt_config_of(params, valid_ips) {
        Err(e) => Err(e),
        Ok(general) => match client_scan(params, params.len() as int) {
            Err(e) => Err(e),
            Ok(found) => Ok(ClientConfigView { general, found }),
        },
    }
}

pub open spec fn client_config_result(r: Result<ClientConfig, ConfigError>) -> Result<ClientConfigView, ConfigError> {
    match r {
        Ok(c) => Ok(c@),
        Err(e) => Err(e),
    }
}

/// Once a parameter is refused, reading more parameters keeps the error.
proof fn lemma_client_scan_error_stays(params: Seq<(String, String)>, k: int, n: int)
    requires
        0 <= k <= n,
        client_scan(params, k) is Err,
    ensures
        client_scan(params, n) == client_scan(params, k),
    decreases n - k,
{
    if n > k {
        lemma_client_scan_error_stays(params, k, n - 1);
    }
}

/// The client fields while the parameters are read.
struct ClientFields {
    connect_properties: ConnectProperties,
    pub_dup_flag: u8,
    pub_qos: u8,
    pub_retain: u8,
    sub_max_qos: u8,
    sub_no_local: bool,
    sub_retain_as_published: bool,
    sub_retain_handling: u8,
}

impl ClientFields {
    spec fn found(&self) -> ClientFound {
        ClientFound {
            props: self.connect_properties@,
            pub_dup_flag: self.pub_dup_flag,
            pub_qos: self.pub_qos,
            pub_retain: self.pub_retain,
            sub_max_qos: self.sub_max_qos,
            sub_no_local: self.sub_no_local,
            sub_retain_as_published: self.sub_retain_as_published,
            sub_retain_handling: self.sub_retain_handling,
        }
    }
}

/// Reads one parameter into the client fields.
fn apply_param(fields: &mut ClientFields, key: &String, value: &String) -> (res: Result<(), ConfigError>)
    ensures
        match client_step(old(fields).found(), key@, value@) {
            Ok(f) => res is Ok && final(fields).found() == f,
            Err(e) => res == Err::<(), ConfigError>(e),
        },
{
    let ghost acc = fields.found();
    if is_key(key, "protocol_name") {
        fields.connect_properties.protocol_name = value.clone();
    } else if is_key(key, "protocol_version") {
        match parse_decimal(value, 255) {
            Some(v) => fields.connect_properties.protocol_version = v as u8,
            None => return Err(ConfigError::InvalidProtocolVersion),
        }
    } else if is_key(key, "flag_clean_start") {
        match add_connect_flag_clean_start(fields.connect_properties.connect_flags, value.clone()) {
            Ok(f) => fields.connect_properties.connect_flags = f,
            Err(_) => return Err(ConfigError::InvalidFlag),
        }
    } else if is_key(key, "flag_will_flag") {
        match add_connect_flag_will_flag(fields.connect_properties.connect_flags, value.clone()) {
            Ok(f) => fields.connect_properties.connect_flags = f,
            Err(_) => return Err(ConfigError::InvalidFlag),
        }
    } else if is_key(key, "flag_will_qos") {
        match add_connect_flag_will_qos(fields.connect_properties.connect_flags, value.clone()) {
            Ok(f) => fields.connect_properties.connect_flags = f,
            Err(_) => return Err(ConfigError::InvalidFlag),
        }
    } else if is_key(key, "flag_will_retain") {
        match add_connect_flag_will_retain(fields.connect_properties.connect_flags, value.clone()) {
            Ok(f) => fields.connect_properties.connect_flags = f,
            Err(_) => return Err(ConfigError::InvalidFlag),
        }
    } else if is_key(key, "flag_password") {
        match add_connect_flag_password(fields.connect_properties.connect_flags, value.clone()) {
            Ok(f) => fields.connect_properties.connect_flags = f,
            Err(_) => return Err(ConfigError::InvalidFlag),
        }
    } else if is_key(key, "flag_username") {
        match add_connect_flag_username(fields.connect_properties.connect_flags, value.clone()) {
            Ok(f) => fields.connect_properties.connect_flags = f,
            Err(_) => return Err(ConfigError::InvalidFlag),
        }
    } else if is_key(key, "keep_alive") {
        match parse_decimal(value, 65535) {
            Some(v) => fields.connect_properties.keep_alive = v as u16,
            None => return Err(ConfigError::InvalidKeepAlive),
        }
    } else if is_key(key, "session_expiry_interval") {
        match parse_decimal(value, 0xffff_ffff) {
            Some(v) => fields.connect_properties.session_expiry_interval = Some(v as u32),
            None => return Err(ConfigError::InvalidSessionExpiryInterval),
        }
    } else if is_key(key, "receive_maximum") {
        match parse_decimal(value, 65535) {
            Some(v) => fields.connect_properties.receive_maximum = Some(v as u16),
            None => return Err(ConfigError::InvalidReceiveMaximum),
        }
    } else if is_key(key, "maximum_packet_size") {
        match parse_decimal(value, 0xffff_ffff) {
            Some(v) => fields.connect_properties.maximum_packet_size = Some(v as u32),
            None => return Err(ConfigError::InvalidMaximumPacketSize),
        }
    } else if is_key(key, "topic_alias_maximum") {
        match parse_decimal(value, 65535) {
            Some(v) => fields.connect_properties.topic_alias_maximum = Some(v as u16),
            None => return Err(ConfigError::InvalidTopicAliasMaximum),
        }
    } else if is_key(key, "request_response_information") {
        match parse_bool_flag(value) {
            Ok(b) => fields.connect_properties.request_response_information = Some(b),
            Err(_) => return Err(ConfigError::InvalidBool),
        }
    } else if is_key(key, "request_problem_information") {
        match parse_bool_flag(value) {
            Ok(b) => fields.connect_properties.request_problem_information = Some(b),
            Err(_) => return Err(ConfigError::InvalidBool),
        }
    } else if is_key(key, "authentication_method") {
        fields.connect_properties.authentication_method = Some(value.clone());
    } else if is_key(key, "authentication_data") {
        fields.connect_properties.authentication_data = Some(value.clone());
    } else if is_key(key, "publish_dup") {
        match parse_bool_flag(value) {
            Ok(b) => fields.pub_dup_flag = b,
            Err(_) => return Err(ConfigError::InvalidBool),
        }
    } else if is_key(key, "publish_qos") {
        match parse_decimal(value, 255) {
            Some(v) => fields.pub_qos = v as u8,
            None => return Err(ConfigError::InvalidNumber),
        }
    } else if is_key(key, "publish_retain") {
        match parse_bool_flag(value) {
            Ok(b) => fields.pub_retain = b,
            Err(_) => return Err(ConfigError::InvalidBool),
        }
    } else if is_key(key, "subscribe_max_qos") {
        match parse_decimal(value, 255) {
            Some(v) => fields.sub_max_qos = v as u8,
            None => return Err(ConfigError::InvalidSubscribeMaxQos),
        }
    } else if is_key(key, "subscribe_no_local") {
        match parse_bool_flag(value) {
            Ok(b) => fields.sub_no_local = b == 1,
            Err(_) => return Err(ConfigError::InvalidBool),
        }
    } else if is_key(key, "subscribe_retain_as_published") {
        match parse_bool_flag(value) {
            Ok(b) => fields.sub_retain_as_published = b == 1,
            Err(_) => return Err(ConfigError::InvalidBool),
        }
    } else if is_key(key, "subscribe_retain_handling") {
        match parse_decimal(value, 255) {
            Some(v) => fields.sub_retain_handling = v as u8,
            None => return Err(ConfigError::InvalidSubscribeRetainHandling),
        }
    } else if is_key(key, "id") || is_key(key, "ip") || is_key(key, "port") || is_key(
        key,
        "log_path",
    ) || is_key(key, "log_in_terminal") || is_key(key, "domain_name") || is_key(key, "cert_path")
        || is_key(key, "cert_pass") {
    } else {
        return Err(ConfigError::ParameterNotFound);
    }
    Ok(())
}

impl ClientConfig {
    /// Reads the client configuration from `key`/`value` parameters: first the general
    /// configuration, then, in order, the CONNECT properties and the PUBLISH and SUBSCRIBE
    /// options (a later value replaces an earlier one). `valid_ips[i]` says whether the value
    /// of the `i`-th parameter is an IP address.
    pub fn set_params(params: &[(String, String)], valid_ips: &[bool]) -> (res: Result<Self, ConfigError>)
        requires
            valid_ips@.len() == params@.len(),
        ensures
            client_config_result(res) == client_config_of(params@, valid_ips@),
    {
        let general = MqttConfig::set_params(params, valid_ips)?;
        let connect_properties = ConnectProperties::default();
        let mut fields = ClientFields {
            connect_properties,
            pub_dup_flag: 0,
            pub_qos: 0,
            pub_retain: 0,
            sub_max_qos: 0,
            sub_no_local: false,
            sub_retain_as_published: false,
            sub_retain_handling: 0,
        };
        assert(fields.connect_properties@ == default_connect_properties());
        let mut i: usize = 0;
        while i < params.len()
            invariant
                i <= params@.len(),
                mqtt_config::mqtt_config_of(params@, valid_ips@) == Ok::<MqttConfigView, ConfigError>(general@),
                client_scan(params@, i as int) == Ok::<ClientFound, ConfigError>(fields.found()),
            decreases params@.len() - i,
        {
            match apply_param(&mut fields, &params[i].0, &params[i].1) {
                Ok(()) => {},
                Err(e) => {
                    proof {
                        lemma_client_scan_error_stays(params@, i + 1, params@.len() as int);
                    }
                    return Err(e);
                },
            }
            i += 1;
        }
        Ok(
            ClientConfig {
                general,
                connect_properties: fields.connect_properties,
                pub_dup_flag: fields.pub_dup_flag,
                pub_qos: fields.pub_qos,
                pub_retain: fields.pub_retain,
                sub_max_qos: fields.sub_max_qos,
                sub_no_local: fields.sub_no_local,
                sub_retain_as_published: fields.sub_retain_as_published,
                sub_retain_handling: fields.sub_retain_handling,
            },
        )
    }
}

impl Clone for ClientConfig {
    fn clone(&self) -> (res: Self)
        ensures
            res@ == self@,
    {
        ClientConfig {
            general: self.general.clone(),
            connect_properties: self.connect_properties.clone(),
            pub_dup_flag: self.pub_dup_flag,
            pub_qos: self.pub_qos,
            pub_retain: self.pub_retain,
            sub_max_qos: self.sub_max_qos,
            sub_no_local: self.sub_no_local,
            sub_retain_as_published: self.sub_retain_as_published,
            sub_retain_handling: self.sub_retain_handling,
        }
    }
}

/// Setting bit `bit` of the flags makes it read back as 1 and leaves every other bit; setting
/// nothing leaves the flags.
proof fn lemma_set_flag_bit(f: u8, bit: u8)
    requires
        bit < 8,
    ensures
        flags_handler::flag_bits(f | (1u8 << bit), bit, 1) == 1,
        forall|k: u8|
            k < 8 && k != bit ==> flags_handler::flag_bits(f | (1u8 << bit), k, 1)
                == #[trigger] flags_handler::flag_bits(f, k, 1),
        f | (0u8 << bit) == f,
{
    assert(bit < 8 ==> ((f | (1u8 << bit)) >> bit) & 1u8 == 1u8 && f | (0u8 << bit) == f) by (bit_vector);
    assert forall|k: u8| k < 8 && k != bit implies flags_handler::flag_bits(f | (1u8 << bit), k, 1)
        == #[trigger] flags_handler::flag_bits(f, k, 1) by {
        assert(bit < 8 && k < 8 && k != bit ==> ((f | (1u8 << bit)) >> k) & 1u8 == (f >> k) & 1u8) by (bit_vector);
    }
}

/// The result of reading a flag parameter: only the connect flags change; `on` sets exactly
/// bit `bit` and leaves every other bit as it was, and off leaves the flags as they were.
pub open spec fn sets_flag(acc: ClientFound, r: Result<ClientFound, ConfigError>, bit: u8, on: bool) -> bool {
    &&& r matches Ok(f)
    &&& f == (ClientFound { props: ConnectPropertiesView { connect_flags: f.props.connect_flags, ..acc.props }, ..acc })
    &&& on ==> flags_handler::flag_bits(f.props.connect_flags, bit, 1) == 1
    &&& on ==> forall|k: u8| k < 8 && k != bit ==> flags_handler::flag_bits(f.props.connect_flags, k, 1)
        == #[trigger] flags_handler::flag_bits(acc.props.connect_flags, k, 1)
    &&& !on ==> f.props.connect_flags == acc.props.connect_flags
}

proof fn lemma_flag_clean_start_parameter(acc: ClientFound, value: Seq<char>)
    requires
        value == "true"@ || value == "false"@,
    ensures
        sets_flag(acc, client_step(acc, "flag_clean_start"@, value), 1, value == "true"@),
{
    reveal_strlit("protocol_name");
    reveal_strlit("protocol_version");
    reveal_strlit("flag_clean_start");
    reveal_strlit("true");
    reveal_strlit("false");
    assert("flag_clean_start"@.len() != "protocol_name"@.len());
    assert("flag_clean_start"@[0] != "protocol_version"@[0]);
    assert("true"@.len() != "false"@.len());
    lemma_set_flag_bit(acc.props.connect_flags, 1);
}

proof fn lemma_flag_will_flag_parameter(acc: ClientFound, value: Seq<char>)
    requires
        value == "true"@ || value == "false"@,
    ensures
        sets_flag(acc, client_step(acc, "flag_will_flag"@, value), 2, value == "true"@),
{
    reveal_strlit("protocol_name");
    reveal_strlit("protocol_version");
    reveal_strlit("flag_clean_start");
    reveal_strlit("flag_will_flag");
    reveal_strlit("true");
    reveal_strlit("false");
    assert("flag_will_flag"@.len() != "protocol_name"@.len());
    assert("flag_will_flag"@.len() != "protocol_version"@.len());
    assert("flag_will_flag"@.len() != "flag_clean_start"@.len());
    assert("true"@.len() != "false"@.len());
    lemma_set_flag_bit(acc.props.connect_flags, 2);
}

proof fn lemma_flag_will_retain_parameter(acc: ClientFound, value: Seq<char>)
    requires
        value == "true"@ || value == "false"@,
    ensures
        sets_flag(acc, client_step(acc, "flag_will_retain"@, value), 5, value == "true"@),
{
    reveal_strlit("protocol_name");
    reveal_strlit("protocol_version");
    reveal_strlit("flag_clean_start");
    reveal_strlit("flag_will_flag");
    reveal_strlit("flag_will_qos");
    reveal_strlit("flag_will_retain");
    reveal_strlit("true");
    reveal_strlit("false");
    assert("flag_will_retain"@.len() != "protocol_name"@.len());
    assert("flag_will_retain"@[0] != "protocol_version"@[0]);
    assert("flag_will_retain"@[5] != "flag_clean_start"@[5]);
    assert("flag_will_retain"@.len() != "flag_will_flag"@.len());
    assert("flag_will_retain"@.len() != "flag_will_qos"@.len());
    assert("true"@.len() != "false"@.len());
    lemma_set_flag_bit(acc.props.connect_flags, 5);
}

proof fn lemma_flag_password_parameter(acc: ClientFound, value: Seq<char>)
    requires
        value == "true"@ || value == "false"@,
    ensures
        sets_flag(acc, client_step(acc, "flag_password"@, value), 6, value == "true"@),
{
    reveal_strlit("protocol_name");
    reveal_strlit("protocol_version");
    reveal_strlit("flag_clean_start");
    reveal_strlit("flag_will_flag");
    reveal_strlit("flag_will_qos");
    reveal_strlit("flag_will_retain");
    reveal_strlit("flag_password");
    reveal_strlit("true");
    reveal_strlit("false");
    assert("flag_password"@[0] != "protocol_name"@[0]);
    assert("flag_password"@.len() != "protocol_version"@.len());
    assert("flag_password"@.len() != "flag_clean_start"@.len());
    assert("flag_password"@.len() != "flag_will_flag"@.len());
    assert("flag_password"@[5] != "flag_will_qos"@[5]);
    assert("flag_password"@.len() != "flag_will_retain"@.len());
    assert("true"@.len() != "false"@.len());
    lemma_set_flag_bit(acc.props.connect_flags, 6);
}

proof fn lemma_flag_username_parameter(acc: ClientFound, value: Seq<char>)
    requires
        value == "true"@ || value == "false"@,
    ensures
        sets_flag(acc, client_step(acc, "flag_username"@, value), 7, value == "true"@),
{
    reveal_strlit("protocol_name");
    reveal_strlit("protocol_version");
    reveal_strlit("flag_clean_start");
    reveal_strlit("flag_will_flag");
    reveal_strlit("flag_will_qos");
    reveal_strlit("flag_will_retain");
    reveal_strlit("flag_password");
    reveal_strlit("flag_username");
    reveal_strlit("true");
    reveal_strlit("false");
    assert("flag_username"@[0] != "protocol_name"@[0]);
    assert("flag_username"@.len() != "protocol_version"@.len());
    assert("flag_username"@.len() != "flag_clean_start"@.len());
    assert("flag_username"@.len() != "flag_will_flag"@.len());
    assert("flag_username"@[5] != "flag_will_qos"@[5]);
    assert("flag_username"@.len() != "flag_will_retain"@.len());
    assert("flag_username"@[5] != "flag_password"@[5]);
    assert("true"@.len() != "false"@.len());
    lemma_set_flag_bit(acc.props.connect_flags, 7);
}

/// Reading a connect flag parameter whose value is `true` or `false`: Clean Start is bit 1,
/// Will Flag bit 2, Will Retain bit 5, Password bit 6 and User Name bit 7 of the CONNECT
/// flags; `true` sets exactly that bit, `false` leaves the flags, and nothing else changes.
pub proof fn lemma_connect_flag_parameters(acc: ClientFound, value: Seq<char>)
    requires
        value == "true"@ || value == "false"@,
    ensures
        sets_flag(acc, client_step(acc, "flag_clean_start"@, value), 1, value == "true"@),
        sets_flag(acc, client_step(acc, "flag_will_flag"@, value), 2, value == "true"@),
        sets_flag(acc, client_step(acc, "flag_will_retain"@, value), 5, value == "true"@),
        sets_flag(acc, client_step(acc, "flag_password"@, value), 6, value == "true"@),
        sets_flag(acc, client_step(acc, "flag_username"@, value), 7, value == "true"@),
{
    lemma_flag_clean_start_parameter(acc, value);
    lemma_flag_will_flag_parameter(acc, value);
    lemma_flag_will_retain_parameter(acc, value);
    lemma_flag_password_parameter(acc, value);
    lemma_flag_username_parameter(acc, value);
}

/// Reading a Will QoS parameter of at most 2 into flags whose Will QoS bits are clear: the
/// Will QoS is bits 3 and 4 of the CONNECT flags; they read back as the value, every other
/// bit and every other field stay as they were.
pub proof fn lemma_flag_will_qos_parameter(acc: ClientFound, value: Seq<char>, q: u8)
    requires
        data_types::parse_u8_spec(encode_utf8(value)) == Some(q),
        q <= 2,
        flags_handler::flag_bits(acc.props.connect_flags, 3, 2) == 0,
    ensures
        client_step(acc, "flag_will_qos"@, value) matches Ok(f) && {
            let n = f.props.connect_flags;
            let o = acc.props.connect_flags;
            &&& f == (ClientFound { props: ConnectPropertiesView { connect_flags: n, ..acc.props }, ..acc })
            &&& flags_handler::flag_bits(n, 3, 2) == q
            &&& flags_handler::flag_bits(n, 0, 1) == flags_handler::flag_bits(o, 0, 1)
            &&& flags_handler::flag_bits(n, 1, 1) == flags_handler::flag_bits(o, 1, 1)
            &&& flags_handler::flag_bits(n, 2, 1) == flags_handler::flag_bits(o, 2, 1)
            &&& flags_handler::flag_bits(n, 5, 1) == flags_handler::flag_bits(o, 5, 1)
            &&& flags_handler::flag_bits(n, 6, 1) == flags_handler::flag_bits(o, 6, 1)
            &&& flags_handler::flag_bits(n, 7, 1) == flags_handler::flag_bits(o, 7, 1)
        },
{
    reveal_strlit("protocol_name");
    reveal_strlit("protocol_version");
    reveal_strlit("flag_clean_start");
    reveal_strlit("flag_will_flag");
    reveal_strlit("flag_will_qos");
    assert("flag_will_qos"@[0] != "protocol_name"@[0]);
    assert("flag_will_qos"@.len() != "protocol_version"@.len());
    assert("flag_will_qos"@.len() != "flag_clean_start"@.len());
    assert("flag_will_qos"@.len() != "flag_will_flag"@.len());
    flags_handler::lemma_will_qos_set(acc.props.connect_flags, q);
}

proof fn lemma_protocol_name_parameter(acc: ClientFound, value: Seq<char>)
    ensures
        client_step(acc, "protocol_name"@, value) == Ok::<ClientFound, ConfigError>(ClientFound { props: ConnectPropertiesView { protocol_name: value, ..acc.props }, ..acc }),
{
    reveal_strlit("protocol_name");
}

proof fn lemma_protocol_version_parameter(acc: ClientFound, value: Seq<char>)
    ensures
        client_step(acc, "protocol_version"@, value) == (match mqtt_config::number_value(value, 255) { Some(v) => Ok(ClientFound { props: ConnectPropertiesView { protocol_version: v as u8, ..acc.props }, ..acc }), None => Err(ConfigError::InvalidProtocolVersion), }),
{
    reveal_strlit("protocol_name");
    reveal_strlit("protocol_version");
    assert("protocol_version"@.len() != "protocol_name"@.len());
}

proof fn lemma_keep_alive_parameter(acc: ClientFound, value: Seq<char>)
    ensures
        client_step(acc, "keep_alive"@, value) == (match mqtt_config::number_value(value, 65535) { Some(v) => Ok(ClientFound { props: ConnectPropertiesView { keep_alive: v as u16, ..acc.props }, ..acc }), None => Err(ConfigError::InvalidKeepAlive), }),
{
    reveal_strlit("protocol_name");
    reveal_strlit("protocol_version");
    reveal_strlit("flag_clean_start");
    reveal_strlit("flag_will_flag");
    reveal_strlit("flag_will_qos");
    reveal_strlit("flag_will_retain");
    reveal_strlit("flag_password");
    reveal_strlit("flag_username");
    reveal_strlit("keep_alive");
    assert("keep_alive"@.len() != "protocol_name"@.len());
    assert("keep_alive"@.len() != "protocol_version"@.len());
    assert("keep_alive"@.len() != "flag_clean_start"@.len());
    assert("keep_alive"@.len() != "flag_will_flag"@.len());
    assert("keep_alive"@.len() != "flag_will_qos"@.len());
    assert("keep_alive"@.len() != "flag_will_retain"@.len());
    assert("keep_alive"@.len() != "flag_password"@.len());
    assert("keep_alive"@.len() != "flag_username"@.len());
}

proof fn lemma_session_expiry_interval_parameter(acc: ClientFound, value: Seq<char>)
    ensures
        client_step(acc, "session_expiry_interval"@, value) == (match mqtt_config::number_value(value, 4294967295) { Some(v) => Ok(ClientFound { props: ConnectPropertiesView { session_expiry_interval: Some(v as u32), ..acc.props }, ..acc }), None => Err(ConfigError::InvalidSessionExpiryInterval), }),
{
    reveal_strlit("protocol_name");
    reveal_strlit("protocol_version");
    reveal_strlit("flag_clean_start");
    reveal_strlit("flag_will_flag");
    reveal_strlit("flag_will_qos");
    reveal_strlit("flag_will_retain");
    reveal_strlit("flag_password");
    reveal_strlit("flag_username");
    reveal_strlit("keep_alive");
    reveal_strlit("session_expiry_interval");
    assert("session_expiry_interval"@.len() != "protocol_name"@.len());
    assert("session_expiry_interval"@.len() != "protocol_version"@.len());
    assert("session_expiry_interval"@.len() != "flag_clean_start"@.len());
    assert("session_expiry_interval"@.len() != "flag_will_flag"@.len());
    assert("session_expiry_interval"@.len() != "flag_will_qos"@.len());
    assert("session_expiry_interval"@.len() != "flag_will_retain"@.len());
    assert("session_expiry_interval"@.len() != "flag_password"@.len());
    assert("session_expiry_interval"@.len() != "flag_username"@.len());
    assert("session_expiry_interval"@.len() != "keep_alive"@.len());
}

proof fn lemma_receive_maximum_parameter(acc: ClientFound, value: Seq<char>)
    ensures
        client_step(acc, "receive_maximum"@, value) == (match mqtt_config::number_value(value, 65535) { Some(v) => Ok(ClientFound { props: ConnectPropertiesView { receive_maximum: Some(v as u16), ..acc.props }, ..acc }), None => Err(ConfigError::InvalidReceiveMaximum), }),
{
    reveal_strlit("protocol_name");
    reveal_strlit("protocol_version");
    reveal_strlit("flag_clean_start");
    reveal_strlit("flag_will_flag");
    reveal_strlit("flag_will_qos");
    reveal_strlit("flag_will_retain");
    reveal_strlit("flag_password");
    reveal_strlit("flag_username");
    reveal_strlit("keep_alive");
    reveal_strlit("session_expiry_interval");
    reveal_strlit("receive_maximum");
    assert("receive_maximum"@.len() != "protocol_name"@.len());
    assert("receive_maximum"@.len() != "protocol_version"@.len());
    assert("receive_maximum"@.len() != "flag_clean_start"@.len());
    assert("receive_maximum"@.len() != "flag_will_flag"@.len());
    assert("receive_maximum"@.len() != "flag_will_qos"@.len());
    assert("receive_maximum"@.len() != "flag_will_retain"@.len());
    assert("receive_maximum"@.len() != "flag_password"@.len());
    assert("receive_maximum"@.len() != "flag_username"@.len());
    assert("receive_maximum"@.len() != "keep_alive"@.len());
    assert("receive_maximum"@.len() != "session_expiry_interval"@.len());
}

proof fn lemma_maximum_packet_size_parameter(acc: ClientFound, value: Seq<char>)
    ensures
        client_step(acc, "maximum_packet_size"@, value) == (match mqtt_config::number_value(value, 4294967295) { Some(v) => Ok(ClientFound { props: ConnectPropertiesView { maximum_packet_size: Some(v as u32), ..acc.props }, ..acc }), None => Err(ConfigError::InvalidMaximumPacketSize), }),
{
    reveal_strlit("protocol_name");
    reveal_strlit("protocol_version");
    reveal_strlit("flag_clean_start");
    reveal_strlit("flag_will_flag");
    reveal_strlit("flag_will_qos");
    reveal_strlit("flag_will_retain");
    reveal_strlit("flag_password");
    reveal_strlit("flag_username");
    reveal_strlit("keep_alive");
    reveal_strlit("session_expiry_interval");
    reveal_strlit("receive_maximum");
    reveal_strlit("maximum_packet_size");
    assert("maximum_packet_size"@.len() != "protocol_name"@.len());
    assert("maximum_packet_size"@.len() != "protocol_version"@.len());
    assert("maximum_packet_size"@.len() != "flag_clean_start"@.len());
    assert("maximum_packet_size"@.len() != "flag_will_flag"@.len());
    assert("maximum_packet_size"@.len() != "flag_will_qos"@.len());
    assert("maximum_packet_size"@.len() != "flag_will_retain"@.len());
    assert("maximum_packet_size"@.len() != "flag_password"@.len());
    assert("maximum_packet_size"@.len() != "flag_username"@.len());
    assert("maximum_packet_size"@.len() != "keep_alive"@.len());
    assert("maximum_packet_size"@.len() != "session_expiry_interval"@.len());
    assert("maximum_packet_size"@.len() != "receive_maximum"@.len());
}

proof fn lemma_topic_alias_maximum_parameter(acc: ClientFound, value: Seq<char>)
    ensures
        client_step(acc, "topic_alias_maximum"@, value) == (match mqtt_config::number_value(value, 65535) { Some(v) => Ok(ClientFound { props: ConnectPropertiesView { topic_alias_maximum: Some(v as u16), ..acc.props }, ..acc }), None => Err(ConfigError::InvalidTopicAliasMaximum), }),
{
    reveal_strlit("protocol_name");
    reveal_strlit("protocol_version");
    reveal_strlit("flag_clean_start");
    reveal_strlit("flag_will_flag");
    reveal_strlit("flag_will_qos");
    reveal_strlit("flag_will_retain");
    reveal_strlit("flag_password");
    reveal_strlit("flag_username");
    reveal_strlit("keep_alive");
    reveal_strlit("session_expiry_interval");
    reveal_strlit("receive_maximum");
    reveal_strlit("maximum_packet_size");
    reveal_strlit("topic_alias_maximum");
    assert("topic_alias_maximum"@.len() != "protocol_name"@.len());
    assert("topic_alias_maximum"@.len() != "protocol_version"@.len());
    assert("topic_alias_maximum"@.len() != "flag_clean_start"@.len());
    assert("topic_alias_maximum"@.len() != "flag_will_flag"@.len());
    assert("topic_alias_maximum"@.len() != "flag_will_qos"@.len());
    assert("topic_alias_maximum"@.len() != "flag_will_retain"@.len());
    assert("topic_alias_maximum"@.len() != "flag_password"@.len());
    assert("topic_alias_maximum"@.len() != "flag_username"@.len());
    assert("topic_alias_maximum"@.len() != "keep_alive"@.len());
    assert("topic_alias_maximum"@.len() != "session_expiry_interval"@.len());
    assert("topic_alias_maximum"@.len() != "receive_maximum"@.len());
    assert("topic_alias_maximum"@[0] != "maximum_packet_size"@[0]);
}

proof fn lemma_request_response_information_parameter(acc: ClientFound, value: Seq<char>)
    ensures
        client_step(acc, "request_response_information"@, value) == (match mqtt_config::bool_value(value) { Some(b) => Ok(ClientFound { props: ConnectPropertiesView { request_response_information: Some(bit_of(b)), ..acc.props }, ..acc }), None => Err(ConfigError::InvalidBool), }),
{
    reveal_strlit("protocol_name");
    reveal_strlit("protocol_version");
    reveal_strlit("flag_clean_start");
    reveal_strlit("flag_will_flag");
    reveal_strlit("flag_will_qos");
    reveal_strlit("flag_will_retain");
    reveal_strlit("flag_password");
    reveal_strlit("flag_username");
    reveal_strlit("keep_alive");
    reveal_strlit("session_expiry_interval");
    reveal_strlit("receive_maximum");
    reveal_strlit("maximum_packet_size");
    reveal_strlit("topic_alias_maximum");
    reveal_strlit("request_response_information");
    assert("request_response_information"@.len() != "protocol_name"@.len());
    assert("request_response_information"@.len() != "protocol_version"@.len());
    assert("request_response_information"@.len() != "flag_clean_start"@.len());
    assert("request_response_information"@.len() != "flag_will_flag"@.len());
    assert("request_response_information"@.len() != "flag_will_qos"@.len());
    assert("request_response_information"@.len() != "flag_will_retain"@.len());
    assert("request_response_information"@.len() != "flag_password"@.len());
    assert("request_response_information"@.len() != "flag_username"@.len());
    assert("request_response_information"@.len() != "keep_alive"@.len());
    assert("request_response_information"@.len() != "session_expiry_interval"@.len());
    assert("request_response_information"@.len() != "receive_maximum"@.len());
    assert("request_response_information"@.len() != "maximum_packet_size"@.len());
    assert("request_response_information"@.len() != "topic_alias_maximum"@.len());
}

proof fn lemma_request_problem_information_parameter(acc: ClientFound, value: Seq<char>)
    ensures
        client_step(acc, "request_problem_information"@, value) == (match mqtt_config::bool_value(value) { Some(b) => Ok(ClientFound { props: ConnectPropertiesView { request_problem_information: Some(bit_of(b)), ..acc.props }, ..acc }), None => Err(ConfigError::InvalidBool), }),
{
    reveal_strlit("protocol_name");
    reveal_strlit("protocol_version");
    reveal_strlit("flag_clean_start");
    reveal_strlit("flag_will_flag");
    reveal_strlit("flag_will_qos");
    reveal_strlit("flag_will_retain");
    reveal_strlit("flag_password");
    reveal_strlit("flag_username");
    reveal_strlit("keep_alive");
    reveal_strlit("session_expiry_interval");
    reveal_strlit("receive_maximum");
    reveal_strlit("maximum_packet_size");
    reveal_strlit("topic_alias_maximum");
    reveal_strlit("request_response_information");
    reveal_strlit("request_problem_information");
    assert("request_problem_information"@.len() != "protocol_name"@.len());
    assert("request_problem_information"@.len() != "protocol_version"@.len());
    assert("request_problem_information"@.len() != "flag_clean_start"@.len());
    assert("request_problem_information"@.len() != "flag_will_flag"@.len());
    assert("request_problem_information"@.len() != "flag_will_qos"@.len());
    assert("request_problem_information"@.len() != "flag_will_retain"@.len());
    assert("request_problem_information"@.len() != "flag_password"@.len());
    assert("request_problem_information"@.len() != "flag_username"@.len());
    assert("request_problem_information"@.len() != "keep_alive"@.len());
    assert("request_problem_information"@.len() != "session_expiry_interval"@.len());
    assert("request_problem_information"@.len() != "receive_maximum"@.len());
    assert("request_problem_information"@.len() != "maximum_packet_size"@.len());
    assert("request_problem_information"@.len() != "topic_alias_maximum"@.len());
    assert("request_problem_information"@.len() != "request_response_information"@.len());
}

proof fn lemma_authentication_method_parameter(acc: ClientFound, value: Seq<char>)
    ensures
        client_step(acc, "authentication_method"@, value) == Ok::<ClientFound, ConfigError>(ClientFound { props: ConnectPropertiesView { authentication_method: Some(value), ..acc.props }, ..acc }),
{
    reveal_strlit("protocol_name");
    reveal_strlit("protocol_version");
    reveal_strlit("flag_clean_start");
    reveal_strlit("flag_will_flag");
    reveal_strlit("flag_will_qos");
    reveal_strlit("flag_will_retain");
    reveal_strlit("flag_password");
    reveal_strlit("flag_username");
    reveal_strlit("keep_alive");
    reveal_strlit("session_expiry_interval");
    reveal_strlit("receive_maximum");
    reveal_strlit("maximum_packet_size");
    reveal_strlit("topic_alias_maximum");
    reveal_strlit("request_response_information");
    reveal_strlit("request_problem_information");
    reveal_strlit("authentication_method");
    assert("authentication_method"@.len() != "protocol_name"@.len());
    assert("authentication_method"@.len() != "protocol_version"@.len());
    assert("authentication_method"@.len() != "flag_clean_start"@.len());
    assert("authentication_method"@.len() != "flag_will_flag"@.len());
    assert("authentication_method"@.len() != "flag_will_qos"@.len());
    assert("authentication_method"@.len() != "flag_will_retain"@.len());
    assert("authentication_method"@.len() != "flag_password"@.len());
    assert("authentication_method"@.len() != "flag_username"@.len());
    assert("authentication_method"@.len() != "keep_alive"@.len());
    assert("authentication_method"@.len() != "session_expiry_interval"@.len());
    assert("authentication_method"@.len() != "receive_maximum"@.len());
    assert("authentication_method"@.len() != "maximum_packet_size"@.len());
    assert("authentication_method"@.len() != "topic_alias_maximum"@.len());
    assert("authentication_method"@.len() != "request_response_information"@.len());
    assert("authentication_method"@.len() != "request_problem_information"@.len());
}

proof fn lemma_authentication_data_parameter(acc: ClientFound, value: Seq<char>)
    ensures
        client_step(acc, "authentication_data"@, value) == Ok::<ClientFound, ConfigError>(ClientFound { props: ConnectPropertiesView { authentication_data: Some(value), ..acc.props }, ..acc }),
{
    reveal_strlit("protocol_name");
    reveal_strlit("protocol_version");
    reveal_strlit("flag_clean_start");
    reveal_strlit("flag_will_flag");
    reveal_strlit("flag_will_qos");
    reveal_strlit("flag_will_retain");
    reveal_strlit("flag_password");
    reveal_strlit("flag_username");
    reveal_strlit("keep_alive");
    reveal_strlit("session_expiry_interval");
    reveal_strlit("receive_maximum");
    reveal_strlit("maximum_packet_size");
    reveal_strlit("topic_alias_maximum");
    reveal_strlit("request_response_information");
    reveal_strlit("request_problem_information");
    reveal_strlit("authentication_method");
    reveal_strlit("authentication_data");
    assert("authentication_data"@.len() != "protocol_name"@.len());
    assert("authentication_data"@.len() != "protocol_version"@.len());
    assert("authentication_data"@.len() != "flag_clean_start"@.len());
    assert("authentication_data"@.len() != "flag_will_flag"@.len());
    assert("authentication_data"@.len() != "flag_will_qos"@.len());
    assert("authentication_data"@.len() != "flag_will_retain"@.len());
    assert("authentication_data"@.len() != "flag_password"@.len());
    assert("authentication_data"@.len() != "flag_username"@.len());
    assert("authentication_data"@.len() != "keep_alive"@.len());
    assert("authentication_data"@.len() != "session_expiry_interval"@.len());
    assert("authentication_data"@.len() != "receive_maximum"@.len());
    assert("authentication_data"@[0] != "maximum_packet_size"@[0]);
    assert("authentication_data"@[0] != "topic_alias_maximum"@[0]);
    assert("authentication_data"@.len() != "request_response_information"@.len());
    assert("authentication_data"@.len() != "request_problem_information"@.len());
    assert("authentication_data"@.len() != "authentication_method"@.len());
}

proof fn lemma_publish_dup_parameter(acc: ClientFound, value: Seq<char>)
    ensures
        client_step(acc, "publish_dup"@, value) == (match mqtt_config::bool_value(value) { Some(b) => Ok(ClientFound { pub_dup_flag: bit_of(b), ..acc }), None => Err(ConfigError::InvalidBool), }),
{
    reveal_strlit("protocol_name");
    reveal_strlit("protocol_version");
    reveal_strlit("flag_clean_start");
    reveal_strlit("flag_will_flag");
    reveal_strlit("flag_will_qos");
    reveal_strlit("flag_will_retain");
    reveal_strlit("flag_password");
    reveal_strlit("flag_username");
    reveal_strlit("keep_alive");
    reveal_strlit("session_expiry_interval");
    reveal_strlit("receive_maximum");
    reveal_strlit("maximum_packet_size");
    reveal_strlit("topic_alias_maximum");
    reveal_strlit("request_response_information");
    reveal_strlit("request_problem_information");
    reveal_strlit("authentication_method");
    reveal_strlit("authentication_data");
    reveal_strlit("publish_dup");
    assert("publish_dup"@.len() != "protocol_name"@.len());
    assert("publish_dup"@.len() != "protocol_version"@.len());
    assert("publish_dup"@.len() != "flag_clean_start"@.len());
    assert("publish_dup"@.len() != "flag_will_flag"@.len());
    assert("publish_dup"@.len() != "flag_will_qos"@.len());
    assert("publish_dup"@.len() != "flag_will_retain"@.len());
    assert("publish_dup"@.len() != "flag_password"@.len());
    assert("publish_dup"@.len() != "flag_username"@.len());
    assert("publish_dup"@.len() != "keep_alive"@.len());
    assert("publish_dup"@.len() != "session_expiry_interval"@.len());
    assert("publish_dup"@.len() != "receive_maximum"@.len());
    assert("publish_dup"@.len() != "maximum_packet_size"@.len());
    assert("publish_dup"@.len() != "topic_alias_maximum"@.len());
    assert("publish_dup"@.len() != "request_response_information"@.len());
    assert("publish_dup"@.len() != "request_problem_information"@.len());
    assert("publish_dup"@.len() != "authentication_method"@.len());
    assert("publish_dup"@.len() != "authentication_data"@.len());
}

proof fn lemma_publish_qos_parameter(acc: ClientFound, value: Seq<char>)
    ensures
        client_step(acc, "publish_qos"@, value) == (match mqtt_config::number_value(value, 255) { Some(v) => Ok(ClientFound { pub_qos: v as u8, ..acc }), None => Err(ConfigError::InvalidNumber), }),
{
    reveal_strlit("protocol_name");
    reveal_strlit("protocol_version");
    reveal_strlit("flag_clean_start");
    reveal_strlit("flag_will_flag");
    reveal_strlit("flag_will_qos");
    reveal_strlit("flag_will_retain");
    reveal_strlit("flag_password");
    reveal_strlit("flag_username");
    reveal_strlit("keep_alive");
    reveal_strlit("session_expiry_interval");
    reveal_strlit("receive_maximum");
    reveal_strlit("maximum_packet_size");
    reveal_strlit("topic_alias_maximum");
    reveal_strlit("request_response_information");
    reveal_strlit("request_problem_information");
    reveal_strlit("authentication_method");
    reveal_strlit("authentication_data");
    reveal_strlit("publish_dup");
    reveal_strlit("publish_qos");
    assert("publish_qos"@.len() != "protocol_name"@.len());
    assert("publish_qos"@.len() != "protocol_version"@.len());
    assert("publish_qos"@.len() != "flag_clean_start"@.len());
    assert("publish_qos"@.len() != "flag_will_flag"@.len());
    assert("publish_qos"@.len() != "flag_will_qos"@.len());
    assert("publish_qos"@.len() != "flag_will_retain"@.len());
    assert("publish_qos"@.len() != "flag_password"@.len());
    assert("publish_qos"@.len() != "flag_username"@.len());
    assert("publish_qos"@.len() != "keep_alive"@.len());
    assert("publish_qos"@.len() != "session_expiry_interval"@.len());
    assert("publish_qos"@.len() != "receive_maximum"@.len());
    assert("publish_qos"@.len() != "maximum_packet_size"@.len());
    assert("publish_qos"@.len() != "topic_alias_maximum"@.len());
    assert("publish_qos"@.len() != "request_response_information"@.len());
    assert("publish_qos"@.len() != "request_problem_information"@.len());
    assert("publish_qos"@.len() != "authentication_method"@.len());
    assert("publish_qos"@.len() != "authentication_data"@.len());
    assert("publish_qos"@[8] != "publish_dup"@[8]);
}

proof fn lemma_publish_retain_parameter(acc: ClientFound, value: Seq<char>)
    ensures
        client_step(acc, "publish_retain"@, value) == (match mqtt_config::bool_value(value) { Some(b) => Ok(ClientFound { pub_retain: bit_of(b), ..acc }), None => Err(ConfigError::InvalidBool), }),
{
    reveal_strlit("protocol_name");
    reveal_strlit("protocol_version");
    reveal_strlit("flag_clean_start");
    reveal_strlit("flag_will_flag");
    reveal_strlit("flag_will_qos");
    reveal_strlit("flag_will_retain");
    reveal_strlit("flag_password");
    reveal_strlit("flag_username");
    reveal_strlit("keep_alive");
    reveal_strlit("session_expiry_interval");
    reveal_strlit("receive_maximum");
    reveal_strlit("maximum_packet_size");
    reveal_strlit("topic_alias_maximum");
    reveal_strlit("request_response_information");
    reveal_strlit("request_problem_information");
    reveal_strlit("authentication_method");
    reveal_strlit("authentication_data");
    reveal_strlit("publish_dup");
    reveal_strlit("publish_qos");
    reveal_strlit("publish_retain");
    assert("publish_retain"@.len() != "protocol_name"@.len());
    assert("publish_retain"@.len() != "protocol_version"@.len());
    assert("publish_retain"@.len() != "flag_clean_start"@.len());
    assert("publish_retain"@[0] != "flag_will_flag"@[0]);
    assert("publish_retain"@.len() != "flag_will_qos"@.len());
    assert("publish_retain"@.len() != "flag_will_retain"@.len());
    assert("publish_retain"@.len() != "flag_password"@.len());
    assert("publish_retain"@.len() != "flag_username"@.len());
    assert("publish_retain"@.len() != "keep_alive"@.len());
    assert("publish_retain"@.len() != "session_expiry_interval"@.len());
    assert("publish_retain"@.len() != "receive_maximum"@.len());
    assert("publish_retain"@.len() != "maximum_packet_size"@.len());
    assert("publish_retain"@.len() != "topic_alias_maximum"@.len());
    assert("publish_retain"@.len() != "request_response_information"@.len());
    assert("publish_retain"@.len() != "request_problem_information"@.len());
    assert("publish_retain"@.len() != "authentication_method"@.len());
    assert("publish_retain"@.len() != "authentication_data"@.len());
    assert("publish_retain"@.len() != "publish_dup"@.len());
    assert("publish_retain"@.len() != "publish_qos"@.len());
}

proof fn lemma_subscribe_max_qos_parameter(acc: ClientFound, value: Seq<char>)
    ensures
        client_step(acc, "subscribe_max_qos"@, value) == (match mqtt_config::number_value(value, 255) { Some(v) => Ok(ClientFound { sub_max_qos: v as u8, ..acc }), None => Err(ConfigError::InvalidSubscribeMaxQos), }),
{
    reveal_strlit("protocol_name");
    reveal_strlit("protocol_version");
    reveal_strlit("flag_clean_start");
    reveal_strlit("flag_will_flag");
    reveal_strlit("flag_will_qos");
    reveal_strlit("flag_will_retain");
    reveal_strlit("flag_password");
    reveal_strlit("flag_username");
    reveal_strlit("keep_alive");
    reveal_strlit("session_expiry_interval");
    reveal_strlit("receive_maximum");
    reveal_strlit("maximum_packet_size");
    reveal_strlit("topic_alias_maximum");
    reveal_strlit("request_response_information");
    reveal_strlit("request_problem_information");
    reveal_strlit("authentication_method");
    reveal_strlit("authentication_data");
    reveal_strlit("publish_dup");
    reveal_strlit("publish_qos");
    reveal_strlit("publish_retain");
    reveal_strlit("subscribe_max_qos");
    assert("subscribe_max_qos"@.len() != "protocol_name"@.len());
    assert("subscribe_max_qos"@.len() != "protocol_version"@.len());
    assert("subscribe_max_qos"@.len() != "flag_clean_start"@.len());
    assert("subscribe_max_qos"@.len() != "flag_will_flag"@.len());
    assert("subscribe_max_qos"@.len() != "flag_will_qos"@.len());
    assert("subscribe_max_qos"@.len() != "flag_will_retain"@.len());
    assert("subscribe_max_qos"@.len() != "flag_password"@.len());
    assert("subscribe_max_qos"@.len() != "flag_username"@.len());
    assert("subscribe_max_qos"@.len() != "keep_alive"@.len());
    assert("subscribe_max_qos"@.len() != "session_expiry_interval"@.len());
    assert("subscribe_max_qos"@.len() != "receive_maximum"@.len());
    assert("subscribe_max_qos"@.len() != "maximum_packet_size"@.len());
    assert("subscribe_max_qos"@.len() != "topic_alias_maximum"@.len());
    assert("subscribe_max_qos"@.len() != "request_response_information"@.len());
    assert("subscribe_max_qos"@.len() != "request_problem_information"@.len());
    assert("subscribe_max_qos"@.len() != "authentication_method"@.len());
    assert("subscribe_max_qos"@.len() != "authentication_data"@.len());
    assert("subscribe_max_qos"@.len() != "publish_dup"@.len());
    assert("subscribe_max_qos"@.len() != "publish_qos"@.len());
    assert("subscribe_max_qos"@.len() != "publish_retain"@.len());
}

proof fn lemma_subscribe_no_local_parameter(acc: ClientFound, value: Seq<char>)
    ensures
        client_step(acc, "subscribe_no_local"@, value) == (match mqtt_config::bool_value(value) { Some(b) => Ok(ClientFound { sub_no_local: b, ..acc }), None => Err(ConfigError::InvalidBool), }),
{
    reveal_strlit("protocol_name");
    reveal_strlit("protocol_version");
    reveal_strlit("flag_clean_start");
    reveal_strlit("flag_will_flag");
    reveal_strlit("flag_will_qos");
    reveal_strlit("flag_will_retain");
    reveal_strlit("flag_password");
    reveal_strlit("flag_username");
    reveal_strlit("keep_alive");
    reveal_strlit("session_expiry_interval");
    reveal_strlit("receive_maximum");
    reveal_strlit("maximum_packet_size");
    reveal_strlit("topic_alias_maximum");
    reveal_strlit("request_response_information");
    reveal_strlit("request_problem_information");
    reveal_strlit("authentication_method");
    reveal_strlit("authentication_data");
    reveal_strlit("publish_dup");
    reveal_strlit("publish_qos");
    reveal_strlit("publish_retain");
    reveal_strlit("subscribe_max_qos");
    reveal_strlit("subscribe_no_local");
    assert("subscribe_no_local"@.len() != "protocol_name"@.len());
    assert("subscribe_no_local"@.len() != "protocol_version"@.len());
    assert("subscribe_no_local"@.len() != "flag_clean_start"@.len());
    assert("subscribe_no_local"@.len() != "flag_will_flag"@.len());
    assert("subscribe_no_local"@.len() != "flag_will_qos"@.len());
    assert("subscribe_no_local"@.len() != "flag_will_retain"@.len());
    assert("subscribe_no_local"@.len() != "flag_password"@.len());
    assert("subscribe_no_local"@.len() != "flag_username"@.len());
    assert("subscribe_no_local"@.len() != "keep_alive"@.len());
    assert("subscribe_no_local"@.len() != "session_expiry_interval"@.len());
    assert("subscribe_no_local"@.len() != "receive_maximum"@.len());
    assert("subscribe_no_local"@.len() != "maximum_packet_size"@.len());
    assert("subscribe_no_local"@.len() != "topic_alias_maximum"@.len());
    assert("subscribe_no_local"@.len() != "request_response_information"@.len());
    assert("subscribe_no_local"@.len() != "request_problem_information"@.len());
    assert("subscribe_no_local"@.len() != "authentication_method"@.len());
    assert("subscribe_no_local"@.len() != "authentication_data"@.len());
    assert("subscribe_no_local"@.len() != "publish_dup"@.len());
    assert("subscribe_no_local"@.len() != "publish_qos"@.len());
    assert("subscribe_no_local"@.len() != "publish_retain"@.len());
    assert("subscribe_no_local"@.len() != "subscribe_max_qos"@.len());
}

proof fn lemma_subscribe_retain_as_published_parameter(acc: ClientFound, value: Seq<char>)
    ensures
        client_step(acc, "subscribe_retain_as_published"@, value) == (match mqtt_config::bool_value(value) { Some(b) => Ok(ClientFound { sub_retain_as_published: b, ..acc }), None => Err(ConfigError::InvalidBool), }),
{
    reveal_strlit("protocol_name");
    reveal_strlit("protocol_version");
    reveal_strlit("flag_clean_start");
    reveal_strlit("flag_will_flag");
    reveal_strlit("flag_will_qos");
    reveal_strlit("flag_will_retain");
    reveal_strlit("flag_password");
    reveal_strlit("flag_username");
    reveal_strlit("keep_alive");
    reveal_strlit("session_expiry_interval");
    reveal_strlit("receive_maximum");
    reveal_strlit("maximum_packet_size");
    reveal_strlit("topic_alias_maximum");
    reveal_strlit("request_response_information");
    reveal_strlit("request_problem_information");
    reveal_strlit("authentication_method");
    reveal_strlit("authentication_data");
    reveal_strlit("publish_dup");
    reveal_strlit("publish_qos");
    reveal_strlit("publish_retain");
    reveal_strlit("subscribe_max_qos");
    reveal_strlit("subscribe_no_local");
    reveal_strlit("subscribe_retain_as_published");
    assert("subscribe_retain_as_published"@.len() != "protocol_name"@.len());
    assert("subscribe_retain_as_published"@.len() != "protocol_version"@.len());
    assert("subscribe_retain_as_published"@.len() != "flag_clean_start"@.len());
    assert("subscribe_retain_as_published"@.len() != "flag_will_flag"@.len());
    assert("subscribe_retain_as_published"@.len() != "flag_will_qos"@.len());
    assert("subscribe_retain_as_published"@.len() != "flag_will_retain"@.len());
    assert("subscribe_retain_as_published"@.len() != "flag_password"@.len());
    assert("subscribe_retain_as_published"@.len() != "flag_username"@.len());
    assert("subscribe_retain_as_published"@.len() != "keep_alive"@.len());
    assert("subscribe_retain_as_published"@.len() != "session_expiry_interval"@.len());
    assert("subscribe_retain_as_published"@.len() != "receive_maximum"@.len());
    assert("subscribe_retain_as_published"@.len() != "maximum_packet_size"@.len());
    assert("subscribe_retain_as_published"@.len() != "topic_alias_maximum"@.len());
    assert("subscribe_retain_as_published"@.len() != "request_response_information"@.len());
    assert("subscribe_retain_as_published"@.len() != "request_problem_information"@.len());
    assert("subscribe_retain_as_published"@.len() != "authentication_method"@.len());
    assert("subscribe_retain_as_published"@.len() != "authentication_data"@.len());
    assert("subscribe_retain_as_published"@.len() != "publish_dup"@.len());
    assert("subscribe_retain_as_published"@.len() != "publish_qos"@.len());
    assert("subscribe_retain_as_published"@.len() != "publish_retain"@.len());
    assert("subscribe_retain_as_published"@.len() != "subscribe_max_qos"@.len());
    assert("subscribe_retain_as_published"@.len() != "subscribe_no_local"@.len());
}

proof fn lemma_subscribe_retain_handling_parameter(acc: ClientFound, value: Seq<char>)
    ensures
        client_step(acc, "subscribe_retain_handling"@, value) == (match mqtt_config::number_value(value, 255) { Some(v) => Ok(ClientFound { sub_retain_handling: v as u8, ..acc }), None => Err(ConfigError::InvalidSubscribeRetainHandling), }),
{
    reveal_strlit("protocol_name");
    reveal_strlit("protocol_version");
    reveal_strlit("flag_clean_start");
    reveal_strlit("flag_will_flag");
    reveal_strlit("flag_will_qos");
    reveal_strlit("flag_will_retain");
    reveal_strlit("flag_password");
    reveal_strlit("flag_username");
    reveal_strlit("keep_alive");
    reveal_strlit("session_expiry_interval");
    reveal_strlit("receive_maximum");
    reveal_strlit("maximum_packet_size");
    reveal_strlit("topic_alias_maximum");
    reveal_strlit("request_response_information");
    reveal_strlit("request_problem_information");
    reveal_strlit("authentication_method");
    reveal_strlit("authentication_data");
    reveal_strlit("publish_dup");
    reveal_strlit("publish_qos");
    reveal_strlit("publish_retain");
    reveal_strlit("subscribe_max_qos");
    reveal_strlit("subscribe_no_local");
    reveal_strlit("subscribe_retain_as_published");
    reveal_strlit("subscribe_retain_handling");
    assert("subscribe_retain_handling"@.len() != "protocol_name"@.len());
    assert("subscribe_retain_handling"@.len() != "protocol_version"@.len());
    assert("subscribe_retain_handling"@.len() != "flag_clean_start"@.len());
    assert("subscribe_retain_handling"@.len() != "flag_will_flag"@.len());
    assert("subscribe_retain_handling"@.len() != "flag_will_qos"@.len());
    assert("subscribe_retain_handling"@.len() != "flag_will_retain"@.len());
    assert("subscribe_retain_handling"@.len() != "flag_password"@.len());
    assert("subscribe_retain_handling"@.len() != "flag_username"@.len());
    assert("subscribe_retain_handling"@.len() != "keep_alive"@.len());
    assert("subscribe_retain_handling"@.len() != "session_expiry_interval"@.len());
    assert("subscribe_retain_handling"@.len() != "receive_maximum"@.len());
    assert("subscribe_retain_handling"@.len() != "maximum_packet_size"@.len());
    assert("subscribe_retain_handling"@.len() != "topic_alias_maximum"@.len());
    assert("subscribe_retain_handling"@.len() != "request_response_information"@.len());
    assert("subscribe_retain_handling"@.len() != "request_problem_information"@.len());
    assert("subscribe_retain_handling"@.len() != "authentication_method"@.len());
    assert("subscribe_retain_handling"@.len() != "authentication_data"@.len());
    assert("subscribe_retain_handling"@.len() != "publish_dup"@.len());
    assert("subscribe_retain_handling"@.len() != "publish_qos"@.len());
    assert("subscribe_retain_handling"@.len() != "publish_retain"@.len());
    assert("subscribe_retain_handling"@.len() != "subscribe_max_qos"@.len());
    assert("subscribe_retain_handling"@.len() != "subscribe_no_local"@.len());
    assert("subscribe_retain_handling"@.len() != "subscribe_retain_as_published"@.len());
}

/// What each valued client parameter sets: the CONNECT field or publish and subscribe
/// option that the key names takes the value read from the text, and nothing else changes;
/// a value that cannot be read gives the error of that key.
pub proof fn lemma_client_value_parameters(acc: ClientFound, value: Seq<char>)
    ensures
        client_step(acc, "protocol_name"@, value) == Ok::<ClientFound, ConfigError>(ClientFound { props: ConnectPropertiesView { protocol_name: value, ..acc.props }, ..acc }),
        client_step(acc, "protocol_version"@, value) == (match mqtt_config::number_value(value, 255) { Some(v) => Ok(ClientFound { props: ConnectPropertiesView { protocol_version: v as u8, ..acc.props }, ..acc }), None => Err(ConfigError::InvalidProtocolVersion), }),
        client_step(acc, "keep_alive"@, value) == (match mqtt_config::number_value(value, 65535) { Some(v) => Ok(ClientFound { props: ConnectPropertiesView { keep_alive: v as u16, ..acc.props }, ..acc }), None => Err(ConfigError::InvalidKeepAlive), }),
        client_step(acc, "session_expiry_interval"@, value) == (match mqtt_config::number_value(value, 4294967295) { Some(v) => Ok(ClientFound { props: ConnectPropertiesView { session_expiry_interval: Some(v as u32), ..acc.props }, ..acc }), None => Err(ConfigError::InvalidSessionExpiryInterval), }),
        client_step(acc, "receive_maximum"@, value) == (match mqtt_config::number_value(value, 65535) { Some(v) => Ok(ClientFound { props: ConnectPropertiesView { receive_maximum: Some(v as u16), ..acc.props }, ..acc }), None => Err(ConfigError::InvalidReceiveMaximum), }),
        client_step(acc, "maximum_packet_size"@, value) == (match mqtt_config::number_value(value, 4294967295) { Some(v) => Ok(ClientFound { props: ConnectPropertiesView { maximum_packet_size: Some(v as u32), ..acc.props }, ..acc }), None => Err(ConfigError::InvalidMaximumPacketSize), }),
        client_step(acc, "topic_alias_maximum"@, value) == (match mqtt_config::number_value(value, 65535) { Some(v) => Ok(ClientFound { props: ConnectPropertiesView { topic_alias_maximum: Some(v as u16), ..acc.props }, ..acc }), None => Err(ConfigError::InvalidTopicAliasMaximum), }),
        client_step(acc, "request_response_information"@, value) == (match mqtt_config::bool_value(value) { Some(b) => Ok(ClientFound { props: ConnectPropertiesView { request_response_information: Some(bit_of(b)), ..acc.props }, ..acc }), None => Err(ConfigError::InvalidBool), }),
        client_step(acc, "request_problem_information"@, value) == (match mqtt_config::bool_value(value) { Some(b) => Ok(ClientFound { props: ConnectPropertiesView { request_problem_information: Some(bit_of(b)), ..acc.props }, ..acc }), None => Err(ConfigError::InvalidBool), }),
        client_step(acc, "authentication_method"@, value) == Ok::<ClientFound, ConfigError>(ClientFound { props: ConnectPropertiesView { authentication_method: Some(value), ..acc.props }, ..acc }),
        client_step(acc, "authentication_data"@, value) == Ok::<ClientFound, ConfigError>(ClientFound { props: ConnectPropertiesView { authentication_data: Some(value), ..acc.props }, ..acc }),
        client_step(acc, "publish_dup"@, value) == (match mqtt_config::bool_value(value) { Some(b) => Ok(ClientFound { pub_dup_flag: bit_of(b), ..acc }), None => Err(ConfigError::InvalidBool), }),
        client_step(acc, "publish_qos"@, value) == (match mqtt_config::number_value(value, 255) { Some(v) => Ok(ClientFound { pub_qos: v as u8, ..acc }), None => Err(ConfigError::InvalidNumber), }),
        client_step(acc, "publish_retain"@, value) == (match mqtt_config::bool_value(value) { Some(b) => Ok(ClientFound { pub_retain: bit_of(b), ..acc }), None => Err(ConfigError::InvalidBool), }),
        client_step(acc, "subscribe_max_qos"@, value) == (match mqtt_config::number_value(value, 255) { Some(v) => Ok(ClientFound { sub_max_qos: v as u8, ..acc }), None => Err(ConfigError::InvalidSubscribeMaxQos), }),
        client_step(acc, "subscribe_no_local"@, value) == (match mqtt_config::bool_value(value) { Some(b) => Ok(ClientFound { sub_no_local: b, ..acc }), None => Err(ConfigError::InvalidBool), }),
        client_step(acc, "subscribe_retain_as_published"@, value) == (match mqtt_config::bool_value(value) { Some(b) => Ok(ClientFound { sub_retain_as_published: b, ..acc }), None => Err(ConfigError::InvalidBool), }),
        client_step(acc, "subscribe_retain_handling"@, value) == (match mqtt_config::number_value(value, 255) { Some(v) => Ok(ClientFound { sub_retain_handling: v as u8, ..acc }), None => Err(ConfigError::InvalidSubscribeRetainHandling), }),
{
    lemma_protocol_name_parameter(acc, value);
    lemma_protocol_version_parameter(acc, value);
    lemma_keep_alive_parameter(acc, value);
    lemma_session_expiry_interval_parameter(acc, value);
    lemma_receive_maximum_parameter(acc, value);
    lemma_maximum_packet_size_parameter(acc, value);
    lemma_topic_alias_maximum_parameter(acc, value);
    lemma_request_response_information_parameter(acc, value);
    lemma_request_problem_information_parameter(acc, value);
    lemma_authentication_method_parameter(acc, value);
    lemma_authentication_data_parameter(acc, value);
    lemma_publish_dup_parameter(acc, value);
    lemma_publish_qos_parameter(acc, value);
    lemma_publish_retain_parameter(acc, value);
    lemma_subscribe_max_qos_parameter(acc, value);
    lemma_subscribe_no_local_parameter(acc, value);
    lemma_subscribe_retain_as_published_parameter(acc, value);
    lemma_subscribe_retain_handling_parameter(acc, value);
}

} // verus!
