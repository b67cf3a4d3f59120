//! The general configuration of an MQTT user, read from `key`/`value` parameters.
use vstd::prelude::*;
use vstd::utf8::*;

use crate::common::data_types::{parse_bool_flag, parse_decimal};
use crate::common::data_types;
use crate::control_packets::mqtt_packet::packet_property;

verus! {

/// Why a set of configuration parameters was refused.
#[derive(Debug, Clone, Copy, PartialEq, Eq, Structural)]
pub enum ConfigError {
    /// The `ip` parameter is not an IP address.
    InvalidIp,
    /// The `port` parameter is not a number of at most 65535.
    InvalidPort,
    /// The `log_in_terminal` parameter is neither `true` nor `false`.
    InvalidLogInTerminal,
    /// One of `id`, `ip`, `port`, `log_path` and `log_in_terminal` is missing.
    MissingParameters,
    /// The `protocol_version` parameter is not a byte.
    InvalidProtocolVersion,
    /// A connect flag parameter is not `true` or `false` (the Will QoS: not a byte).
    InvalidFlag,
    /// The `keep_alive` parameter is not a number of at most 65535.
    InvalidKeepAlive,
    /// The `session_expiry_interval` parameter is not a four-byte number.
    InvalidSessionExpiryInterval,
    /// The `receive_maximum` parameter is not a number of at most 65535.
    InvalidReceiveMaximum,
    /// The `maximum_packet_size` parameter is not a four-byte number.
    InvalidMaximumPacketSize,
    /// The `topic_alias_maximum` parameter is not a number of at most 65535.
    InvalidTopicAliasMaximum,
    /// A boolean parameter is neither `true` nor `false`.
    InvalidBool,
    /// The `publish_qos` parameter is not a byte.
    InvalidNumber,
    /// The `subscribe_max_qos` parameter is not a byte.
    InvalidSubscribeMaxQos,
    /// The `subscribe_retain_handling` parameter is not a byte.
    InvalidSubscribeRetainHandling,
    /// A parameter is not known.
    ParameterNotFound,
    /// The `maximum_threads` parameter is not a number that fits a `usize`.
    InvalidMaximumThreads,
}

/// The general configuration: the user's identifier, the server address as written, the
/// server port, the log file and whether to log to the terminal.
pub struct MqttConfig {
    pub id: String,
    pub ip: String,
    pub port: u16,
    pub log_path: String,
    pub log_in_term: bool,
}

/// The mathematical value of a [`MqttConfig`].
pub struct MqttConfigView {
    pub id: Seq<char>,
    pub ip: Seq<char>,
    pub port: u16,
    pub log_path: Seq<char>,
    pub log_in_term: bool,
}

impl View for MqttConfig {
    type V = MqttConfigView;

    open spec fn view(&self) -> MqttConfigView {
        MqttConfigView {
            id: self.id@,
            ip: self.ip@,
            port: self.port,
            log_path: self.log_path@,
            log_in_term: self.log_in_term,
        }
    }
}

/// The value of a boolean written as text.
pub open spec fn bool_value(s: Seq<char>) -> Option<bool> {
    match data_types::bool_flag_value(s) {
        Some(b) => Some(b == 1),
        None => None,
    }
}

/// The value of an unsigned number of at most `max` written as text.
pub open spec fn number_value(s: Seq<char>, max: nat) -> Option<nat> {
    data_types::parse_decimal_spec(encode_utf8(s), max)
}

/// The general fields found so far while reading the parameters.
pub struct MqttFound {
    pub id: Option<Seq<char>>,
    pub ip: Option<Seq<char>>,
    pub port: Option<u16>,
    pub log_path: Option<Seq<char>>,
    pub log_in_term: Option<bool>,
}

/// Reading one parameter into the general fields; `ip_valid` says whether its value is an
/// IP address. Parameters of other keys are left to the other configurations.
pub open spec fn mqtt_step(acc: MqttFound, key: Seq<char>, value: Seq<char>, ip_valid: bool) -> Result<MqttFound, ConfigError> {
    if key == "id"@ {
        Ok(MqttFound { id: Some(value), ..acc })
    } else if key == "ip"@ {
        if ip_valid {
            Ok(MqttFound { ip: Some(value), ..acc })
        } else {
            Err(ConfigError::InvalidIp)
        }
    } else if key == "port"@ {
        match number_value(value, u16::MAX as nat) {
            Some(p) => Ok(MqttFound { port: Some(p as u16), ..acc }),
            None => Err(ConfigError::InvalidPort),
        }
    } else if key == "log_path"@ {
        Ok(MqttFound { log_path: Some(value), ..acc })
    } else if key == "log_in_terminal"@ {
        match bool_value(value) {
            Some(b) => Ok(MqttFound { log_in_term: Some(b), ..acc }),
            None => Err(ConfigError::InvalidLogInTerminal),
        }
    } else {
        Ok(acc)
    }
}

/// Reading the first `n` parameters in order; the first refused one gives the error.
pub open spec fn mqtt_scan(params: Seq<(String, String)>, valid_ips: Seq<bool>, n: int) -> Result<MqttFound, ConfigError>
    decreases n,
{
    if n <= 0 {
        Ok(MqttFound { id: None, ip: None, port: None, log_path: None, log_in_term: None })
    } else {
        match mqtt_scan(params, valid_ips, n - 1) {
            Err(e) => Err(e),
            Ok(acc) => mqtt_step(acc, params[n - 1].0@, params[n - 1].1@, valid_ips[n - 1]),
        }
    }
}

/// The general configuration the parameters give: every general field must be present.
pub open spec fn mqtt_config_of(params: Seq<(String, String)>, valid_ips: Seq<bool>) -> Result<MqttConfigView, ConfigError> {
    match mqtt_scan(params, valid_ips, params.len() as int) {
        Err(e) => Err(e),
        Ok(f) => match (f.id, f.ip, f.port, f.log_path, f.log_in_term) {
            (Some(id), Some(ip), Some(port), Some(log_path), Some(log_in_term)) => Ok(
                MqttConfigView { id, ip, port, log_path, log_in_term },
            ),
            _ => Err(ConfigError::MissingParameters),
        },
    }
}

/// Once a parameter is refused, reading more parameters keeps the error.
proof fn lemma_scan_error_stays(params: Seq<(String, String)>, valid_ips: Seq<bool>, k: int, n: int)
    requires
        0 <= k <= n,
        mqtt_scan(params, valid_ips, k) is Err,
    ensures
        mqtt_scan(params, valid_ips, n) == mqtt_scan(params, valid_ips, k),
    decreases n - k,
{
    if n > k {
        lemma_scan_error_stays(params, valid_ips, k, n - 1);
    }
}

/// Whether a key is the given name.
pub fn is_key(key: &String, name: &str) -> (res: bool)
    ensures
        res == (key@ == name@),
{
    *key == name.to_owned()
}

pub open spec fn mqtt_config_result(r: Result<MqttConfig, ConfigError>) -> Result<MqttConfigView, ConfigError> {
    match r {
        Ok(c) => Ok(c@),
        Err(e) => Err(e),
    }
}

impl MqttConfig {
    /// Reads the general configuration from `key`/`value` parameters, in order. The `id`,
    /// `ip`, `port`, `log_path` and `log_in_terminal` keys set their fields (a later value
    /// replaces an earlier one); other keys are left alone. `valid_ips[i]` says whether the
    /// value of the `i`-th parameter is an IP address.
    pub fn set_params(params: &[(String, String)], valid_ips: &[bool]) -> (res: Result<Self, ConfigError>)
        requires
            valid_ips@.len() == params@.len(),
        ensures
            mqtt_config_result(res) == mqtt_config_of(params@, valid_ips@),
    {
        let mut id: Option<String> = None;
        let mut ip: Option<String> = None;
        let mut port: Option<u16> = None;
        let mut log_path: Option<String> = None;
        let mut log_in_term: Option<bool> = None;
        let mut i: usize = 0;
        while i < params.len()
            invariant
                i <= params@.len(),
                valid_ips@.len() == params@.len(),
                mqtt_scan(params@, valid_ips@, i as int) == Ok::<MqttFound, ConfigError>(MqttFound {
                    id: packet_property::opt_string_view(id),
                    ip: packet_property::opt_string_view(ip),
                    port,
                    log_path: packet_property::opt_string_view(log_path),
                    log_in_term,
                }),
            decreases params@.len() - i,
        {
            let key = &params[i].0;
            let value = &params[i].1;
            if is_key(key, "id") {
                id = Some(value.clone());
            } else if is_key(key, "ip") {
                if valid_ips[i] {
                    ip = Some(value.clone());
                } else {
                    proof {
                        lemma_scan_error_stays(params@, valid_ips@, i + 1, params@.len() as int);
                    }
                    return Err(ConfigError::InvalidIp);
                }
            } else if is_key(key, "port") {
                match parse_decimal(value, 65535) {
                    Some(p) => {
                        port = Some(p as u16);
                    },
                    None => {
                        proof {
                            lemma_scan_error_stays(params@, valid_ips@, i + 1, params@.len() as int);
                        }
                        return Err(ConfigError::InvalidPort);
                    },
                }
            } else if is_key(key, "log_path") {
                log_path = Some(value.clone());
            } else if is_key(key, "log_in_terminal") {
                match parse_bool_flag(value) {
                    Ok(b) => {
                        log_in_term = Some(b == 1);
                    },
                    Err(_) => {
                        proof {
                            lemma_scan_error_stays(params@, valid_ips@, i + 1, params@.len() as int);
                        }
                        return Err(ConfigError::InvalidLogInTerminal);
                    },
                }
            }
            i += 1;
        }
        match (id, ip, port, log_path, log_in_term) {
            (Some(id), Some(ip), Some(port), Some(log_path), Some(log_in_term)) => Ok(
                MqttConfig { id, ip, port, log_path, log_in_term },
            ),
            _ => Err(ConfigError::MissingParameters),
        }
    }
}

impl Clone for MqttConfig {
    fn clone(&self) -> (res: Self)
        ensures
            res@ == self@,
    {
        MqttConfig {
            id: self.id.clone(),
            ip: self.ip.clone(),
            port: self.port,
            log_path: self.log_path.clone(),
            log_in_term: self.log_in_term,
        }
    }
}

/// What each general parameter sets: `id` and `log_path` take the text, `ip` takes it when
/// it is an IP address, `port` takes the number it reads as (at most 65535) and
/// `log_in_terminal` the boolean; nothing else changes, and a value that cannot be read
/// gives the error of that key.
pub proof fn lemma_mqtt_parameters(acc: MqttFound, value: Seq<char>, ip_valid: bool)
    ensures
        mqtt_step(acc, "id"@, value, ip_valid) == Ok::<MqttFound, ConfigError>(MqttFound { id: Some(value), ..acc }),
        mqtt_step(acc, "ip"@, value, ip_valid) == (if ip_valid {
            Ok::<MqttFound, ConfigError>(MqttFound { ip: Some(value), ..acc })
        } else {
            Err(ConfigError::InvalidIp)
        }),
        mqtt_step(acc, "port"@, value, ip_valid) == (match number_value(value, 65535) {
            Some(p) => Ok(MqttFound { port: Some(p as u16), ..acc }),
            None => Err(ConfigError::InvalidPort),
        }),
        mqtt_step(acc, "log_path"@, value, ip_valid) == Ok::<MqttFound, ConfigError>(MqttFound { log_path: Some(value), ..acc }),
        mqtt_step(acc, "log_in_terminal"@, value, ip_valid) == (match bool_value(value) {
            Some(b) => Ok(MqttFound { log_in_term: Some(b), ..acc }),
            None => Err(ConfigError::InvalidLogInTerminal),
        }),
{
    reveal_strlit("id");
    reveal_strlit("ip");
    reveal_strlit("port");
    reveal_strlit("log_path");
    reveal_strlit("log_in_terminal");
    assert("ip"@[1] != "id"@[1]);
    assert("port"@.len() != "id"@.len());
    assert("port"@.len() != "ip"@.len());
    assert("log_path"@.len() != "id"@.len());
    assert("log_path"@.len() != "ip"@.len());
    assert("log_path"@.len() != "port"@.len());
    assert("log_in_terminal"@.len() != "id"@.len());
    assert("log_in_terminal"@.len() != "ip"@.len());
    assert("log_in_terminal"@.len() != "port"@.len());
    assert("log_in_terminal"@.len() != "log_path"@.len());
}

} // verus!
