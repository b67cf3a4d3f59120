//! The configuration of a server given by its address, its port and the number of threads
//! it may use, read from `key`/`value` parameters.
use vstd::prelude::*;

use crate::common::data_types::parse_decimal;
use crate::config::mqtt_config::{is_key, ConfigError};
use crate::config::mqtt_config;

verus! {

/// The configuration of a server: its address as written, its port and its maximum number
/// of threads.
pub struct ServerConfig {
    pub ip: String,
    pub port: u16,
    pub maximum_threads: usize,
}

/// The mathematical value of a [`ServerConfig`].
pub struct ServerConfigView {
    pub ip: Seq<char>,
    pub port: u16,
    pub maximum_threads: usize,
}

impl View for ServerConfig {
    type V = ServerConfigView;

    open spec fn view(&self) -> ServerConfigView {
        ServerConfigView { ip: self.ip@, port: self.port, maximum_threads: self.maximum_threads }
    }
}

/// The fields found so far while reading the parameters.
pub struct ServerFound {
    pub ip: Option<Seq<char>>,
    pub port: Option<u16>,
    pub maximum_threads: Option<usize>,
}

/// Reading one parameter; `ip_valid` says whether its value is an IP address. Only the
/// `ip`, `port` and `maximum_threads` keys are known.
pub open spec fn server_step(acc: ServerFound, key: Seq<char>, value: Seq<char>, ip_valid: bool) -> Result<ServerFound, ConfigError> {
    if key == "ip"@ {
        if ip_valid {
            Ok(ServerFound { ip: Some(value), ..acc })
        } else {
            Err(ConfigError::InvalidIp)
        }
    } else if key == "port"@ {
        match mqtt_config::number_value(value, u16::MAX as nat) {
            Some(p) => Ok(ServerFound { port: Some(p as u16), ..acc }),
            None => Err(ConfigError::InvalidPort),
        }
    } else if key == "maximum_threads"@ {
        match mqtt_config::number_value(value, usize::MAX as nat) {
            Some(n) => Ok(ServerFound { maximum_threads: Some(n as usize), ..acc }),
            None => Err(ConfigError::InvalidMaximumThreads),
        }
    } else {
        Err(ConfigError::ParameterNotFound)
    }
}

/// Reading the first `n` parameters in order; the first refused one gives the error.
pub open spec fn server_scan(params: Seq<(String, String)>, valid_ips: Seq<bool>, n: int) -> Result<ServerFound, ConfigError>
    decreases n,
{
    if n <= 0 {
        Ok(ServerFound { ip: None, port: None, maximum_threads: None })
    } else {
        match server_scan(params, valid_ips, n - 1) {
            Err(e) => Err(e),
            Ok(acc) => server_step(acc, params[n - 1].0@, params[n - 1].1@, valid_ips[n - 1]),
        }
    }
}

/// The configuration the parameters give: the address, the port and the maximum number of
/// threads must all be present.
pub open spec fn server_config_of(params: Seq<(String, String)>, valid_ips: Seq<bool>) -> Result<ServerConfigView, ConfigError> {
    match server_scan(params, valid_ips, params.len() as int) {
        Err(e) => Err(e),
        Ok(f) => match (f.ip, f.port, f.maximum_threads) {
            (Some(ip), Some(port), Some(maximum_threads)) => Ok(
                ServerConfigView { ip, port, maximum_threads },
            ),
            _ => Err(ConfigError::MissingParameters),
        },
    }
}

pub open spec fn server_config_result(r: Result<ServerConfig, ConfigError>) -> Result<ServerConfigView, ConfigError> {
    match r {
        Ok(c) => Ok(c@),
        Err(e) => Err(e),
    }
}

/// Once a parameter is refused, reading more parameters keeps the error.
proof fn lemma_server_scan_error_stays(params: Seq<(String, String)>, valid_ips: Seq<bool>, k: int, n: int)
    requires
        0 <= k <= n,
        server_scan(params, valid_ips, k) is Err,
    ensures
        server_scan(params, valid_ips, n) == server_scan(params, valid_ips, k),
    decreases n - k,
{
    if n > k {
        lemma_server_scan_error_stays(params, valid_ips, k, n - 1);
    }
}

impl ServerConfig {
    /// Reads the configuration from `key`/`value` parameters, in order; any key other than
    /// `ip`, `port` and `maximum_threads` is refused. `valid_ips[i]` says whether the value
    /// of the `i`-th parameter is an IP address.
    pub fn set_params(params: &[(String, String)], valid_ips: &[bool]) -> (res: Result<Self, ConfigError>)
        requires
            valid_ips@.len() == params@.len(),
        ensures
            server_config_result(res) == server_config_of(params@, valid_ips@),
    {
        let mut ip: Option<String> = None;
        let mut port: Option<u16> = None;
        let mut maximum_threads: Option<usize> = None;
        let mut i: usize = 0;
        while i < params.len()
            invariant
                i <= params@.len(),
                valid_ips@.len() == params@.len(),
                server_scan(params@, valid_ips@, i as int) == Ok::<ServerFound, ConfigError>(ServerFound {
                    ip: match ip {
                        Some(s) => Some(s@),
                        None => None,
                    },
                    port,
                    maximum_threads,
                }),
            decreases params@.len() - i,
        {
            let key = &params[i].0;
            let value = &params[i].1;
            if is_key(key, "ip") {
                if valid_ips[i] {
                    ip = Some(value.clone());
                } else {
                    proof {
                        lemma_server_scan_error_stays(params@, valid_ips@, i + 1, params@.len() as int);
                    }
                    return Err(ConfigError::InvalidIp);
                }
            } else if is_key(key, "port") {
                match parse_decimal(value, 65535) {
                    Some(p) => {
                        port = Some(p as u16);
                    },
                    None => {
                        proof {
                            lemma_server_scan_error_stays(params@, valid_ips@, i + 1, params@.len() as int);
                        }
                        return Err(ConfigError::InvalidPort);
                    },
                }
            } else if is_key(key, "maximum_threads") {
                match parse_decimal(value, usize::MAX as u64) {
                    Some(n) => {
                        maximum_threads = Some(n as usize);
                    },
                    None => {
                        proof {
                            lemma_server_scan_error_stays(params@, valid_ips@, i + 1, params@.len() as int);
                        }
                        return Err(ConfigError::InvalidMaximumThreads);
                    },
                }
            } else {
                proof {
                    lemma_server_scan_error_stays(params@, valid_ips@, i + 1, params@.len() as int);
                }
                return Err(ConfigError::ParameterNotFound);
            }
            i += 1;
        }
        match (ip, port, maximum_threads) {
            (Some(ip), Some(port), Some(maximum_threads)) => Ok(ServerConfig { ip, port, maximum_threads }),
            _ => Err(ConfigError::MissingParameters),
        }
    }
}

impl Clone for ServerConfig {
    fn clone(&self) -> (res: Self)
        ensures
            res@ == self@,
    {
        ServerConfig { ip: self.ip.clone(), port: self.port, maximum_threads: self.maximum_threads }
    }
}

/// What each server parameter sets: `ip` takes the text when it is an IP address, `port`
/// the number it reads as (at most 65535) and `maximum_threads` the number it reads as;
/// nothing else changes, and a value that cannot be read gives the error of that key.
pub proof fn lemma_server_parameters(acc: ServerFound, value: Seq<char>, ip_valid: bool)
    ensures
        server_step(acc, "ip"@, value, ip_valid) == (if ip_valid {
            Ok::<ServerFound, ConfigError>(ServerFound { ip: Some(value), ..acc })
        } else {
            Err(ConfigError::InvalidIp)
        }),
        server_step(acc, "port"@, value, ip_valid) == (match mqtt_config::number_value(value, 65535) {
            Some(p) => Ok(ServerFound { port: Some(p as u16), ..acc }),
            None => Err(ConfigError::InvalidPort),
        }),
        server_step(acc, "maximum_threads"@, value, ip_valid) == (match mqtt_config::number_value(value, usize::MAX as nat) {
            Some(n) => Ok(ServerFound { maximum_threads: Some(n as usize), ..acc }),
            None => Err(ConfigError::InvalidMaximumThreads),
        }),
{
    reveal_strlit("ip");
    reveal_strlit("port");
    reveal_strlit("maximum_threads");
    assert("port"@.len() != "ip"@.len());
    assert("maximum_threads"@.len() != "ip"@.len());
    assert("maximum_threads"@.len() != "port"@.len());
}

} // verus!
