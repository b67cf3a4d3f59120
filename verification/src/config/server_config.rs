//! The configuration of an MQTT server, read from `key`/`value` parameters.
use vstd::prelude::*;

use crate::config::mqtt_config::{is_key, ConfigError, MqttConfig, MqttConfigView};
use crate::config::mqtt_config;

verus! {

/// The configuration of a server: the general configuration and the database path.
pub struct ServerConfig {
    pub general: MqttConfig,
    pub db_path: Option<String>,
}

/// The mathematical value of a [`ServerConfig`].
pub struct ServerConfigView {
    pub general: MqttConfigView,
    pub db_path: Option<Seq<char>>,
}

impl View for ServerConfig {
    type V = ServerConfigView;

    open spec fn view(&self) -> ServerConfigView {
        ServerConfigView {
            general: self.general@,
            db_path: match self.db_path {
                Some(p) => Some(p@),
                None => None,
            },
        }
    }
}

/// The value of the first `db_path` parameter, if any.
pub open spec fn db_path_of(params: Seq<(String, String)>) -> Option<Seq<char>>
    decreases params.len(),
{
    if params.len() == 0 {
        None
    } else if params[0].0@ == "db_path"@ {
        Some(params[0].1@)
    } else {
        db_path_of(params.drop_first())
    }
}

/// The server configuration the parameters give.
pub open spec fn server_config_of(params: Seq<(String, String)>, valid_ips: Seq<bool>) -> Result<ServerConfigView, ConfigError> {
    match mqtt_config::mqtt_config_of(params, valid_ips) {
        Err(e) => Err(e),
        Ok(general) => Ok(ServerConfigView { general, db_path: db_path_of(params) }),
    }
}

pub open spec fn server_config_result(r: Result<ServerConfig, ConfigError>) -> Result<ServerConfigView, ConfigError> {
    match r {
        Ok(c) => Ok(c@),
        Err(e) => Err(e),
    }
}

impl ServerConfig {
    /// Reads the server configuration from `key`/`value` parameters: the general
    /// configuration, and the value of the first `db_path` parameter. `valid_ips[i]` says
    /// whether the value of the `i`-th parameter is an IP address.
    pub fn set_params(params: &[(String, String)], valid_ips: &[bool]) -> (res: Result<Self, ConfigError>)
        requires
            valid_ips@.len() == params@.len(),
        ensures
            server_config_result(res) == server_config_of(params@, valid_ips@),
    {
        let general = MqttConfig::set_params(params, valid_ips)?;
        let mut db_path: Option<String> = None;
        let mut i: usize = 0;
        assert(params@.skip(0) =~= params@);
        while i < params.len()
            invariant_except_break
                db_path is None,
            invariant
                i <= params@.len(),
                db_path_of(params@) == db_path_of(params@.skip(i as int)),
            ensures
                match db_path {
                    Some(p) => db_path_of(params@) == Some(p@),
                    None => db_path_of(params@) is None,
                },
            decreases params@.len() - i,
        {
            assert(params@.skip(i as int)[0] == params@[i as int]);
            if is_key(&params[i].0, "db_path") {
                db_path = Some(params[i].1.clone());
                break;
            }
            assert(params@.skip(i as int).drop_first() =~= params@.skip(i + 1));
            i += 1;
        }
        Ok(ServerConfig { general, db_path })
    }
}

impl Clone for ServerConfig {
    fn clone(&self) -> (res: Self)
        ensures
            res@ == self@,
    {
        ServerConfig {
            general: self.general.clone(),
            db_path: match &self.db_path {
                Some(p) => Some(p.clone()),
                None => None,
            },
        }
    }
}

} // verus!
