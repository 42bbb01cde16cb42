//! The bridge's configuration, its defaults, and the checks made on it once read.

use vstd::prelude::*;
use vstd::string::*;

use crate::common::WFAuthMethod;

verus! {

/// An address that UDP broadcasts are accepted from, by its octets.
#[derive(Debug, Clone, Copy, PartialEq, Eq)]
pub enum SenderAddr {
    V4([u8; 4]),
    V6([u8; 16]),
}

/// The settings read from the configuration file.
#[derive(Clone, Debug)]
pub struct Config {
    pub station_id: Option<u32>,
    pub device_ids: Vec<u32>,
    pub token: Option<String>,
    pub api_key: Option<String>,
    pub ignored_msg_types: Vec<String>,
    pub senders: Vec<SenderAddr>,
    pub mqtt_hostname: String,
    pub mqtt_port: u16,
    pub mqtt_username: Option<String>,
    pub mqtt_password: Option<String>,
    pub mqtt_client_id: Option<String>,
    pub mqtt_topic_base: String,
}

/// Why a configuration was refused.
#[derive(Debug, Clone, Copy, PartialEq, Eq, Structural)]
pub enum ConfigError {
    /// Neither a token nor an API key was given.
    MissingCredentials,
}

impl Config {
    /// The broker host used when the file names none.
    pub fn default_mqtt_hostname() -> (host: String)
        ensures
            host@ == "localhost"@,
    {
        String::from_str("localhost")
    }

    /// The broker port used when the file names none.
    pub fn default_mqtt_port() -> (port: u16)
        ensures
            port == 1883,
    {
        1883
    }

    /// The topic prefix used when the file names none.
    pub fn default_mqtt_topic_base() -> (base: String)
        ensures
            base@ == "weatherflow"@,
    {
        String::from_str("weatherflow")
    }
}

/// The configuration gives a credential for the WeatherFlow services.
pub open spec fn has_credentials(config: Config) -> bool {
    config.token is Some || config.api_key is Some
}

/// Accepts a configuration that names a token or an API key, and refuses any other.
pub fn check_config(config: Config) -> (r: Result<Config, ConfigError>)
    ensures
        r is Ok <==> has_credentials(config),
        r matches Ok(c) ==> c == config,
        r matches Err(e) ==> e == ConfigError::MissingCredentials,
{
    if config.api_key.is_none() && config.token.is_none() {
        Err(ConfigError::MissingCredentials)
    } else {
        Ok(config)
    }
}

/// The credential to present to WeatherFlow: the token where one is given,
/// else the API key.
pub open spec fn auth_method_spec(config: Config) -> Option<WFAuthMethod> {
    match config.token {
        Some(t) => Some(WFAuthMethod::AuthToken(t)),
        None => match config.api_key {
            Some(k) => Some(WFAuthMethod::ApiKey(k)),
            None => None,
        },
    }
}

/// The credential to present to WeatherFlow: the token where one is given,
/// else the API key.
pub fn auth_method_from_config(config: &Config) -> (r: Option<WFAuthMethod>)
    ensures
        r == auth_method_spec(*config),
{
    match &config.token {
        Some(t) => Some(WFAuthMethod::AuthToken(t.clone())),
        None => match &config.api_key {
            Some(k) => Some(WFAuthMethod::ApiKey(k.clone())),
            None => None,
        },
    }
}

/// A configuration that passes [`check_config`] always yields a credential,
/// and one that fails it yields none.
pub proof fn law_checked_config_has_credential(config: Config)
    ensures
        auth_method_spec(config) is Some <==> has_credentials(config),
{
}

/// Whenever the configuration holds a token, that token is presented as a
/// token, whether or not an API key is also given; an API key is presented,
/// as an API key, only when there is no token.
pub proof fn law_token_presented_as_token(config: Config)
    ensures
        config.token matches Some(t) ==> auth_method_spec(config) == Some(WFAuthMethod::AuthToken(t)),
        config.token is None ==> (config.api_key matches Some(k) ==> auth_method_spec(config) == Some(
            WFAuthMethod::ApiKey(k),
        )),
        config.token is None && config.api_key is None ==> auth_method_spec(config) is None,
{
}

} // verus!
