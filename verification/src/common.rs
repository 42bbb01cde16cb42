//! The values that pass between the collectors, the message consumer and the
//! MQTT publisher.

use vstd::prelude::*;
use vstd::string::*;

use crate::config::Config;

verus! {

/// How to reach and log in to the MQTT broker, and under which topic to publish.
#[derive(Debug, Default, Clone)]
pub struct MqttArgs {
    pub hostname: String,
    pub port: u16,
    pub username: Option<String>,
    pub password: Option<String>,
    pub client_id: String,
    pub topic_base: String,
}

/// The characters of an optional client id, with none standing for the empty id
/// (with which an MQTT 3.1.1 broker assigns one itself).
pub open spec fn client_id_text(id: Option<String>) -> Seq<char> {
    match id {
        Some(s) => s@,
        None => Seq::empty(),
    }
}

impl MqttArgs {
    /// The MQTT settings of a configuration.
    pub fn new(config: Config) -> (args: Self)
        ensures
            args.hostname == config.mqtt_hostname,
            args.port == config.mqtt_port,
            args.username == config.mqtt_username,
            args.password == config.mqtt_password,
            args.client_id@ == client_id_text(config.mqtt_client_id),
            args.topic_base == config.mqtt_topic_base,
    {
        let client_id = match config.mqtt_client_id {
            Some(id) => id,
            None => String::new(),
        };
        Self {
            hostname: config.mqtt_hostname,
            port: config.mqtt_port,
            username: config.mqtt_username,
            password: config.mqtt_password,
            client_id,
            topic_base: config.mqtt_topic_base,
        }
    }
}

/// What the WebSocket collector needs: how to authenticate, and either the
/// station whose devices to follow or the devices themselves.
#[derive(Debug)]
pub struct WsArgs {
    pub auth_method: WFAuthMethod,
    pub station_id: Option<u32>,
    pub device_ids: Option<Vec<u32>>,
}

impl WsArgs {
    pub fn new(auth_method: WFAuthMethod, station_id: Option<u32>, device_ids: Option<Vec<u32>>) -> (args: Self)
        ensures
            args.auth_method == auth_method,
            args.station_id == station_id,
            args.device_ids == device_ids,
    {
        Self { auth_method, station_id, device_ids }
    }
}

/// Where a message was received.
#[allow(clippy::upper_case_acronyms)]
#[derive(Debug, Clone, Copy, PartialEq, Eq, Structural)]
pub enum WFSource {
    UDP,
    WS,
}

/// A message as received, before it is decoded.
#[derive(Debug)]
pub struct WFMessage {
    pub source: WFSource,
    pub message: Vec<u8>,
}

/// A credential for the WeatherFlow services.
#[derive(Debug, Clone)]
pub enum WFAuthMethod {
    ApiKey(String),
    AuthToken(String),
}

} // verus!
