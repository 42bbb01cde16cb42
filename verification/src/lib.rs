//! A verified core for a bridge that forwards WeatherFlow station messages,
//! received over UDP broadcasts and the WeatherFlow WebSocket service, to an
//! MQTT broker.

pub mod text;
pub mod json;
pub mod common;
pub mod config;
pub mod messages;
pub mod websocket;
pub mod mqtt;
pub mod cli;
