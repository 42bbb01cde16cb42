//! The MQTT publisher's decisions: its connection settings, and which broker
//! events end the connection and how long to wait before reconnecting.

use vstd::prelude::*;

use crate::common::MqttArgs;

verus! {

/// Keep-alive interval of the broker connection, in seconds.
pub const MQTT_KEEPALIVE_SECS: u64 = 30;
/// Largest packet sent or accepted, in bytes.
pub const MQTT_MAX_PACKET_SIZE: usize = 1024;
/// Wait before reconnecting after an ordinary loss of connection, in seconds.
pub const MQTT_RECONNECT_DELAY_SECS: u64 = 1;
/// Wait before reconnecting after a refusal that needs a configuration change, in seconds.
pub const MQTT_FATAL_RECONNECT_DELAY_SECS: u64 = 60;
/// Capacity of the client's request queue.
pub const MQTT_REQUEST_CAPACITY: usize = 16;

/// The user name and password to log in with: both, where both are given.
pub fn mqtt_credentials(args: &MqttArgs) -> (r: Option<(String, String)>)
    ensures
        r is Some <==> (args.username is Some && args.password is Some),
        r matches Some(c) ==> c.0 == args.username->0 && c.1 == args.password->0,
{
    match (&args.username, &args.password) {
        (Some(u), Some(p)) => Some((u.clone(), p.clone())),
        _ => None,
    }
}

/// The broker's answer to a refused connection.
#[derive(Debug, Clone, Copy, PartialEq, Eq, Structural)]
pub enum RefusalCode {
    Success,
    RefusedProtocolVersion,
    BadClientId,
    ServiceUnavailable,
    BadUserNamePassword,
    NotAuthorized,
}

/// A failure of the client's own protocol state.
#[derive(Debug, Clone, Copy, PartialEq, Eq, Structural)]
pub enum StateErrorKind {
    InvalidState,
    ConnectionAborted,
    Deserialization,
    Other,
}

/// A failure reported by the client's event loop.
#[derive(Debug, Clone, Copy, PartialEq, Eq, Structural)]
pub enum ConnectionErrorKind {
    MqttState(StateErrorKind),
    ConnectionRefused(RefusalCode),
    Tls,
    NotConnAck,
    RequestsDone,
    /// Network failures, timeouts and anything else the client retries itself.
    Other,
}

/// Failures after which the connection is rebuilt rather than left to the
/// client's own retries.
pub open spec fn is_critical_spec(e: ConnectionErrorKind) -> bool {
    match e {
        ConnectionErrorKind::ConnectionRefused(_) => true,
        ConnectionErrorKind::MqttState(s) => s == StateErrorKind::InvalidState || s == StateErrorKind::ConnectionAborted
            || s == StateErrorKind::Deserialization,
        ConnectionErrorKind::Tls | ConnectionErrorKind::NotConnAck | ConnectionErrorKind::RequestsDone => true,
        ConnectionErrorKind::Other => false,
    }
}

/// Refusals that reconnecting does not cure: bad credentials, no
/// authorisation, or a rejected client id.
pub open spec fn is_fatal_spec(e: ConnectionErrorKind) -> bool {
    e == ConnectionErrorKind::ConnectionRefused(RefusalCode::BadUserNamePassword) || e
        == ConnectionErrorKind::ConnectionRefused(RefusalCode::NotAuthorized) || e
        == ConnectionErrorKind::ConnectionRefused(RefusalCode::BadClientId)
}

/// Whether a failure needs the connection rebuilt: any refusal, a confused
/// protocol state, and TLS or handshake failures do; network trouble does not.
pub fn is_critical_error(e: &ConnectionErrorKind) -> (r: bool)
    ensures
        r == is_critical_spec(*e),
{
    match e {
        ConnectionErrorKind::ConnectionRefused(_) => true,
        ConnectionErrorKind::MqttState(s) => match s {
            StateErrorKind::InvalidState | StateErrorKind::ConnectionAborted | StateErrorKind::Deserialization => true,
            StateErrorKind::Other => false,
        },
        ConnectionErrorKind::Tls | ConnectionErrorKind::NotConnAck | ConnectionErrorKind::RequestsDone => true,
        ConnectionErrorKind::Other => false,
    }
}

/// Whether a failure is a refusal that reconnecting does not cure.
pub fn is_fatal_error(e: &ConnectionErrorKind) -> (r: bool)
    ensures
        r == is_fatal_spec(*e),
{
    match e {
        ConnectionErrorKind::ConnectionRefused(code) => match code {
            RefusalCode::BadUserNamePassword | RefusalCode::NotAuthorized | RefusalCode::BadClientId => true,
            _ => false,
        },
        _ => false,
    }
}

/// What the client's event loop reported.
#[derive(Debug, Clone, Copy, PartialEq, Eq, Structural)]
pub enum MqttEvent {
    /// The broker sent a disconnect.
    Disconnected,
    /// Any other packet or event.
    Other,
    /// A failure.
    Error(ConnectionErrorKind),
}

/// What the publisher does after an event.
#[derive(Debug, Clone, Copy, PartialEq, Eq, Structural)]
pub enum MqttEventAction {
    /// Keep publishing on this connection.
    Continue,
    /// Drop the client, wait `delay_secs` seconds, and connect anew.
    Reconnect { delay_secs: u64 },
}

/// The publisher's response to an event.
pub open spec fn mqtt_event_action_spec(e: MqttEvent) -> MqttEventAction {
    match e {
        MqttEvent::Disconnected => MqttEventAction::Reconnect { delay_secs: 1 },
        MqttEvent::Other => MqttEventAction::Continue,
        MqttEvent::Error(k) => if !is_critical_spec(k) {
            MqttEventAction::Continue
        } else if is_fatal_spec(k) {
            MqttEventAction::Reconnect { delay_secs: 60 }
        } else {
            MqttEventAction::Reconnect { delay_secs: 1 }
        },
    }
}

/// The publisher's response to an event: a disconnect or a critical failure
/// rebuilds the connection, after a long wait for a fatal refusal and a short
/// one otherwise; anything else leaves the connection to the client.
pub fn mqtt_event_action(e: &MqttEvent) -> (r: MqttEventAction)
    ensures
        r == mqtt_event_action_spec(*e),
{
    match e {
        MqttEvent::Disconnected => MqttEventAction::Reconnect { delay_secs: MQTT_RECONNECT_DELAY_SECS },
        MqttEvent::Other => MqttEventAction::Continue,
        MqttEvent::Error(k) => if !is_critical_error(k) {
            MqttEventAction::Continue
        } else if is_fatal_error(k) {
            MqttEventAction::Reconnect { delay_secs: MQTT_FATAL_RECONNECT_DELAY_SECS }
        } else {
            MqttEventAction::Reconnect { delay_secs: MQTT_RECONNECT_DELAY_SECS }
        },
    }
}

/// Every fatal refusal is also a critical failure.
pub proof fn law_fatal_is_critical(e: ConnectionErrorKind)
    requires
        is_fatal_spec(e),
    ensures
        is_critical_spec(e),
{
}

/// The publisher only ever waits the short or the long delay, and the long
/// one only after a fatal refusal.
pub proof fn law_reconnect_delays(e: MqttEvent)
    ensures
        mqtt_event_action_spec(e) matches MqttEventAction::Reconnect { delay_secs } ==> (delay_secs == 1
            || delay_secs == 60),
        mqtt_event_action_spec(e) == (MqttEventAction::Reconnect { delay_secs: 60 }) <==> (e matches MqttEvent::Error(k)
            && is_fatal_spec(k)),
{
}

/// Every critical failure rebuilds the connection, and only the failures the
/// client retries itself (network trouble and unclassified state errors) leave
/// it in place: a refusal reconnects after 60 s when fatal and 1 s otherwise;
/// a confused protocol state (invalid state, aborted connection, undecodable
/// packet), a TLS failure, a missing acknowledgement or a finished request
/// stream reconnects after 1 s.
pub proof fn law_critical_errors_reconnect(k: ConnectionErrorKind)
    ensures
        is_critical_spec(k) ==> mqtt_event_action_spec(MqttEvent::Error(k)) is Reconnect,
        !is_critical_spec(k) ==> mqtt_event_action_spec(MqttEvent::Error(k)) == MqttEventAction::Continue,
        mqtt_event_action_spec(MqttEvent::Error(k)) == MqttEventAction::Continue <==> (k == ConnectionErrorKind::Other
            || k == ConnectionErrorKind::MqttState(StateErrorKind::Other)),
        (k == ConnectionErrorKind::MqttState(StateErrorKind::InvalidState) || k == ConnectionErrorKind::MqttState(
            StateErrorKind::ConnectionAborted,
        ) || k == ConnectionErrorKind::MqttState(StateErrorKind::Deserialization) || k == ConnectionErrorKind::Tls
            || k == ConnectionErrorKind::NotConnAck || k == ConnectionErrorKind::RequestsDone)
            ==> mqtt_event_action_spec(MqttEvent::Error(k)) == (MqttEventAction::Reconnect { delay_secs: 1 }),
        k matches ConnectionErrorKind::ConnectionRefused(code) ==> mqtt_event_action_spec(MqttEvent::Error(k)) == (
        MqttEventAction::Reconnect {
            delay_secs: if code == RefusalCode::BadUserNamePassword || code == RefusalCode::NotAuthorized || code
                == RefusalCode::BadClientId {
                60
            } else {
                1
            },
        }),
{
}

} // verus!
