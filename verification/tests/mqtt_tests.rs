use weatherflow_mqtt::cli::{arguments_outcome, log_level_for, ArgsOutcome, LogLevel};
use weatherflow_mqtt::common::MqttArgs;
use weatherflow_mqtt::mqtt::{
    is_critical_error, is_fatal_error, mqtt_credentials, mqtt_event_action, ConnectionErrorKind, MqttEvent,
    MqttEventAction, RefusalCode, StateErrorKind,
};

#[test]
fn credentials_need_both_parts() {
    let mut a = MqttArgs::default();
    assert_eq!(mqtt_credentials(&a), None);
    a.username = Some("u".to_string());
    assert_eq!(mqtt_credentials(&a), None);
    a.password = Some("p".to_string());
    assert_eq!(mqtt_credentials(&a), Some(("u".to_string(), "p".to_string())));
    a.username = None;
    assert_eq!(mqtt_credentials(&a), None);
}

#[test]
fn critical_errors() {
    for code in [
        RefusalCode::Success,
        RefusalCode::RefusedProtocolVersion,
        RefusalCode::BadClientId,
        RefusalCode::ServiceUnavailable,
        RefusalCode::BadUserNamePassword,
        RefusalCode::NotAuthorized,
    ] {
        assert!(is_critical_error(&ConnectionErrorKind::ConnectionRefused(code)));
    }
    assert!(is_critical_error(&ConnectionErrorKind::MqttState(StateErrorKind::InvalidState)));
    assert!(is_critical_error(&ConnectionErrorKind::MqttState(StateErrorKind::ConnectionAborted)));
    assert!(is_critical_error(&ConnectionErrorKind::MqttState(StateErrorKind::Deserialization)));
    assert!(!is_critical_error(&ConnectionErrorKind::MqttState(StateErrorKind::Other)));
    assert!(is_critical_error(&ConnectionErrorKind::Tls));
    assert!(is_critical_error(&ConnectionErrorKind::NotConnAck));
    assert!(is_critical_error(&ConnectionErrorKind::RequestsDone));
    assert!(!is_critical_error(&ConnectionErrorKind::Other));
}

#[test]
fn fatal_errors() {
    assert!(is_fatal_error(&ConnectionErrorKind::ConnectionRefused(RefusalCode::BadUserNamePassword)));
    assert!(is_fatal_error(&ConnectionErrorKind::ConnectionRefused(RefusalCode::NotAuthorized)));
    assert!(is_fatal_error(&ConnectionErrorKind::ConnectionRefused(RefusalCode::BadClientId)));
    assert!(!is_fatal_error(&ConnectionErrorKind::ConnectionRefused(RefusalCode::ServiceUnavailable)));
    assert!(!is_fatal_error(&ConnectionErrorKind::Tls));
    let e = ConnectionErrorKind::ConnectionRefused(RefusalCode::NotAuthorized);
    assert!(is_fatal_error(&e) && is_critical_error(&e));
}

#[test]
fn event_actions() {
    assert_eq!(mqtt_event_action(&MqttEvent::Disconnected), MqttEventAction::Reconnect { delay_secs: 1 });
    assert_eq!(mqtt_event_action(&MqttEvent::Other), MqttEventAction::Continue);
    assert_eq!(mqtt_event_action(&MqttEvent::Error(ConnectionErrorKind::Other)), MqttEventAction::Continue);
    assert_eq!(
        mqtt_event_action(&MqttEvent::Error(ConnectionErrorKind::Tls)),
        MqttEventAction::Reconnect { delay_secs: 1 }
    );
    assert_eq!(
        mqtt_event_action(&MqttEvent::Error(ConnectionErrorKind::ConnectionRefused(RefusalCode::BadClientId))),
        MqttEventAction::Reconnect { delay_secs: 60 }
    );
    assert_eq!(
        mqtt_event_action(&MqttEvent::Error(ConnectionErrorKind::ConnectionRefused(RefusalCode::ServiceUnavailable))),
        MqttEventAction::Reconnect { delay_secs: 1 }
    );
}

#[test]
fn command_line_decisions() {
    assert_eq!(log_level_for(0), LogLevel::Info);
    assert_eq!(log_level_for(1), LogLevel::Debug);
    assert_eq!(log_level_for(2), LogLevel::Trace);
    assert_eq!(log_level_for(9), LogLevel::Trace);
    let free = vec!["wf.yaml".to_string(), "extra".to_string()];
    assert_eq!(arguments_outcome(true, &free), ArgsOutcome::ShowUsage);
    assert_eq!(arguments_outcome(false, &free), ArgsOutcome::Run("wf.yaml".to_string()));
    assert_eq!(arguments_outcome(false, &vec![]), ArgsOutcome::MissingConfig);
}
