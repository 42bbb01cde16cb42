use std::sync::atomic::AtomicBool;

use weatherflow_mqtt::common::{WFAuthMethod, WFSource, WsArgs};
use weatherflow_mqtt::websocket::{
    auth_query, check_handshake, check_opening_message, collector_plan, collector_start, collector_step,
    device_ids_from_response, device_ids_from_response_bytes, is_ws_connected, listen_start_failure,
    listen_start_request, set_ws_connected, station_url, stream_action, websocket_url, CollectorAction,
    CollectorEvent, CollectorState, DeviceIdSource, HandshakeOutcome, OpeningMessage, StreamAction, StreamEvent,
};

#[test]
fn connection_flag() {
    let flag = AtomicBool::new(false);
    assert!(!is_ws_connected(&flag));
    set_ws_connected(&flag, true);
    assert!(is_ws_connected(&flag));
    set_ws_connected(&flag, false);
    assert!(!is_ws_connected(&flag));
}

#[test]
fn addresses() {
    assert_eq!(auth_query(&WFAuthMethod::ApiKey("abc".to_string())), "api_key=abc");
    assert_eq!(auth_query(&WFAuthMethod::AuthToken("xyz".to_string())), "token=xyz");
    assert_eq!(station_url(1234, "token=xyz"), "https://swd.weatherflow.com/swd/rest/stations/1234?token=xyz");
    assert_eq!(websocket_url("api_key=abc"), "wss://ws.weatherflow.com/swd/data?api_key=abc");
}

#[test]
fn plans() {
    let p = collector_plan(WsArgs::new(WFAuthMethod::ApiKey("k".to_string()), Some(42), None));
    assert_eq!(p.auth_query, "api_key=k");
    match p.source {
        DeviceIdSource::Station { station_id, url } => {
            assert_eq!(station_id, 42);
            assert_eq!(url, "https://swd.weatherflow.com/swd/rest/stations/42?api_key=k");
        }
        other => panic!("unexpected {:?}", other),
    }
    let p = collector_plan(WsArgs::new(WFAuthMethod::AuthToken("t".to_string()), None, Some(vec![5, 6])));
    assert!(matches!(p.source, DeviceIdSource::Listed(ref ids) if ids == &vec![5, 6]));
}

const STATION: &str = r#"{"status":{"status_code":0,"status_message":"SUCCESS"},
 "stations":[{"station_id":42,"devices":[
   {"device_id":100,"device_type":"HB","serial_number":"HB-1"},
   {"device_id":101,"device_type":"ST","serial_number":"ST-1"},
   {"device_type":"AR","serial_number":"AR-1"},
   {"device_id":"102","device_type":"SK"},
   {"device_id":4294967398,"device_type":"SK"},
   {"device_id":103}
 ]}]}"#;

#[test]
fn device_ids_from_station_response() {
    let v: serde_json::Value = serde_json::from_str(STATION).unwrap();
    assert_eq!(device_ids_from_response(&v), Some(vec![101, 102, 103]));
    assert_eq!(device_ids_from_response_bytes(STATION.as_bytes()), Some(vec![101, 102, 103]));
}

#[test]
fn device_ids_need_a_good_status_and_a_device_list() {
    let bad_status = r#"{"status":{"status_code":2,"status_message":"NOT FOUND"},"stations":[{"devices":[]}]}"#;
    assert_eq!(device_ids_from_response_bytes(bad_status.as_bytes()), None);
    let float_status = r#"{"status":{"status_code":0.0},"stations":[{"devices":[]}]}"#;
    assert_eq!(device_ids_from_response_bytes(float_status.as_bytes()), None);
    let no_status = r#"{"stations":[{"devices":[]}]}"#;
    assert_eq!(device_ids_from_response_bytes(no_status.as_bytes()), None);
    let no_stations = r#"{"status":{"status_code":0},"stations":[]}"#;
    assert_eq!(device_ids_from_response_bytes(no_stations.as_bytes()), None);
    let not_array = r#"{"status":{"status_code":0},"stations":[{"devices":{}}]}"#;
    assert_eq!(device_ids_from_response_bytes(not_array.as_bytes()), None);
    let empty = r#"{"status":{"status_code":0},"stations":[{"devices":[]}]}"#;
    assert_eq!(device_ids_from_response_bytes(empty.as_bytes()), Some(vec![]));
    assert_eq!(device_ids_from_response_bytes(b"not json"), None);
}

#[test]
fn listen_start_requests() {
    assert_eq!(
        listen_start_request(123, 1700000000000),
        r#"{"device_id":123,"id":"1700000000000","type":"listen_start"}"#
    );
    assert_eq!(listen_start_request(0, 0), r#"{"device_id":0,"id":"0","type":"listen_start"}"#);
    assert_eq!(listen_start_failure(), "Error sending listen_start request.");
}

#[test]
fn handshakes() {
    assert_eq!(check_handshake(HandshakeOutcome::Responded(101)), Ok(()));
    assert_eq!(
        check_handshake(HandshakeOutcome::Responded(200)),
        Err("Unexpected response code received.".to_string())
    );
    assert_eq!(check_handshake(HandshakeOutcome::Failed), Err("Error connecting to WebSocket server.".to_string()));
}

#[test]
fn opening_messages() {
    assert!(check_opening_message(&OpeningMessage::Text(r#"{"type":"connection_opened"}"#.to_string())).is_ok());
    let f = check_opening_message(&OpeningMessage::Text("{}".to_string())).unwrap_err();
    assert!(f.close_stream);
    assert_eq!(f.reason, "WebSocket connection not successful.");
    let f = check_opening_message(&OpeningMessage::Undecodable).unwrap_err();
    assert!(!f.close_stream);
    assert_eq!(f.reason, "Error converting message into string.");
    let f = check_opening_message(&OpeningMessage::ReadError).unwrap_err();
    assert!(f.close_stream);
    assert_eq!(f.reason, "Error while reading next message.");
    let f = check_opening_message(&OpeningMessage::EndOfStream).unwrap_err();
    assert!(f.close_stream);
    assert_eq!(f.reason, "End of stream encounter, closing stream.");
}

#[test]
fn reconnect_backoff() {
    let (mut s, a) = collector_start();
    assert_eq!(a, CollectorAction::Connect { wait_secs: 0 });
    let mut waits = vec![];
    for _ in 0..8 {
        let (s2, a) = collector_step(s, CollectorEvent::ConnectFailed);
        s = s2;
        match a {
            CollectorAction::Connect { wait_secs } => waits.push(wait_secs),
            other => panic!("unexpected {:?}", other),
        }
    }
    assert_eq!(waits, vec![1, 2, 4, 8, 16, 32, 32, 32]);
    assert_eq!(s, CollectorState { reconnect_delay: 32 });
    let (s, a) = collector_step(s, CollectorEvent::Connected);
    assert_eq!((s, a), (CollectorState { reconnect_delay: 0 }, CollectorAction::SendListenStart));
    let (s, a) = collector_step(s, CollectorEvent::ListenStartSent);
    assert_eq!(a, CollectorAction::Stream);
    let (s, a) = collector_step(s, CollectorEvent::StreamEnded);
    assert_eq!((s, a), (CollectorState { reconnect_delay: 0 }, CollectorAction::Connect { wait_secs: 0 }));
    let (s, a) = collector_step(s, CollectorEvent::Connected);
    assert_eq!(a, CollectorAction::SendListenStart);
    let (s, a) = collector_step(s, CollectorEvent::ListenStartFailed);
    assert_eq!((s, a), (CollectorState { reconnect_delay: 2 }, CollectorAction::Connect { wait_secs: 1 }));
}

#[test]
fn stream_events() {
    assert!(matches!(stream_action(StreamEvent::TimedOut), StreamAction::Stop));
    assert!(matches!(stream_action(StreamEvent::Ended), StreamAction::Stop));
    assert!(matches!(stream_action(StreamEvent::Close), StreamAction::Stop));
    assert!(matches!(stream_action(StreamEvent::ReceiveError), StreamAction::Skip));
    assert!(matches!(stream_action(StreamEvent::Other), StreamAction::Skip));
    match stream_action(StreamEvent::Text(b"{}".to_vec())) {
        StreamAction::Forward(m) => {
            assert_eq!(m.source, WFSource::WS);
            assert_eq!(m.message, b"{}".to_vec());
        }
        other => panic!("unexpected {:?}", other),
    }
}
