use std::sync::atomic::AtomicBool;

use weatherflow_mqtt::common::{WFMessage, WFSource};
use weatherflow_mqtt::messages::{
    get_hub_sn_from_msg, is_listed, join_topic, json_message_publications, message_publications,
    raw_message_publication,
};

fn json(text: &str) -> serde_json::Value {
    serde_json::from_str(text).unwrap()
}

fn pubs(text: &str, source: WFSource, ignored: &[&str], ws_connected: bool) -> Vec<(String, String)> {
    let ignored: Vec<String> = ignored.iter().map(|s| s.to_string()).collect();
    json_message_publications(text, &json(text), source, &ignored, "weatherflow", ws_connected)
}

fn pair(topic: &str, payload: &str) -> (String, String) {
    (topic.to_string(), payload.to_string())
}

const RAPID: &str = r#"{"serial_number":"ST-00000512","type":"rapid_wind","hub_sn":"HB-00013030","ob":[1588948614,0.27,144]}"#;
const HUB_STATUS: &str = r#"{"serial_number":"HB-00013030","type":"hub_status","firmware_revision":"35"}"#;
const OBS: &str = r#"{"serial_number":"ST-00000512","type":"obs_st","hub_sn":"HB-00013030","obs":[[1588948614,0.18]]}"#;
const STRIKE: &str = r#"{"serial_number":"AR-00004049","type":"evt_strike","hub_sn":"HB-00000001","evt":[1493322445,27,3848]}"#;
const PRECIP: &str = r#"{"serial_number":"SK-00008453","type":"evt_precip","hub_sn":"HB-00000001","evt":[1493322445]}"#;

#[test]
fn hub_serial_numbers() {
    assert_eq!(get_hub_sn_from_msg(&json(HUB_STATUS)), Some("HB-00013030"));
    assert_eq!(get_hub_sn_from_msg(&json(OBS)), Some("HB-00013030"));
    assert_eq!(get_hub_sn_from_msg(&json(r#"{"type":"obs_st"}"#)), None);
    assert_eq!(get_hub_sn_from_msg(&json(r#"{"type":"obs_st","hub_sn":5}"#)), None);
    assert_eq!(get_hub_sn_from_msg(&json(r#"{"type":"hub_status","hub_sn":"HB-1"}"#)), None);
    assert_eq!(get_hub_sn_from_msg(&json(r#"["hub_sn"]"#)), None);
    assert_eq!(get_hub_sn_from_msg(&json(r#"{"hub_sn":"HB-2"}"#)), Some("HB-2"));
}

#[test]
fn topics_and_raw_copies() {
    assert_eq!(join_topic("weatherflow", "HB-1"), "weatherflow/HB-1");
    assert_eq!(raw_message_publication("wf/HB-1", WFSource::UDP, "x"), pair("wf/HB-1/udp_raw", "x"));
    assert_eq!(raw_message_publication("wf/HB-1", WFSource::WS, "y"), pair("wf/HB-1/ws_raw", "y"));
}

#[test]
fn rapid_wind_is_published_under_rapid() {
    assert_eq!(
        pubs(RAPID, WFSource::UDP, &[], true),
        vec![pair("weatherflow/HB-00013030/udp_raw", RAPID), pair("weatherflow/HB-00013030/rapid", RAPID)]
    );
}

#[test]
fn status_messages_are_published_under_status() {
    assert_eq!(
        pubs(HUB_STATUS, WFSource::UDP, &[], false),
        vec![pair("weatherflow/HB-00013030/udp_raw", HUB_STATUS), pair("weatherflow/HB-00013030/status", HUB_STATUS)]
    );
    let device = r#"{"serial_number":"AR-1","type":"device_status","hub_sn":"HB-7"}"#;
    assert_eq!(
        pubs(device, WFSource::WS, &[], true),
        vec![pair("weatherflow/HB-7/ws_raw", device), pair("weatherflow/HB-7/status", device)]
    );
}

#[test]
fn udp_observations_give_way_to_the_websocket() {
    assert_eq!(pubs(OBS, WFSource::UDP, &[], true), vec![pair("weatherflow/HB-00013030/udp_raw", OBS)]);
    assert_eq!(
        pubs(OBS, WFSource::UDP, &[], false),
        vec![pair("weatherflow/HB-00013030/udp_raw", OBS), pair("weatherflow/HB-00013030/obs", OBS)]
    );
    assert_eq!(
        pubs(OBS, WFSource::WS, &[], true),
        vec![pair("weatherflow/HB-00013030/ws_raw", OBS), pair("weatherflow/HB-00013030/obs", OBS)]
    );
}

#[test]
fn strikes_follow_the_websocket_and_rain_follows_udp() {
    assert_eq!(pubs(STRIKE, WFSource::UDP, &[], true), vec![pair("weatherflow/HB-00000001/udp_raw", STRIKE)]);
    assert_eq!(
        pubs(STRIKE, WFSource::UDP, &[], false),
        vec![pair("weatherflow/HB-00000001/udp_raw", STRIKE), pair("weatherflow/HB-00000001/evt", STRIKE)]
    );
    assert_eq!(pubs(PRECIP, WFSource::WS, &[], false), vec![pair("weatherflow/HB-00000001/ws_raw", PRECIP)]);
    assert_eq!(
        pubs(PRECIP, WFSource::UDP, &[], true),
        vec![pair("weatherflow/HB-00000001/udp_raw", PRECIP), pair("weatherflow/HB-00000001/evt", PRECIP)]
    );
    let other = r#"{"type":"evt_other","hub_sn":"HB-3"}"#;
    assert_eq!(pubs(other, WFSource::UDP, &[], false), vec![pair("weatherflow/HB-3/udp_raw", other)]);
}

#[test]
fn unknown_types_get_only_the_raw_copy() {
    let summary = r#"{"type":"summary","hub_sn":"HB-3"}"#;
    assert_eq!(pubs(summary, WFSource::WS, &[], false), vec![pair("weatherflow/HB-3/ws_raw", summary)]);
}

#[test]
fn ignored_types_are_dropped() {
    let ack = r#"{"type":"ack","hub_sn":"HB-3"}"#;
    assert!(pubs(ack, WFSource::WS, &[], false).is_empty());
    let debug = r#"{"type":"device_debug","hub_sn":"HB-3"}"#;
    assert!(pubs(debug, WFSource::UDP, &[], false).is_empty());
    assert!(pubs(RAPID, WFSource::UDP, &["light_debug", "rapid_wind"], false).is_empty());
    assert_eq!(pubs(RAPID, WFSource::UDP, &["rapid"], false).len(), 2);
    let ignored = vec!["a".to_string(), "b".to_string()];
    assert!(is_listed(&ignored, "b"));
    assert!(!is_listed(&ignored, "c"));
}

#[test]
fn messages_without_type_or_hub_are_dropped() {
    assert!(pubs(r#"{"hub_sn":"HB-3"}"#, WFSource::UDP, &[], false).is_empty());
    assert!(pubs(r#"{"type":5,"hub_sn":"HB-3"}"#, WFSource::UDP, &[], false).is_empty());
    assert!(pubs(r#"{"type":"obs_st"}"#, WFSource::UDP, &[], false).is_empty());
    assert!(pubs(r#"[1,2,3]"#, WFSource::UDP, &[], false).is_empty());
    assert!(pubs(r#""obs_st""#, WFSource::UDP, &[], false).is_empty());
}

#[test]
fn received_messages_are_decoded_first() {
    let flag = AtomicBool::new(false);
    let ignored: Vec<String> = vec![];
    let msg = WFMessage { source: WFSource::UDP, message: OBS.as_bytes().to_vec() };
    assert_eq!(
        message_publications(&msg, &ignored, "wf", &flag),
        vec![pair("wf/HB-00013030/udp_raw", OBS), pair("wf/HB-00013030/obs", OBS)]
    );
    let connected = AtomicBool::new(true);
    assert_eq!(message_publications(&msg, &ignored, "wf", &connected), vec![pair("wf/HB-00013030/udp_raw", OBS)]);
    let bad_utf8 = WFMessage { source: WFSource::UDP, message: vec![0x7b, 0xff, 0x7d] };
    assert!(message_publications(&bad_utf8, &ignored, "wf", &flag).is_empty());
    let bad_json = WFMessage { source: WFSource::WS, message: b"{\"type\":".to_vec() };
    assert!(message_publications(&bad_json, &ignored, "wf", &flag).is_empty());
}

#[test]
fn publication_shape_on_examples() {
    for (text, source, connected) in [
        (RAPID, WFSource::UDP, true),
        (OBS, WFSource::WS, false),
        (PRECIP, WFSource::WS, true),
        (STRIKE, WFSource::UDP, true),
    ] {
        let p = pubs(text, source, &[], connected);
        assert!(p.len() <= 2 && !p.is_empty());
        assert!(p.iter().all(|(t, payload)| payload == text && t.starts_with("weatherflow/")));
        assert!(p[0].0.ends_with(if source == WFSource::UDP { "/udp_raw" } else { "/ws_raw" }));
    }
    assert_eq!(pubs(OBS, WFSource::WS, &[], true), pubs(OBS, WFSource::WS, &[], false));
    assert_eq!(pubs(STRIKE, WFSource::WS, &[], true), pubs(STRIKE, WFSource::WS, &[], false));
    assert_eq!(pubs(PRECIP, WFSource::WS, &[], true).len(), 1);
}
