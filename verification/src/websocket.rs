//! The WebSocket collector's decisions: the URLs and requests it sends, how it
//! reads the station's device list, how it judges the server's first answers,
//! how long it waits before reconnecting, and what it does with each frame.

use std::sync::atomic::{AtomicBool, Ordering};

use vstd::prelude::*;
use vstd::string::*;

use crate::common::{WFAuthMethod, WFMessage, WFSource, WsArgs};
use crate::json::{
    json_as_array, json_as_i64, json_as_u64, json_element, json_from_bytes, json_get, json_get_i64,
    json_get_u64, json_is_text, json_map_insert, json_map_new, json_member, json_object_text,
    json_string, json_text, json_u32, json_view, no_entries, parse_json_bytes, JsonModel,
};
use crate::text::{contains_run, decimal_seq, decimal_text, law_decimal_reads_back, numeral_value, same_text, seq_contains_run};

verus! {

/// Whether the WebSocket collector currently has a subscribed connection, as
/// another task last recorded it.
pub fn is_ws_connected(flag: &AtomicBool) -> bool {
    flag.load(Ordering::SeqCst)
}

/// Records whether the WebSocket collector has a subscribed connection.
pub fn set_ws_connected(flag: &AtomicBool, connected: bool) {
    flag.store(connected, Ordering::SeqCst);
}


/// The query that authenticates a request: `api_key=<key>` or `token=<token>`.
pub open spec fn auth_query_spec(m: WFAuthMethod) -> Seq<char> {
    match m {
        WFAuthMethod::ApiKey(k) => "api_key="@ + k@,
        WFAuthMethod::AuthToken(t) => "token="@ + t@,
    }
}

/// The query that authenticates a request.
pub fn auth_query(m: &WFAuthMethod) -> (r: String)
    ensures
        r@ == auth_query_spec(*m),
{
    match m {
        WFAuthMethod::ApiKey(k) => String::from_str("api_key=").concat(k.as_str()),
        WFAuthMethod::AuthToken(t) => String::from_str("token=").concat(t.as_str()),
    }
}

/// The REST address that lists a station and its devices.
pub open spec fn station_url_spec(station_id: u32, auth: Seq<char>) -> Seq<char> {
    "https://swd.weatherflow.com/swd/rest"@ + "/stations/"@ + decimal_seq(station_id as nat) + "?"@ + auth
}

/// The REST address that lists a station and its devices.
pub fn station_url(station_id: u32, auth: &str) -> (r: String)
    ensures
        r@ == station_url_spec(station_id, auth@),
{
    let mut r = String::from_str("https://swd.weatherflow.com/swd/rest");
    r.append("/stations/");
    let id = decimal_text(station_id as u64);
    r.append(id.as_str());
    r.append("?");
    r.append(auth);
    r
}

/// The address of the WebSocket service.
pub open spec fn websocket_url_spec(auth: Seq<char>) -> Seq<char> {
    "wss://ws.weatherflow.com/swd/data"@ + "?"@ + auth
}

/// The address of the WebSocket service.
pub fn websocket_url(auth: &str) -> (r: String)
    ensures
        r@ == websocket_url_spec(auth@),
{
    let mut r = String::from_str("wss://ws.weatherflow.com/swd/data");
    r.append("?");
    r.append(auth);
    r
}

/// Where the collector takes its device ids from.
#[derive(Debug)]
pub enum DeviceIdSource {
    /// Ask the REST service for the devices of this station, at `url`.
    Station { station_id: u32, url: String },
    /// Follow these devices.
    Listed(Vec<u32>),
}

/// What the collector needs before its first connection: the query that
/// authenticates it, and where its device ids come from.
#[derive(Debug)]
pub struct CollectorPlan {
    pub auth_query: String,
    pub source: DeviceIdSource,
}

/// Plans the collector's work: a station id, where given, is asked for its
/// devices; else the listed devices are followed.
pub fn collector_plan(ws_args: WsArgs) -> (plan: CollectorPlan)
    requires
        ws_args.station_id is Some || ws_args.device_ids is Some,
    ensures
        plan.auth_query@ == auth_query_spec(ws_args.auth_method),
        match ws_args.station_id {
            Some(id) => plan.source matches DeviceIdSource::Station { station_id, url }
                && station_id == id && url@ == station_url_spec(id, auth_query_spec(ws_args.auth_method)),
            None => plan.source == DeviceIdSource::Listed(ws_args.device_ids->0),
        },
{
    let auth = auth_query(&ws_args.auth_method);
    let source = match ws_args.station_id {
        Some(id) => DeviceIdSource::Station { station_id: id, url: station_url(id, auth.as_str()) },
        None => match ws_args.device_ids {
            Some(ids) => DeviceIdSource::Listed(ids),
            None => DeviceIdSource::Listed(Vec::new()),
        },
    };
    CollectorPlan { auth_query: auth, source }
}

/// The device id that one entry of a station's device list contributes: none
/// for the hub (`device_type` "HB") or where `device_id` is not a non-negative
/// integer, else that id truncated to 32 bits.
pub open spec fn device_id_of(d: JsonModel) -> Option<u32> {
    if json_is_text(json_member(d, "device_type"@), "HB"@) {
        None
    } else {
        match json_as_u64(json_member(d, "device_id"@)) {
            Some(n) => Some(n as u32),
            None => None,
        }
    }
}

/// The ids contributed by a list of devices, in order.
pub open spec fn collect_device_ids(ds: Seq<JsonModel>) -> Seq<u32>
    decreases ds.len(),
{
    if ds.len() == 0 {
        Seq::empty()
    } else {
        let prev = collect_device_ids(ds.drop_last());
        match device_id_of(ds.last()) {
            Some(id) => prev.push(id),
            None => prev,
        }
    }
}

/// The device ids in a station response: none unless `status.status_code`
/// is 0 and `stations[0].devices` is an array; else those of its entries.
pub open spec fn device_ids_spec(resp: JsonModel) -> Option<Seq<u32>> {
    if json_as_i64(json_member(json_member(resp, "status"@), "status_code"@)) != Some(0i64) {
        None
    } else {
        let devices = json_member(json_element(json_member(resp, "stations"@), 0), "devices"@);
        if devices is Array {
            Some(collect_device_ids(devices->Array_0))
        } else {
            None
        }
    }
}

/// The elements of an optional list.
pub open spec fn opt_ids(o: Option<Vec<u32>>) -> Option<Seq<u32>> {
    match o {
        Some(v) => Some(v@),
        None => None,
    }
}

fn device_id_from_entry(d: &serde_json::Value) -> (r: Option<u32>)
    ensures
        r == device_id_of(json_view(*d)),
{
    let is_hub = match json_get(d, "device_type") {
        Some(t) => match crate::json::json_as_str(t) {
            Some(s) => same_text(s, "HB"),
            None => false,
        },
        None => false,
    };
    if is_hub {
        return None;
    }
    match json_get(d, "device_id") {
        Some(v) => match json_get_u64(v) {
            Some(n) => Some(n as u32),
            None => None,
        },
        None => None,
    }
}

/// The device ids in a station response that has been read as JSON.
pub fn device_ids_from_response(resp: &serde_json::Value) -> (r: Option<Vec<u32>>)
    ensures
        opt_ids(r) == device_ids_spec(json_view(*resp)),
{
    let status_ok = match json_get(resp, "status") {
        Some(st) => match json_get(st, "status_code") {
            Some(code) => match json_get_i64(code) {
                Some(c) => c == 0,
                None => false,
            },
            None => false,
        },
        None => false,
    };
    if !status_ok {
        return None;
    }
    let stations = match json_get(resp, "stations") {
        Some(s) => s,
        None => return None,
    };
    let station_list = match json_as_array(stations) {
        Some(a) => a,
        None => return None,
    };
    if station_list.len() == 0 {
        return None;
    }
    let devices = match json_get(&station_list[0], "devices") {
        Some(d) => d,
        None => return None,
    };
    let entries = match json_as_array(devices) {
        Some(a) => a,
        None => return None,
    };
    let ghost items = json_view(*devices)->Array_0;
    let mut ids: Vec<u32> = Vec::new();
    let mut i: usize = 0;
    while i < entries.len()
        invariant
            i <= entries@.len(),
            entries@.len() == items.len(),
            forall|k: int| 0 <= k < entries@.len() ==> json_view(#[trigger] entries@[k]) == items[k],
            ids@ == collect_device_ids(items.take(i as int)),
        decreases entries@.len() - i,
    {
        assert(items.take(i + 1).drop_last() =~= items.take(i as int));
        match device_id_from_entry(&entries[i]) {
            Some(id) => ids.push(id),
            None => {},
        }
        i = i + 1;
    }
    assert(items.take(entries@.len() as int) =~= items);
    Some(ids)
}

/// The device ids in the body of a station response: none where the body is
/// not JSON.
pub fn device_ids_from_response_bytes(body: &[u8]) -> (r: Option<Vec<u32>>)
    ensures
        opt_ids(r) == match json_from_bytes(body@) {
            Some(j) => device_ids_spec(j),
            None => None,
        },
{
    match parse_json_bytes(body) {
        Some(resp) => device_ids_from_response(&resp),
        None => None,
    }
}


/// How the attempt to open the WebSocket ended.
#[derive(Debug, Clone, Copy, PartialEq, Eq, Structural)]
pub enum HandshakeOutcome {
    /// No response: the connection or the upgrade failed.
    Failed,
    /// The server answered with this HTTP status.
    Responded(u16),
}

/// A refused connection: why, and whether the stream must be closed.
#[derive(Debug)]
pub struct ConnectFailure {
    pub close_stream: bool,
    pub reason: String,
}

/// Judges the answer to the WebSocket upgrade: only status 101 goes on.
pub fn check_handshake(outcome: HandshakeOutcome) -> (r: Result<(), String>)
    ensures
        r is Ok <==> outcome == HandshakeOutcome::Responded(101),
        r matches Err(e) ==> e@ == (if outcome == HandshakeOutcome::Failed {
            "Error connecting to WebSocket server."@
        } else {
            "Unexpected response code received."@
        }),
{
    match outcome {
        HandshakeOutcome::Failed => Err(String::from_str("Error connecting to WebSocket server.")),
        HandshakeOutcome::Responded(code) => if code != 101 {
            Err(String::from_str("Unexpected response code received."))
        } else {
            Ok(())
        },
    }
}

/// The first thing read from a freshly opened WebSocket.
#[derive(Debug)]
pub enum OpeningMessage {
    /// A message, as text.
    Text(String),
    /// A message that cannot be read as text.
    Undecodable,
    /// A read error.
    ReadError,
    /// The end of the stream.
    EndOfStream,
}

/// Judges the server's first message: the connection is open only when it is
/// text that mentions `connection_opened`.
pub fn check_opening_message(first: &OpeningMessage) -> (r: Result<(), ConnectFailure>)
    ensures
        r is Ok <==> (first matches OpeningMessage::Text(t) && seq_contains_run(t@, "connection_opened"@)),
        r matches Err(f) ==> match *first {
            OpeningMessage::Text(_) => f.close_stream && f.reason@ == "WebSocket connection not successful."@,
            OpeningMessage::Undecodable => !f.close_stream && f.reason@ == "Error converting message into string."@,
            OpeningMessage::ReadError => f.close_stream && f.reason@ == "Error while reading next message."@,
            OpeningMessage::EndOfStream => f.close_stream && f.reason@ == "End of stream encounter, closing stream."@,
        },
{
    match first {
        OpeningMessage::Text(t) => if contains_run(t.as_str(), "connection_opened") {
            Ok(())
        } else {
            Err(ConnectFailure { close_stream: true, reason: String::from_str("WebSocket connection not successful.") })
        },
        OpeningMessage::Undecodable => Err(
            ConnectFailure { close_stream: false, reason: String::from_str("Error converting message into string.") },
        ),
        OpeningMessage::ReadError => Err(
            ConnectFailure { close_stream: true, reason: String::from_str("Error while reading next message.") },
        ),
        OpeningMessage::EndOfStream => Err(
            ConnectFailure { close_stream: true, reason: String::from_str("End of stream encounter, closing stream.") },
        ),
    }
}

/// The `listen_start` request for a device, as a JSON object.
pub open spec fn listen_start_model(device_id: u32, request_id: u64) -> JsonModel {
    JsonModel::Object(
        no_entries().insert("type"@, JsonModel::Text("listen_start"@)).insert(
            "device_id"@,
            JsonModel::Int(device_id as int),
        ).insert("id"@, JsonModel::Text(decimal_seq(request_id as nat))),
    )
}

/// The `listen_start` request that subscribes to a device's data; its `id`
/// is `request_id` written in decimal.
pub fn listen_start_request(device_id: u32, request_id: u64) -> (r: String)
    ensures
        r@ == json_text(listen_start_model(device_id, request_id)),
{
    let mut m = json_map_new();
    json_map_insert(&mut m, String::from_str("type"), json_string(String::from_str("listen_start")));
    json_map_insert(&mut m, String::from_str("device_id"), json_u32(device_id));
    json_map_insert(&mut m, String::from_str("id"), json_string(decimal_text(request_id)));
    json_object_text(m)
}

/// The error reported when a `listen_start` request could not be sent.
pub fn listen_start_failure() -> (r: String)
    ensures
        r@ == "Error sending listen_start request."@,
{
    String::from_str("Error sending listen_start request.")
}


/// The longest wait, in seconds, between reconnection attempts.
pub const MAX_RECONNECT_DELAY: u32 = 32;

/// The collector's state between steps: the delay, in seconds, to wait before
/// the next connection attempt (0 for none).
#[derive(Debug, Clone, Copy, PartialEq, Eq, Structural)]
pub struct CollectorState {
    pub reconnect_delay: u32,
}

/// What happened since the collector's last step.
#[derive(Debug, Clone, Copy, PartialEq, Eq, Structural)]
pub enum CollectorEvent {
    /// Opening the WebSocket failed.
    ConnectFailed,
    /// The WebSocket is open.
    Connected,
    /// A `listen_start` request could not be sent.
    ListenStartFailed,
    /// Every `listen_start` request was sent.
    ListenStartSent,
    /// The subscribed stream ended (closed, failed or timed out).
    StreamEnded,
}

/// What the collector does next.
#[derive(Debug, Clone, Copy, PartialEq, Eq, Structural)]
pub enum CollectorAction {
    /// Record that no subscription is live, wait `wait_secs` seconds (none for
    /// 0), then open the WebSocket.
    Connect { wait_secs: u32 },
    /// Send a `listen_start` request for every device.
    SendListenStart,
    /// Record that a subscription is live and forward the stream's messages.
    Stream,
}

/// The top of a connection attempt with delay `d`: the wait before it, and the
/// delay for the attempt after, doubled up to the maximum.
pub open spec fn attempt_with_delay(d: u32) -> (CollectorState, CollectorAction) {
    if d > 0 {
        (
            CollectorState { reconnect_delay: if d < 32 { (2 * d) as u32 } else { 32 } },
            CollectorAction::Connect { wait_secs: d },
        )
    } else {
        (CollectorState { reconnect_delay: 0 }, CollectorAction::Connect { wait_secs: 0 })
    }
}

/// The collector's step from `s` on event `e`.
pub open spec fn collector_step_spec(s: CollectorState, e: CollectorEvent) -> (CollectorState, CollectorAction) {
    match e {
        CollectorEvent::ConnectFailed => attempt_with_delay(
            if s.reconnect_delay == 0 { 1 } else { s.reconnect_delay },
        ),
        CollectorEvent::Connected => (CollectorState { reconnect_delay: 0 }, CollectorAction::SendListenStart),
        CollectorEvent::ListenStartFailed => attempt_with_delay(1),
        CollectorEvent::ListenStartSent => (s, CollectorAction::Stream),
        CollectorEvent::StreamEnded => attempt_with_delay(s.reconnect_delay),
    }
}

fn attempt(d: u32) -> (r: (CollectorState, CollectorAction))
    ensures
        r == attempt_with_delay(d),
{
    if d > 0 {
        let next = if d < MAX_RECONNECT_DELAY { d * 2 } else { MAX_RECONNECT_DELAY };
        (CollectorState { reconnect_delay: next }, CollectorAction::Connect { wait_secs: d })
    } else {
        (CollectorState { reconnect_delay: 0 }, CollectorAction::Connect { wait_secs: 0 })
    }
}

/// The collector's first step: connect at once.
pub fn collector_start() -> (r: (CollectorState, CollectorAction))
    ensures
        r == (CollectorState { reconnect_delay: 0 }, CollectorAction::Connect { wait_secs: 0 }),
{
    attempt(0)
}

/// The collector's next state and action after event `e` in state `s`.
pub fn collector_step(s: CollectorState, e: CollectorEvent) -> (r: (CollectorState, CollectorAction))
    ensures
        r == collector_step_spec(s, e),
{
    match e {
        CollectorEvent::ConnectFailed => attempt(if s.reconnect_delay == 0 { 1 } else { s.reconnect_delay }),
        CollectorEvent::Connected => (CollectorState { reconnect_delay: 0 }, CollectorAction::SendListenStart),
        CollectorEvent::ListenStartFailed => attempt(1),
        CollectorEvent::ListenStartSent => (s, CollectorAction::Stream),
        CollectorEvent::StreamEnded => attempt(s.reconnect_delay),
    }
}

/// A delay the collector can hold: none, or a power of two up to the maximum.
pub open spec fn valid_delay(d: u32) -> bool {
    d == 0 || d == 1 || d == 2 || d == 4 || d == 8 || d == 16 || d == 32
}

/// Every state the collector reaches holds a valid delay, and it never waits
/// longer than the maximum before reconnecting.
pub proof fn law_delay_stays_bounded(s: CollectorState, e: CollectorEvent)
    requires
        valid_delay(s.reconnect_delay),
    ensures
        valid_delay(collector_step_spec(s, e).0.reconnect_delay),
        collector_step_spec(s, e).1 matches CollectorAction::Connect { wait_secs } ==> valid_delay(wait_secs)
            && wait_secs <= 32,
{
}

/// The state after starting and then failing to connect `k` times in a row.
pub open spec fn after_failures(k: nat) -> CollectorState
    decreases k,
{
    if k == 0 {
        CollectorState { reconnect_delay: 0 }
    } else {
        collector_step_spec(after_failures((k - 1) as nat), CollectorEvent::ConnectFailed).0
    }
}

/// `2^k` seconds, capped at the maximum delay.
pub open spec fn capped_backoff(k: nat) -> u32 {
    if k == 0 { 1 } else if k == 1 { 2 } else if k == 2 { 4 } else if k == 3 { 8 } else if k == 4 { 16 } else { 32 }
}

/// Consecutive failed connection attempts wait 1, 2, 4, 8, 16 and then 32
/// seconds: the `k`-th failure in a row after a start is followed by a wait of
/// `2^(k-1)` seconds, capped at 32.
pub proof fn law_backoff_doubles(k: nat)
    requires
        k >= 1,
    ensures
        collector_step_spec(after_failures((k - 1) as nat), CollectorEvent::ConnectFailed).1
            == (CollectorAction::Connect { wait_secs: capped_backoff((k - 1) as nat) }),
        after_failures(k).reconnect_delay == capped_backoff(k),
    decreases k,
{
    if k > 1 {
        law_backoff_doubles((k - 1) as nat);
    }
}

/// A successful connection resets the wait: after connecting, subscribing and
/// losing the stream, the collector reconnects at once.
pub proof fn law_success_resets_backoff(s: CollectorState)
    ensures
        ({
            let s1 = collector_step_spec(s, CollectorEvent::Connected).0;
            let s2 = collector_step_spec(s1, CollectorEvent::ListenStartSent).0;
            collector_step_spec(s2, CollectorEvent::StreamEnded).1 == (CollectorAction::Connect { wait_secs: 0 })
        }),
{
}

/// One frame, or the lack of one, read from the subscribed stream.
#[derive(Debug)]
pub enum StreamEvent {
    /// Nothing arrived within the receive timeout.
    TimedOut,
    /// The stream ended.
    Ended,
    /// A frame could not be received.
    ReceiveError,
    /// The server closed the connection.
    Close,
    /// A text frame, with its bytes.
    Text(Vec<u8>),
    /// Any other frame.
    Other,
}

/// What the collector does with a stream event.
#[derive(Debug)]
pub enum StreamAction {
    /// Leave the stream and reconnect.
    Stop,
    /// Wait for the next frame.
    Skip,
    /// Hand this message to the consumer.
    Forward(WFMessage),
}

/// A text frame is forwarded as a WebSocket message; a timeout, the end of the
/// stream or a close frame ends the stream; anything else is skipped.
pub fn stream_action(event: StreamEvent) -> (r: StreamAction)
    ensures
        match event {
            StreamEvent::TimedOut | StreamEvent::Ended | StreamEvent::Close => r is Stop,
            StreamEvent::ReceiveError | StreamEvent::Other => r is Skip,
            StreamEvent::Text(data) => r matches StreamAction::Forward(m) && m.source == WFSource::WS
                && m.message == data,
        },
{
    match event {
        StreamEvent::TimedOut => StreamAction::Stop,
        StreamEvent::Ended => StreamAction::Stop,
        StreamEvent::ReceiveError => StreamAction::Skip,
        StreamEvent::Close => StreamAction::Stop,
        StreamEvent::Text(data) => StreamAction::Forward(WFMessage { source: WFSource::WS, message: data }),
        StreamEvent::Other => StreamAction::Skip,
    }
}

/// A token is presented as `token=<token>` and an API key as
/// `api_key=<key>`, with the credential's characters unchanged.
pub proof fn law_auth_query_names_the_credential(m: WFAuthMethod)
    ensures
        m matches WFAuthMethod::AuthToken(t) ==> auth_query_spec(m) == "token="@ + t@,
        m matches WFAuthMethod::ApiKey(k) ==> auth_query_spec(m) == "api_key="@ + k@,
{
}

/// The `listen_start` request for device `d` is an object with exactly the
/// members `type`, `device_id` and `id`: its type is `listen_start`, its
/// `device_id` is `d` itself, and its `id` is a string of decimal digits that
/// reads back as the request id.
pub proof fn law_listen_start_fields(d: u32, r: u64)
    ensures
        listen_start_model(d, r) is Object,
        listen_start_model(d, r)->Object_0.dom() == set!["type"@, "device_id"@, "id"@],
        json_member(listen_start_model(d, r), "type"@) == JsonModel::Text("listen_start"@),
        json_member(listen_start_model(d, r), "device_id"@) == JsonModel::Int(d as int),
        json_member(listen_start_model(d, r), "id"@) is Text,
        numeral_value(json_member(listen_start_model(d, r), "id"@)->Text_0) == r as int,
{
    reveal_strlit("type");
    reveal_strlit("device_id");
    reveal_strlit("id");
    assert("type"@ != "device_id"@) by {
        assert("type"@.len() != "device_id"@.len());
    }
    assert("type"@ != "id"@) by {
        assert("type"@.len() != "id"@.len());
    }
    assert("device_id"@ != "id"@) by {
        assert("device_id"@.len() != "id"@.len());
    }
    law_decimal_reads_back(r as nat);
    assert(listen_start_model(d, r)->Object_0.dom() =~= set!["type"@, "device_id"@, "id"@]);
}

/// An entry that is not the hub and whose `device_id` is an integer `n` that
/// fits in 32 bits contributes exactly `n`; the hub never contributes.
pub proof fn law_device_id_kept(d: JsonModel, n: int)
    ensures
        json_member(d, "device_type"@) == JsonModel::Text("HB"@) ==> device_id_of(d) is None,
        !json_is_text(json_member(d, "device_type"@), "HB"@) && json_member(d, "device_id"@) == JsonModel::Int(n)
            && 0 <= n <= u32::MAX ==> device_id_of(d) is Some && device_id_of(d)->0 as int == n,
{
}

/// Where every entry of a device list is a non-hub device whose id `ns[i]`
/// fits in 32 bits, the ids read are exactly `ns`, in order.
pub proof fn law_device_ids_are_the_listed_ids(ds: Seq<JsonModel>, ns: Seq<int>)
    requires
        ds.len() == ns.len(),
        forall|i: int| 0 <= i < ds.len() ==> !json_is_text(json_member(#[trigger] ds[i], "device_type"@), "HB"@),
        forall|i: int| 0 <= i < ds.len() ==> json_member(#[trigger] ds[i], "device_id"@) == JsonModel::Int(ns[i]),
        forall|i: int| 0 <= i < ns.len() ==> 0 <= #[trigger] ns[i] <= u32::MAX,
    ensures
        collect_device_ids(ds).len() == ns.len(),
        forall|i: int| 0 <= i < ns.len() ==> collect_device_ids(ds)[i] as int == #[trigger] ns[i],
    decreases ds.len(),
{
    if ds.len() > 0 {
        let k = ds.len() - 1;
        assert(ds[k] == ds.last());
        assert(0 <= ns[k] <= u32::MAX);
        law_device_ids_are_the_listed_ids(ds.drop_last(), ns.drop_last());
        law_device_id_kept(ds.last(), ns[k]);
        let prev = collect_device_ids(ds.drop_last());
        assert forall|i: int| 0 <= i < ns.len() implies collect_device_ids(ds)[i] as int == #[trigger] ns[i] by {
            if i < k {
                assert(ns.drop_last()[i] == ns[i]);
                assert(collect_device_ids(ds)[i] == prev[i]);
            }
        }
    }
}

} // verus!
