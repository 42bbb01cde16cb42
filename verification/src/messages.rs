//! What the message consumer publishes for each message a collector hands it.

use std::sync::atomic::AtomicBool;

use vstd::prelude::*;
use vstd::string::*;
use vstd::utf8::*;

use crate::common::{WFMessage, WFSource};
use crate::json::{json_as_str, json_from_text, json_get, json_is_text, json_member, json_view, parse_json_text, JsonModel};
use crate::text::{ends_with, same_text, seq_ends_with, seq_starts_with, starts_with};
use crate::websocket::is_ws_connected;

verus! {

/// `base/part`: a topic one level below `base`.
pub open spec fn topic_join(base: Seq<char>, part: Seq<char>) -> Seq<char> {
    base + "/"@ + part
}

/// The topic level under which a message is republished verbatim.
pub open spec fn raw_suffix(source: WFSource) -> Seq<char> {
    match source {
        WFSource::UDP => "udp_raw"@,
        WFSource::WS => "ws_raw"@,
    }
}

/// The `type` of a message, where it is a string.
pub open spec fn message_type_of(j: JsonModel) -> Option<Seq<char>> {
    let t = json_member(j, "type"@);
    if t is Text {
        Some(t->Text_0)
    } else {
        None
    }
}

/// The serial number of the hub that sent a message: `serial_number` in a
/// `hub_status` message, `hub_sn` in any other.
pub open spec fn hub_serial_of(j: JsonModel) -> Option<Seq<char>> {
    let key = if json_is_text(json_member(j, "type"@), "hub_status"@) {
        "serial_number"@
    } else {
        "hub_sn"@
    };
    let sn = json_member(j, key);
    if sn is Text {
        Some(sn->Text_0)
    } else {
        None
    }
}

/// Message types that are not published at all.
pub open spec fn is_ignored_type(t: Seq<char>, ignored: Seq<Seq<char>>) -> bool {
    seq_ends_with(t, "_debug"@) || t == "ack"@ || ignored.contains(t)
}

/// The topic level, below the hub's topic, under which a message of type `t`
/// is published besides its raw copy; `None` where it gets only the raw copy.
/// UDP observations and lightning strikes are left to the WebSocket while it is
/// connected; rain-start events are always taken from UDP.
pub open spec fn typed_suffix(t: Seq<char>, source: WFSource, ws_connected: bool) -> Option<Seq<char>> {
    if t == "rapid_wind"@ {
        Some("rapid"@)
    } else if seq_ends_with(t, "_status"@) {
        Some("status"@)
    } else if seq_starts_with(t, "obs_"@) {
        if ws_connected && source == WFSource::UDP {
            None
        } else {
            Some("obs"@)
        }
    } else if seq_starts_with(t, "evt_"@) {
        if t == "evt_strike"@ {
            if ws_connected && source == WFSource::UDP {
                None
            } else {
                Some("evt"@)
            }
        } else if t == "evt_precip"@ {
            if source == WFSource::WS {
                None
            } else {
                Some("evt"@)
            }
        } else {
            None
        }
    } else {
        None
    }
}

/// The (topic, payload) pairs published for a decoded message: none where it
/// has no string `type`, an ignored type, or no hub serial number; else its raw
/// copy under `base/<serial>/<raw suffix>`, then, for the types that have one,
/// a copy under `base/<serial>/<typed suffix>`.
pub open spec fn json_publications(
    text: Seq<char>,
    j: JsonModel,
    source: WFSource,
    ignored: Seq<Seq<char>>,
    base: Seq<char>,
    ws_connected: bool,
) -> Seq<(Seq<char>, Seq<char>)> {
    match message_type_of(j) {
        None => Seq::empty(),
        Some(t) => if is_ignored_type(t, ignored) {
            Seq::empty()
        } else {
            match hub_serial_of(j) {
                None => Seq::empty(),
                Some(sn) => {
                    let hub_topic = topic_join(base, sn);
                    let raw = seq![(topic_join(hub_topic, raw_suffix(source)), text)];
                    match typed_suffix(t, source, ws_connected) {
                        None => raw,
                        Some(sfx) => raw.push((topic_join(hub_topic, sfx), text)),
                    }
                }
            }
        },
    }
}

/// The (topic, payload) pairs published for a received message: none where its
/// bytes are not UTF-8 or its text is not JSON.
pub open spec fn message_publications_spec(
    bytes: Seq<u8>,
    source: WFSource,
    ignored: Seq<Seq<char>>,
    base: Seq<char>,
    ws_connected: bool,
) -> Seq<(Seq<char>, Seq<char>)> {
    if !valid_utf8(bytes) {
        Seq::empty()
    } else {
        let text = decode_utf8(bytes);
        match json_from_text(text) {
            None => Seq::empty(),
            Some(j) => json_publications(text, j, source, ignored, base, ws_connected),
        }
    }
}

/// The characters of each string in a list.
pub open spec fn texts_view(v: Seq<String>) -> Seq<Seq<char>> {
    v.map_values(|s: String| s@)
}

/// The characters of each topic and payload in a list of publications.
pub open spec fn publications_view(v: Seq<(String, String)>) -> Seq<(Seq<char>, Seq<char>)> {
    v.map_values(|p: (String, String)| (p.0@, p.1@))
}

/// The characters of an optional string.
pub open spec fn opt_text(o: Option<&str>) -> Option<Seq<char>> {
    match o {
        Some(s) => Some(s@),
        None => None,
    }
}

/// Calls `std::str::from_utf8`: the text that `bytes` encode, where they are
/// valid UTF-8, else `None`.
#[verifier::external_body]
fn utf8_text(bytes: &[u8]) -> (r: Option<&str>)
    ensures
        r is Some <==> valid_utf8(bytes@),
        r matches Some(s) ==> s@ == decode_utf8(bytes@),
{
    std::str::from_utf8(bytes).ok()
}

/// The serial number of the hub that sent a message.
pub fn get_hub_sn_from_msg(msg_obj: &serde_json::Value) -> (r: Option<&str>)
    ensures
        opt_text(r) == hub_serial_of(json_view(*msg_obj)),
{
    let is_hub_status = match json_get(msg_obj, "type") {
        Some(t) => match json_as_str(t) {
            Some(s) => same_text(s, "hub_status"),
            None => false,
        },
        None => false,
    };
    let key = if is_hub_status {
        "serial_number"
    } else {
        "hub_sn"
    };
    match json_get(msg_obj, key) {
        Some(v) => json_as_str(v),
        None => None,
    }
}

/// `base/part`.
pub fn join_topic(base: &str, part: &str) -> (r: String)
    ensures
        r@ == topic_join(base@, part@),
{
    let mut r = String::from_str(base);
    r.append("/");
    r.append(part);
    r
}

fn raw_suffix_text(source: WFSource) -> (r: &'static str)
    ensures
        r@ == raw_suffix(source),
{
    match source {
        WFSource::UDP => "udp_raw",
        WFSource::WS => "ws_raw",
    }
}

/// The publication of a message's raw text under the hub's topic.
pub fn raw_message_publication(topic_base: &str, msg_source: WFSource, msg_str: &str) -> (r: (String, String))
    ensures
        r.0@ == topic_join(topic_base@, raw_suffix(msg_source)),
        r.1@ == msg_str@,
{
    (join_topic(topic_base, raw_suffix_text(msg_source)), String::from_str(msg_str))
}

fn typed_suffix_text(t: &str, source: WFSource, ws_connected: bool) -> (r: Option<&'static str>)
    ensures
        opt_text(r) == typed_suffix(t@, source, ws_connected),
{
    if same_text(t, "rapid_wind") {
        Some("rapid")
    } else if ends_with(t, "_status") {
        Some("status")
    } else if starts_with(t, "obs_") {
        if ws_connected && source == WFSource::UDP {
            None
        } else {
            Some("obs")
        }
    } else if starts_with(t, "evt_") {
        if same_text(t, "evt_strike") {
            if ws_connected && source == WFSource::UDP {
                None
            } else {
                Some("evt")
            }
        } else if same_text(t, "evt_precip") {
            if source == WFSource::WS {
                None
            } else {
                Some("evt")
            }
        } else {
            None
        }
    } else {
        None
    }
}

/// Whether `t` is one of `list`.
pub fn is_listed(list: &Vec<String>, t: &str) -> (r: bool)
    ensures
        r == texts_view(list@).contains(t@),
{
    let mut i: usize = 0;
    while i < list.len()
        invariant
            i <= list@.len(),
            forall|k: int| 0 <= k < i ==> list@[k]@ != t@,
        decreases list@.len() - i,
    {
        if same_text(list[i].as_str(), t) {
            assert(texts_view(list@)[i as int] == t@);
            return true;
        }
        i = i + 1;
    }
    assert forall|k: int| 0 <= k < texts_view(list@).len() implies texts_view(list@)[k] != t@ by {
        assert(list@[k]@ != t@);
    }
    false
}

/// The publications for a message whose text is `msg_str` and whose JSON
/// reading is `msg_json`, given whether the WebSocket is connected.
pub fn json_message_publications(
    msg_str: &str,
    msg_json: &serde_json::Value,
    source: WFSource,
    ignored_msg_types: &Vec<String>,
    mqtt_topic_base: &str,
    ws_connected: bool,
) -> (r: Vec<(String, String)>)
    ensures
        publications_view(r@) == json_publications(
            msg_str@,
            json_view(*msg_json),
            source,
            texts_view(ignored_msg_types@),
            mqtt_topic_base@,
            ws_connected,
        ),
{
    let mut out: Vec<(String, String)> = Vec::new();
    let msg_type = match json_get(msg_json, "type") {
        Some(t) => match json_as_str(t) {
            Some(s) => s,
            None => {
                assert(publications_view(out@) =~= Seq::empty());
                return out;
            },
        },
        None => {
            assert(publications_view(out@) =~= Seq::empty());
            return out;
        },
    };
    if ends_with(msg_type, "_debug") || same_text(msg_type, "ack") || is_listed(ignored_msg_types, msg_type) {
        assert(publications_view(out@) =~= Seq::empty());
        return out;
    }
    let hub_sn = match get_hub_sn_from_msg(msg_json) {
        Some(sn) => sn,
        None => {
            assert(publications_view(out@) =~= Seq::empty());
            return out;
        },
    };
    let topic_base = join_topic(mqtt_topic_base, hub_sn);
    out.push(raw_message_publication(topic_base.as_str(), source, msg_str));
    match typed_suffix_text(msg_type, source, ws_connected) {
        Some(sfx) => {
            out.push((join_topic(topic_base.as_str(), sfx), String::from_str(msg_str)));
        },
        None => {},
    }
    assert(publications_view(out@) =~= json_publications(
        msg_str@,
        json_view(*msg_json),
        source,
        texts_view(ignored_msg_types@),
        mqtt_topic_base@,
        ws_connected,
    ));
    out
}

/// The publications for one received message. The WebSocket's connection
/// state is read from `ws_connected`, which another task sets; the result is
/// the one for the state that was read.
pub fn message_publications(
    msg: &WFMessage,
    ignored_msg_types: &Vec<String>,
    mqtt_topic_base: &str,
    ws_connected: &AtomicBool,
) -> (r: Vec<(String, String)>)
    ensures
        publications_view(r@) == message_publications_spec(
            msg.message@,
            msg.source,
            texts_view(ignored_msg_types@),
            mqtt_topic_base@,
            true,
        ) || publications_view(r@) == message_publications_spec(
            msg.message@,
            msg.source,
            texts_view(ignored_msg_types@),
            mqtt_topic_base@,
            false,
        ),
{
    let empty: Vec<(String, String)> = Vec::new();
    let msg_str = match utf8_text(msg.message.as_slice()) {
        Some(s) => s,
        None => {
            assert(publications_view(empty@) =~= Seq::empty());
            return empty;
        },
    };
    let msg_json = match parse_json_text(msg_str) {
        Some(j) => j,
        None => {
            assert(publications_view(empty@) =~= Seq::empty());
            return empty;
        },
    };
    let connected = is_ws_connected(ws_connected);
    json_message_publications(msg_str, &msg_json, msg.source, ignored_msg_types, mqtt_topic_base, connected)
}


/// Every message yields at most two publications, each carrying the
/// message text unchanged under a topic below `base`, and the first of them is
/// always the raw copy under the hub's topic.
pub proof fn law_publications_shape(
    text: Seq<char>,
    j: JsonModel,
    source: WFSource,
    ignored: Seq<Seq<char>>,
    base: Seq<char>,
    ws_connected: bool,
)
    ensures
        ({
            let p = json_publications(text, j, source, ignored, base, ws_connected);
            &&& p.len() <= 2
            &&& forall|i: int| 0 <= i < p.len() ==> (#[trigger] p[i]).1 == text
            &&& forall|i: int| 0 <= i < p.len() ==> seq_starts_with((#[trigger] p[i]).0, base + "/"@)
            &&& p.len() > 0 ==> hub_serial_of(j) is Some && p[0].0 == topic_join(
                topic_join(base, hub_serial_of(j)->0),
                raw_suffix(source),
            )
        }),
{
    let p = json_publications(text, j, source, ignored, base, ws_connected);
    if p.len() > 0 {
        let sn = hub_serial_of(j)->0;
        let prefix = base + "/"@;
        assert forall|i: int| 0 <= i < p.len() implies seq_starts_with((#[trigger] p[i]).0, prefix) by {
            let sfx = if i == 0 { raw_suffix(source) } else { typed_suffix(message_type_of(j)->0, source, ws_connected)->0 };
            assert(p[i].0 == prefix + (sn + "/"@ + sfx));
            assert(p[i].0.subrange(0, prefix.len() as int) =~= prefix);
        }
    }
}

/// A message whose type is ignored (listed, `ack`, or ending in `_debug`) is
/// not published at all.
pub proof fn law_ignored_types_are_dropped(
    text: Seq<char>,
    j: JsonModel,
    source: WFSource,
    ignored: Seq<Seq<char>>,
    base: Seq<char>,
    ws_connected: bool,
)
    requires
        message_type_of(j) is Some,
        is_ignored_type(message_type_of(j)->0, ignored),
    ensures
        json_publications(text, j, source, ignored, base, ws_connected).len() == 0,
{
}

/// What is published for a message that came over the WebSocket does not
/// depend on the WebSocket's connection state.
pub proof fn law_ws_messages_ignore_connection_state(
    text: Seq<char>,
    j: JsonModel,
    ignored: Seq<Seq<char>>,
    base: Seq<char>,
)
    ensures
        json_publications(text, j, WFSource::WS, ignored, base, true) == json_publications(
            text,
            j,
            WFSource::WS,
            ignored,
            base,
            false,
        ),
{
}

/// A rain-start event received over the WebSocket is published only as its
/// raw copy; the UDP copy of the event is the one published as an event.
pub proof fn law_ws_precip_only_raw(
    text: Seq<char>,
    j: JsonModel,
    ignored: Seq<Seq<char>>,
    base: Seq<char>,
    ws_connected: bool,
)
    requires
        message_type_of(j) == Some("evt_precip"@),
    ensures
        json_publications(text, j, WFSource::WS, ignored, base, ws_connected).len() <= 1,
{
    reveal_strlit("evt_precip");
    reveal_strlit("rapid_wind");
    reveal_strlit("_status");
    reveal_strlit("obs_");
    reveal_strlit("evt_");
    let t = message_type_of(j)->0;
    assert(t.len() == 10);
    assert(t[4] == 'p');
    assert(t.subrange(t.len() - 7, t.len() as int) != "_status"@) by {
        assert(t.subrange(t.len() - 7, t.len() as int)[1] == t[4]);
    }
    assert(t.subrange(0, 4) != "obs_"@) by {
        assert(t.subrange(0, 4)[0] == 'e');
    }
    assert(t.subrange(0, 4) =~= "evt_"@);
    assert(t != "rapid_wind"@) by {
        assert(t[0] != "rapid_wind"@[0]);
    }
    reveal_strlit("evt_strike");
    assert(t != "evt_strike"@) by {
        assert(t[4] != "evt_strike"@[4]);
    }
    assert(typed_suffix(t, WFSource::WS, ws_connected) is None);
}


/// While the WebSocket is connected, a UDP message is never published as an
/// observation, and a UDP lightning strike only as its raw copy.
pub proof fn law_udp_defers_to_connected_ws(t: Seq<char>)
    ensures
        typed_suffix(t, WFSource::UDP, true) != Some("obs"@),
        t == "evt_strike"@ ==> typed_suffix(t, WFSource::UDP, true) is None,
{
    reveal_strlit("obs");
    reveal_strlit("rapid");
    reveal_strlit("status");
    reveal_strlit("evt");
    assert("rapid"@ != "obs"@) by {
        assert("rapid"@.len() != "obs"@.len());
    }
    assert("status"@ != "obs"@) by {
        assert("status"@.len() != "obs"@.len());
    }
    assert("evt"@ != "obs"@) by {
        assert("evt"@[0] != "obs"@[0]);
    }
    if t == "evt_strike"@ {
        reveal_strlit("evt_strike");
        reveal_strlit("rapid_wind");
        reveal_strlit("_status");
        reveal_strlit("obs_");
        reveal_strlit("evt_");
        assert(t != "rapid_wind"@) by {
            assert(t[0] != "rapid_wind"@[0]);
        }
        assert(t.subrange(t.len() - 7, t.len() as int) != "_status"@) by {
            assert(t.subrange(t.len() - 7, t.len() as int)[3] == t[6]);
        }
        assert(t.subrange(0, 4) != "obs_"@) by {
            assert(t.subrange(0, 4)[0] == 'e');
        }
        assert(t.subrange(0, 4) =~= "evt_"@);
    }
}

/// A lightning strike from a hub is published twice: as its raw copy and as an
/// event under `<base>/<hub_sn>/evt`, whenever it did not arrive over UDP while
/// the WebSocket is connected (so always when it came over the WebSocket).
pub proof fn law_strike_published_as_event(
    text: Seq<char>,
    j: JsonModel,
    source: WFSource,
    ignored: Seq<Seq<char>>,
    base: Seq<char>,
    ws_connected: bool,
    sn: Seq<char>,
)
    requires
        json_member(j, "type"@) == JsonModel::Text("evt_strike"@),
        json_member(j, "hub_sn"@) == JsonModel::Text(sn),
        !ignored.contains("evt_strike"@),
        !(ws_connected && source == WFSource::UDP),
    ensures
        json_publications(text, j, source, ignored, base, ws_connected) == seq![
            (base + "/"@ + sn + "/"@ + (if source == WFSource::UDP { "udp_raw"@ } else { "ws_raw"@ }), text),
            (base + "/"@ + sn + "/"@ + "evt"@, text),
        ],
{
    reveal_strlit("evt_strike");
    reveal_strlit("hub_status");
    reveal_strlit("_debug");
    reveal_strlit("ack");
    reveal_strlit("rapid_wind");
    reveal_strlit("_status");
    reveal_strlit("obs_");
    reveal_strlit("evt_");
    let t: Seq<char> = "evt_strike"@;
    assert(t.len() == 10);
    assert(t.subrange(4, 10) != "_debug"@) by {
        assert(t.subrange(4, 10)[0] != "_debug"@[0]);
    }
    assert(t != "ack"@) by {
        assert(t.len() != "ack"@.len());
    }
    assert(t != "hub_status"@) by {
        assert(t[0] != "hub_status"@[0]);
    }
    assert(t != "rapid_wind"@) by {
        assert(t[0] != "rapid_wind"@[0]);
    }
    assert(t.subrange(3, 10) != "_status"@) by {
        assert(t.subrange(3, 10)[3] == t[6]);
    }
    assert(t.subrange(0, 4) != "obs_"@) by {
        assert(t.subrange(0, 4)[0] == 'e');
    }
    assert(t.subrange(0, 4) =~= "evt_"@);
    assert(!is_ignored_type(t, ignored));
    assert(hub_serial_of(j) == Some(sn));
    assert(typed_suffix(t, source, ws_connected) == Some("evt"@));
    assert(base + "/"@ + sn + "/"@ + raw_suffix(source) == topic_join(topic_join(base, sn), raw_suffix(source)));
}

} // verus!
