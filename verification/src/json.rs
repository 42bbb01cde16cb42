//! JSON as this library reads and writes it. Parsing, lookups and rendering
//! are done by `serde_json`; its values are opaque to the verifier and are
//! described through [`JsonModel`].

use vstd::prelude::*;

verus! {

#[verifier::external_type_specification]
#[verifier::external_body]
pub struct ExJsonValue(serde_json::Value);

#[verifier::external_type_specification]
#[verifier::external_body]
#[verifier::reject_recursive_types(K)]
#[verifier::reject_recursive_types(V)]
pub struct ExJsonMap<K, V>(serde_json::Map<K, V>);

/// A JSON value as a mathematical object. Integers keep their value;
/// a floating-point number is kept by the bit pattern of its `f64`.
pub enum JsonModel {
    Null,
    Bool(bool),
    Int(int),
    Float(u64),
    Text(Seq<char>),
    Array(Seq<JsonModel>),
    Object(Map<Seq<char>, JsonModel>),
}

/// What a `serde_json::Value` holds, as a [`JsonModel`].
pub uninterp spec fn json_view(v: serde_json::Value) -> JsonModel;

/// The entries of a `serde_json::Map`, each value taken as a [`JsonModel`].
pub uninterp spec fn json_map_view(m: serde_json::Map<String, serde_json::Value>) -> Map<Seq<char>, JsonModel>;

/// The value that `serde_json::from_str` reads from `text`, or `None` where it fails.
pub uninterp spec fn json_from_text(text: Seq<char>) -> Option<JsonModel>;

/// The value that `serde_json::from_slice` reads from `bytes`, or `None` where it fails.
pub uninterp spec fn json_from_bytes(bytes: Seq<u8>) -> Option<JsonModel>;

/// The compact text that `serde_json` renders for a value.
pub uninterp spec fn json_text(v: JsonModel) -> Seq<char>;

/// The entries of an empty object.
pub open spec fn no_entries() -> Map<Seq<char>, JsonModel> {
    Map::empty()
}

/// `j` is an object with an entry under `key`.
pub open spec fn json_has_member(j: JsonModel, key: Seq<char>) -> bool {
    j is Object && j->Object_0.contains_key(key)
}

/// The entry of `j` under `key`, or `Null` where `j` has none; this is what
/// `value[key]` reads.
pub open spec fn json_member(j: JsonModel, key: Seq<char>) -> JsonModel {
    if json_has_member(j, key) {
        j->Object_0[key]
    } else {
        JsonModel::Null
    }
}

/// The element of `j` at position `i`, or `Null` where `j` is not an array
/// that long; this is what `value[i]` reads.
pub open spec fn json_element(j: JsonModel, i: int) -> JsonModel {
    if j is Array && 0 <= i < j->Array_0.len() {
        j->Array_0[i]
    } else {
        JsonModel::Null
    }
}

/// `j` is the string `s`.
pub open spec fn json_is_text(j: JsonModel, s: Seq<char>) -> bool {
    j is Text && j->Text_0 == s
}

/// What `as_u64` gives for `j`.
pub open spec fn json_as_u64(j: JsonModel) -> Option<u64> {
    match j {
        JsonModel::Int(n) => if 0 <= n <= u64::MAX { Some(n as u64) } else { None },
        _ => None,
    }
}

/// What `as_i64` gives for `j`.
pub open spec fn json_as_i64(j: JsonModel) -> Option<i64> {
    match j {
        JsonModel::Int(n) => if i64::MIN <= n <= i64::MAX { Some(n as i64) } else { None },
        _ => None,
    }
}

/// Calls `serde_json::from_str::<Value>`: the result is the value it reads
/// from `text`, named by [`json_from_text`]; a parse error becomes `None`.
#[verifier::external_body]
pub(crate) fn parse_json_text(text: &str) -> (r: Option<serde_json::Value>)
    ensures
        r is Some <==> json_from_text(text@) is Some,
        r matches Some(v) ==> json_view(v) == json_from_text(text@)->0,
{
    serde_json::from_str::<serde_json::Value>(text).ok()
}

/// Calls `serde_json::from_slice::<Value>`: the result is the value it reads
/// from `bytes`, named by [`json_from_bytes`]; a parse error becomes `None`.
#[verifier::external_body]
pub(crate) fn parse_json_bytes(bytes: &[u8]) -> (r: Option<serde_json::Value>)
    ensures
        r is Some <==> json_from_bytes(bytes@) is Some,
        r matches Some(v) ==> json_view(v) == json_from_bytes(bytes@)->0,
{
    serde_json::from_slice::<serde_json::Value>(bytes).ok()
}

/// Calls `Value::get` with a string key: an object's entry under `key`, and
/// `None` where the value is not an object or has no such entry.
#[verifier::external_body]
pub(crate) fn json_get<'a>(v: &'a serde_json::Value, key: &str) -> (r: Option<&'a serde_json::Value>)
    ensures
        r is Some <==> json_has_member(json_view(*v), key@),
        r matches Some(m) ==> json_view(*m) == json_member(json_view(*v), key@),
{
    v.get(key)
}

/// Calls `Value::as_str`: the string a `Value::String` holds, else `None`.
#[verifier::external_body]
pub(crate) fn json_as_str(v: &serde_json::Value) -> (r: Option<&str>)
    ensures
        r is Some <==> json_view(*v) is Text,
        r matches Some(s) ==> s@ == json_view(*v)->Text_0,
{
    v.as_str()
}

/// Calls `Value::as_u64`: a number that is a non-negative integer, else `None`.
#[verifier::external_body]
pub(crate) fn json_get_u64(v: &serde_json::Value) -> (r: Option<u64>)
    ensures
        r == json_as_u64(json_view(*v)),
{
    v.as_u64()
}

/// Calls `Value::as_i64`: a number that is an integer within `i64`, else `None`.
#[verifier::external_body]
pub(crate) fn json_get_i64(v: &serde_json::Value) -> (r: Option<i64>)
    ensures
        r == json_as_i64(json_view(*v)),
{
    v.as_i64()
}

/// Calls `Value::as_array`: the elements of a `Value::Array`, else `None`.
#[verifier::external_body]
pub(crate) fn json_as_array(v: &serde_json::Value) -> (r: Option<&Vec<serde_json::Value>>)
    ensures
        r is Some <==> json_view(*v) is Array,
        r matches Some(a) ==> a@.len() == json_view(*v)->Array_0.len() && forall|i: int|
            0 <= i < a@.len() ==> json_view(#[trigger] a@[i]) == json_view(*v)->Array_0[i],
{
    v.as_array()
}

/// Calls `Map::new`: an empty object.
#[verifier::external_body]
pub(crate) fn json_map_new() -> (m: serde_json::Map<String, serde_json::Value>)
    ensures
        json_map_view(m) == no_entries(),
{
    serde_json::Map::new()
}

/// Calls `Map::insert`: `key` now maps to `value`, replacing any earlier entry.
#[verifier::external_body]
pub(crate) fn json_map_insert(m: &mut serde_json::Map<String, serde_json::Value>, key: String, value: serde_json::Value)
    ensures
        json_map_view(*final(m)) == json_map_view(*old(m)).insert(key@, json_view(value)),
{
    m.insert(key, value);
}

/// Builds `Value::String(s)`.
#[verifier::external_body]
pub(crate) fn json_string(s: String) -> (v: serde_json::Value)
    ensures
        json_view(v) == JsonModel::Text(s@),
{
    serde_json::Value::String(s)
}

/// Calls `Value::from` on a `u32`: the number `n`.
#[verifier::external_body]
pub(crate) fn json_u32(n: u32) -> (v: serde_json::Value)
    ensures
        json_view(v) == JsonModel::Int(n as int),
{
    serde_json::Value::from(n)
}

/// Renders `Value::Object(m)` with `to_string`: its compact JSON text.
#[verifier::external_body]
pub(crate) fn json_object_text(m: serde_json::Map<String, serde_json::Value>) -> (s: String)
    ensures
        s@ == json_text(JsonModel::Object(json_map_view(m))),
{
    serde_json::Value::Object(m).to_string()
}

} // verus!
