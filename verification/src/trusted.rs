//! The boundary to the outside crates.
//!
//! Parsing bytes into a tree and printing a tree back to bytes are done by
//! `serde_json`; reading and writing RFC 3339 timestamps is done by
//! `chrono`. Each call stands behind one small function whose contract names
//! what the call computes; everything on this side of these functions is
//! verified against those contracts.

use vstd::prelude::*;

use crate::tree::{wf, JsonModel, JsonValue};

verus! {

#[verifier::external_type_specification]
#[verifier::external_body]
pub struct ExValue(serde_json::Value);

/// The tree that one JSON document in these bytes parses to, or `None` when
/// the bytes hold no such document within this library's model.
pub uninterp spec fn parsed_doc(bytes: Seq<u8>) -> Option<JsonModel>;

/// The bytes that print a tree with this value.
pub uninterp spec fn printed_doc(m: JsonModel) -> Seq<u8>;

/// The instant an RFC 3339 date-and-time string names, in whole seconds
/// since the Unix epoch, or `None` when the string is not such a date.
pub uninterp spec fn rfc3339_epoch(s: Seq<char>) -> Option<i64>;

/// The RFC 3339 text of an instant given in whole seconds since the Unix
/// epoch.
pub uninterp spec fn rfc3339_text(t: i64) -> Seq<char>;

/// The first instant RFC 3339 can name: the start of year 0.
pub const TIME_MIN: i64 = -62167219200;

/// The last whole second RFC 3339 can name: the end of year 9999.
pub const TIME_MAX: i64 = 253402300799;

#[verifier::external_body]
fn tree_of_value(v: &serde_json::Value) -> Option<JsonValue> {
    match v {
        serde_json::Value::Null => Some(JsonValue::Null),
        serde_json::Value::Bool(b) => Some(JsonValue::Bool(*b)),
        serde_json::Value::Number(n) => n.as_i64().map(JsonValue::Int),
        serde_json::Value::String(s) => Some(JsonValue::Str(s.clone())),
        serde_json::Value::Array(a) => a.iter().map(tree_of_value).collect::<Option<Vec<
            JsonValue,
        >>>().map(JsonValue::Arr),
        serde_json::Value::Object(m) => m.iter().map(
            |(k, v)| tree_of_value(v).map(|t| (k.clone(), t)),
        ).collect::<Option<Vec<(String, JsonValue)>>>().map(JsonValue::Obj),
    }
}

#[verifier::external_body]
fn value_of_tree(t: &JsonValue) -> serde_json::Value {
    match t {
        JsonValue::Null => serde_json::Value::Null,
        JsonValue::Bool(b) => serde_json::Value::Bool(*b),
        JsonValue::Int(n) => serde_json::Value::Number(serde_json::Number::from(*n)),
        JsonValue::Str(s) => serde_json::Value::String(s.clone()),
        JsonValue::Arr(items) => serde_json::Value::Array(
            items.iter().map(value_of_tree).collect(),
        ),
        JsonValue::Obj(entries) => serde_json::Value::Object(
            entries.iter().map(|(k, v)| (k.clone(), value_of_tree(v))).collect(),
        ),
    }
}

/// Relies on `serde_json::from_slice`, with the `preserve_order` feature:
/// it parses exactly one JSON document from the bytes, keeps an object's
/// members in document order, and never repeats a key within an object. A
/// document holding a number that does not fit `i64` is outside this
/// library's model and is reported as unparsable, as malformed bytes are.
#[verifier::external_body]
pub(crate) fn parse_bytes(data: &[u8]) -> (r: Option<JsonValue>)
    ensures
        r matches Some(t) ==> parsed_doc(data@) == Some(t.deep_view()) && wf(t.deep_view()),
        r is None ==> parsed_doc(data@) is None,
{
    match serde_json::from_slice::<serde_json::Value>(data) {
        Ok(v) => tree_of_value(&v),
        Err(_) => None,
    }
}

/// Relies on `serde_json::to_vec`, with the `preserve_order` feature: it
/// prints one JSON document for a value, a function of that value alone,
/// keeping member order; parsing what it printed for a tree whose objects
/// repeat no key gives back an equal tree.
#[verifier::external_body]
pub(crate) fn write_json(t: &JsonValue) -> (r: Vec<u8>)
    ensures
        r@ == printed_doc(t.deep_view()),
        wf(t.deep_view()) ==> parsed_doc(r@) == Some(t.deep_view()),
{
    serde_json::to_vec(&value_of_tree(t)).unwrap_or(Vec::new())
}

/// Relies on `chrono::DateTime::parse_from_rfc3339` and `timestamp`: the
/// instant an RFC 3339 string names is a function of its characters alone.
#[verifier::external_body]
pub(crate) fn parse_rfc3339(s: &str) -> (r: Option<i64>)
    ensures
        r == rfc3339_epoch(s@),
{
    chrono::DateTime::<chrono::FixedOffset>::parse_from_rfc3339(s).ok().map(|d| d.timestamp())
}

/// Relies on `chrono::DateTime::from_timestamp` and `to_rfc3339`: every
/// instant between years 0 and 9999 has an RFC 3339 text, a function of the
/// instant alone, and that text names the same instant when parsed back.
#[verifier::external_body]
pub(crate) fn format_rfc3339(t: i64) -> (r: String)
    requires
        TIME_MIN <= t <= TIME_MAX,
    ensures
        r@ == rfc3339_text(t),
        rfc3339_epoch(r@) == Some(t),
{
    match chrono::DateTime::<chrono::Utc>::from_timestamp(t, 0) {
        Some(d) => d.to_rfc3339(),
        None => String::new(),
    }
}

} // verus!
