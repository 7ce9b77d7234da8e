//! The response normalizer: a backend reply is promised to be JSON, but a
//! model may not honour that. Parsing is attempted; text that does not
//! parse is wrapped in a one-entry object so the caller always receives
//! well-formed structured data - malformed model output is data, not a
//! fault.

use vstd::prelude::*;

verus! {

#[verifier::external_type_specification]
#[verifier::external_body]
pub struct ExValue(serde_json::Value);

/// What `serde_json::from_str::<Value>` yields for a text: the parsed value
/// when the text is valid JSON, nothing otherwise. Parsing depends on the
/// text alone.
pub uninterp spec fn parsed_json(s: Seq<char>) -> Option<serde_json::Value>;

/// The one-entry object that wraps a text under the key `raw`, as
/// `serde_json::Value::Object` builds it. It depends on the text alone.
pub uninterp spec fn raw_wrapped(s: Seq<char>) -> serde_json::Value;

/// Relies on `serde_json::from_str::<Value>`: parses a text as JSON, `None`
/// on any parse error.
#[verifier::external_body]
fn try_parse_json(s: &str) -> (r: Option<serde_json::Value>)
    ensures
        r == parsed_json(s@),
{
    serde_json::from_str(s).ok()
}

/// Relies on `serde_json::Map::insert` and `serde_json::Value`'s `String`
/// and `Object` constructors: builds the object whose single entry holds
/// the text under the key `raw`.
#[verifier::external_body]
fn wrap_raw_text(s: &str) -> (r: serde_json::Value)
    ensures
        r == raw_wrapped(s@),
{
    let mut entries = serde_json::Map::new();
    entries.insert("raw".to_string(), serde_json::Value::String(s.to_string()));
    serde_json::Value::Object(entries)
}

/// Normalizes a raw backend reply: text that parses as JSON comes back as
/// exactly the parsed value, and any other text comes back wrapped under
/// the key `raw`.
pub fn normalize(raw: &str) -> (r: serde_json::Value)
    ensures
        parsed_json(raw@) matches Some(v) ==> r == v,
        parsed_json(raw@) is None ==> r == raw_wrapped(raw@),
{
    match try_parse_json(raw) {
        Some(v) => v,
        None => wrap_raw_text(raw),
    }
}

} // verus!
