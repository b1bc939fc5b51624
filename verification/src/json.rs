//! JSON questions answered by `serde_json` on JSON text.

use vstd::prelude::*;

verus! {

/// Whether `serde_json` parses `text` as a JSON value.
pub uninterp spec fn json_parses(text: Seq<char>) -> bool;

/// The string stored under `key` in the JSON object `text`, when `text` parses
/// as an object holding a string there (`Value::get(key)` then `as_str`).
pub uninterp spec fn json_string_field(text: Seq<char>, key: Seq<char>) -> Option<Seq<char>>;

/// `serde_json`'s compact serialization of the value that `text` parses to.
pub uninterp spec fn json_compact(text: Seq<char>) -> Seq<char>;

/// Calls `serde_json::from_str::<serde_json::Value>` and reports whether it
/// succeeded; the answer is named `json_parses(text)`.
#[verifier::external_body]
pub fn json_is_valid(text: &str) -> (b: bool)
    ensures
        b == json_parses(text@),
{
    serde_json::from_str::<serde_json::Value>(text).is_ok()
}

/// Parses `text` with `serde_json` and reads the string field `key`
/// (`Value::get`, then `Value::as_str`). The result is named
/// `json_string_field`; it is `None` when `text` does not parse.
#[verifier::external_body]
pub fn json_str_field(text: &str, key: &str) -> (r: Option<String>)
    ensures
        match r {
            Some(s) => json_string_field(text@, key@) == Some(s@) && json_parses(text@),
            None => json_string_field(text@, key@) is None,
        },
{
    let value: serde_json::Value = serde_json::from_str(text).ok()?;
    value.get(key).and_then(serde_json::Value::as_str).map(|s| s.to_string())
}

/// Parses `text` with `serde_json` and writes the value back with `to_string`
/// (compact form). `None` when `text` does not parse; otherwise the text is
/// named `json_compact(text)`.
#[verifier::external_body]
pub fn json_compact_text(text: &str) -> (r: Option<String>)
    ensures
        match r {
            Some(s) => json_parses(text@) && s@ == json_compact(text@),
            None => !json_parses(text@),
        },
{
    let value: serde_json::Value = serde_json::from_str(text).ok()?;
    Some(value.to_string())
}


/// The unsigned integer stored under `key` in the JSON object `text`
/// (`Value::get(key)` then `as_u64`).
pub uninterp spec fn json_unsigned_field(text: Seq<char>, key: Seq<char>) -> Option<u64>;

/// Parses `text` with `serde_json` and reads the unsigned integer field `key`
/// (`Value::get`, then `Value::as_u64`). The result is named
/// `json_unsigned_field`; it is `None` when `text` does not parse, so a
/// field found means the text parsed.
#[verifier::external_body]
pub fn json_u64_field(text: &str, key: &str) -> (r: Option<u64>)
    ensures
        r == json_unsigned_field(text@, key@),
        r is Some ==> json_parses(text@),
{
    let value: serde_json::Value = serde_json::from_str(text).ok()?;
    value.get(key).and_then(serde_json::Value::as_u64)
}

} // verus!
