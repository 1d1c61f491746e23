//! Reading JSON text through serde_json.
//!
//! Each read is named as a function of the text (and the keys) alone, so
//! that the decoders' contracts can say exactly what they return. A name
//! gives `None` (or `false`) when the text is not a JSON document or the
//! value is absent or of another type.
use vstd::prelude::*;

verus! {

#[verifier::external_type_specification]
#[verifier::external_body]
pub struct ExJsonError(serde_json::Error);

/// Whether `serde_json::from_str` reads the text as a JSON document.
pub uninterp spec fn json_parses(text: Seq<char>) -> bool;

/// The string under top-level key `key`.
pub uninterp spec fn json_str_at(text: Seq<char>, key: Seq<char>) -> Option<Seq<char>>;

/// Whether the value under top-level key `key` is an object.
pub uninterp spec fn json_is_object_at(text: Seq<char>, key: Seq<char>) -> bool;

/// The integer (fitting `i64`) under top-level key `key`.
pub uninterp spec fn json_int_at(text: Seq<char>, key: Seq<char>) -> Option<i64>;

/// The integer (fitting `i64`) under `key` inside the value under `outer`.
pub uninterp spec fn json_int_in(text: Seq<char>, outer: Seq<char>, key: Seq<char>) -> Option<i64>;

/// The number under top-level key `key`, as serde_json writes it.
pub uninterp spec fn json_number_text_at(text: Seq<char>, key: Seq<char>) -> Option<Seq<char>>;

/// The elements of the array under top-level key `key`, each as an integer
/// fitting `i64` or `None`.
pub uninterp spec fn json_int_list_at(text: Seq<char>, key: Seq<char>) -> Option<Seq<Option<i64>>>;

pub open spec fn opt_chars(v: Option<String>) -> Option<Seq<char>> {
    match v {
        Some(s) => Some(s@),
        None => None,
    }
}

/// Relies on `serde_json::from_str` into a `Value`: `Ok` when the text is a
/// JSON document, else why it is not; which of the two depends on the text
/// alone.
#[verifier::external_body]
pub(crate) fn parse_json(text: &str) -> (r: Result<(), serde_json::Error>)
    ensures
        r is Ok == json_parses(text@),
{
    serde_json::from_str::<serde_json::Value>(text).map(|_| ())
}

/// Relies on `Display` for `serde_json::Error`: a description of the failure.
#[verifier::external_body]
pub(crate) fn json_error_text(e: &serde_json::Error) -> String {
    e.to_string()
}

/// Relies on `serde_json::from_str`, `Value::get` and `Value::as_str`.
#[verifier::external_body]
pub(crate) fn str_at(text: &str, key: &str) -> (r: Option<String>)
    ensures
        opt_chars(r) == json_str_at(text@, key@),
{
    let v: serde_json::Value = serde_json::from_str(text).ok()?;
    v.get(key)?.as_str().map(|s| s.to_string())
}

/// Relies on `serde_json::from_str`, `Value::get` and `Value::is_object`.
#[verifier::external_body]
pub(crate) fn is_object_at(text: &str, key: &str) -> (r: bool)
    ensures
        r == json_is_object_at(text@, key@),
{
    let v: Option<serde_json::Value> = serde_json::from_str(text).ok();
    v.map_or(false, |v| v.get(key).map_or(false, |m| m.is_object()))
}

/// Relies on `serde_json::from_str`, `Value::get` and `Value::as_i64`.
#[verifier::external_body]
pub(crate) fn int_at(text: &str, key: &str) -> (r: Option<i64>)
    ensures
        r == json_int_at(text@, key@),
{
    let v: serde_json::Value = serde_json::from_str(text).ok()?;
    v.get(key)?.as_i64()
}

/// Relies on `serde_json::from_str`, `Value::get` (twice) and `Value::as_i64`.
#[verifier::external_body]
pub(crate) fn int_in(text: &str, outer: &str, key: &str) -> (r: Option<i64>)
    ensures
        r == json_int_in(text@, outer@, key@),
{
    let v: serde_json::Value = serde_json::from_str(text).ok()?;
    v.get(outer)?.get(key)?.as_i64()
}

/// Relies on `serde_json::from_str`, `Value::get`, `Value::as_number` and
/// `Display` for `Number`.
#[verifier::external_body]
pub(crate) fn number_text_at(text: &str, key: &str) -> (r: Option<String>)
    ensures
        opt_chars(r) == json_number_text_at(text@, key@),
{
    let v: serde_json::Value = serde_json::from_str(text).ok()?;
    v.get(key)?.as_number().map(|n| n.to_string())
}

/// Relies on `serde_json::from_str`, `Value::get`, `Value::as_array` and
/// `Value::as_i64` on each element.
#[verifier::external_body]
pub(crate) fn int_list_at(text: &str, key: &str) -> (r: Option<Vec<Option<i64>>>)
    ensures
        match r {
            Some(v) => json_int_list_at(text@, key@) == Some(v@),
            None => json_int_list_at(text@, key@) is None,
        },
{
    let v: serde_json::Value = serde_json::from_str(text).ok()?;
    Some(v.get(key)?.as_array()?.iter().map(|e| e.as_i64()).collect())
}

} // verus!
