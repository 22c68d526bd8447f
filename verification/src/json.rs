//! The JSON values that ride along in messages untouched.
//!
//! `serde_json::Value` is opaque here: the library carries it, builds the few
//! shapes it needs through the functions below, and never looks inside.

use vstd::prelude::*;
use serde_json::Error as JsonError;
use std::io::Error as IoError;

verus! {

#[verifier::external_type_specification]
#[verifier::external_body]
pub struct ExJsonValue(serde_json::Value);

#[verifier::external_type_specification]
#[verifier::external_body]
#[verifier::reject_recursive_types(K)]
#[verifier::reject_recursive_types(V)]
pub struct ExJsonMap<K, V>(serde_json::Map<K, V>);

#[verifier::external_type_specification]
#[verifier::external_body]
pub struct ExJsonError(JsonError);

#[verifier::external_type_specification]
#[verifier::external_body]
pub struct ExIoError(IoError);

#[verifier::external_type_specification]
#[verifier::external_body]
pub struct ExPathBuf(std::path::PathBuf);

/// `_meta`: whatever either side wants to attach to a message. Read and
/// written untouched.
pub type Meta = serde_json::Map<String, serde_json::Value>;

/// The JSON string whose text is `s`.
pub uninterp spec fn json_string(s: Seq<char>) -> serde_json::Value;

/// The JSON object built from the given keys, each holding the given string.
pub uninterp spec fn json_string_object(entries: Seq<(Seq<char>, Seq<char>)>) -> serde_json::Value;

/// The JSON number `n`.
pub uninterp spec fn json_number(n: int) -> serde_json::Value;

/// The JSON object built from the given members.
pub uninterp spec fn json_object(members: Seq<(Seq<char>, serde_json::Value)>) -> serde_json::Value;

/// The compact JSON text of `v`.
pub uninterp spec fn json_text_of(v: serde_json::Value) -> Seq<char>;

/// Builds the JSON string `s` (`serde_json::Value::from(String)`, which is
/// `Value::String(s)`).
#[verifier::external_body]
pub(crate) fn string_value(s: String) -> (v: serde_json::Value)
    ensures
        v == json_string(s@),
{
    serde_json::Value::from(s)
}

/// Builds the JSON object whose members are `entries`, each value a JSON
/// string (`Value::Object` collected from `(String, Value::String)` pairs).
#[verifier::external_body]
pub(crate) fn string_object(entries: Vec<(String, String)>) -> (v: serde_json::Value)
    ensures
        v == json_string_object(entries@.map_values(|e: (String, String)| (e.0@, e.1@))),
{
    serde_json::Value::Object(
        entries.into_iter().map(|(k, s)| (k, serde_json::Value::String(s))).collect(),
    )
}

/// Builds the JSON number `n` (`serde_json::Value::from(i64)`).
#[verifier::external_body]
pub(crate) fn number_value(n: i64) -> (v: serde_json::Value)
    ensures
        v == json_number(n as int),
{
    serde_json::Value::from(n)
}

/// Builds the JSON object whose members are `members` (`Value::Object`
/// collected from the pairs).
#[verifier::external_body]
pub(crate) fn object_value(members: Vec<(String, serde_json::Value)>) -> (v: serde_json::Value)
    ensures
        v == json_object(members@.map_values(|e: (String, serde_json::Value)| (e.0@, e.1))),
{
    serde_json::Value::Object(members.into_iter().collect())
}

/// The compact JSON text of `v` (`Value`'s `Display`, through `to_string`).
#[verifier::external_body]
pub(crate) fn json_text(v: &serde_json::Value) -> (s: String)
    ensures
        s@ == json_text_of(*v),
{
    v.to_string()
}

/// Whether a JSON error wraps an I/O error (`serde_json::Error::is_io`, the
/// `Category::Io` errors).
pub uninterp spec fn json_error_wraps_io(e: JsonError) -> bool;

/// Whether a JSON error wraps an I/O error (`serde_json::Error::is_io`).
#[verifier::external_body]
pub(crate) fn wraps_io(e: &JsonError) -> (b: bool)
    ensures
        b == json_error_wraps_io(*e),
{
    e.is_io()
}

/// The message a JSON error that wraps no I/O error carries: what went
/// wrong, and where.
pub uninterp spec fn json_error_message(e: JsonError) -> Seq<char>;

/// The message a JSON error carries (`serde_json::Error`'s `Display`). For an
/// error of the syntax, data or end-of-input kind it is the error's own
/// description followed by the line and column it was found at, a function
/// of the error alone. An error that wraps an I/O error prints that I/O
/// error, which the operating system (or whatever was wrapped) words, so
/// nothing is stated of its text.
#[verifier::external_body]
pub(crate) fn json_error_text(e: &JsonError) -> (t: String)
    ensures
        !json_error_wraps_io(*e) ==> t@ == json_error_message(*e),
{
    e.to_string()
}

/// The message an I/O error carries (`std::io::Error`'s `Display`). For an
/// error the system reported, the operating system words it, so nothing is
/// stated of it.
#[verifier::external_body]
pub(crate) fn io_error_text(e: &IoError) -> String {
    e.to_string()
}

/// `Value::clone`: a deep copy, equal to what it copies.
pub assume_specification[ <serde_json::Value as Clone>::clone ](v: &serde_json::Value) -> (r: serde_json::Value)
    ensures
        r == *v,
;

/// `PathBuf::clone`: a copy of the same path.
pub assume_specification[ <std::path::PathBuf as Clone>::clone ](p: &std::path::PathBuf) -> (r: std::path::PathBuf)
    ensures
        r == *p,
;

/// `Map::clone`: a deep copy, equal to what it copies.
pub assume_specification[ <serde_json::Map<String, serde_json::Value> as Clone>::clone ](
    m: &serde_json::Map<String, serde_json::Value>,
) -> (r: serde_json::Map<String, serde_json::Value>)
    ensures
        r == *m,
;

/// A copy of an optional `_meta`, equal to it.
pub fn duplicate_meta(m: &Option<Meta>) -> (r: Option<Meta>)
    ensures
        r == *m,
{
    match m {
        Some(x) => Some(x.clone()),
        None => None,
    }
}

} // verus!
