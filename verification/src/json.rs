//! JSON values as `serde_json` holds them, and the few questions that the
//! library asks of one.
//!
//! A `serde_json::Value` is opaque to the proofs. What its accessors return
//! is named by the functions below, and every contract that reads a value
//! speaks of those names.

use vstd::prelude::*;

verus! {

/// The JSON value of `serde_json`.
#[verifier::external_type_specification]
#[verifier::external_body]
pub struct ExJsonValue(serde_json::Value);

/// The error of `serde_json`: opaque here, only passed on.
#[verifier::external_type_specification]
#[verifier::external_body]
pub struct ExJsonError(serde_json::Error);

/// What `serde_json::to_string` returns for the text `s`: a JSON string,
/// quoted and escaped; nothing where it fails.
pub uninterp spec fn json_string_literal(s: Seq<char>) -> Option<Seq<char>>;

/// What `serde_json::to_string` returns for the value `v`: its JSON text,
/// without white space; nothing where it fails.
pub uninterp spec fn value_text(v: serde_json::Value) -> Option<Seq<char>>;

/// What `serde_json::from_str` reads out of `text`, if it is JSON.
pub uninterp spec fn parsed(text: Seq<char>) -> Option<serde_json::Value>;

/// What `Value::get` finds in `v` under the key `key`: the member of that
/// name if `v` is an object that has one.
pub uninterp spec fn member_of(v: serde_json::Value, key: Seq<char>) -> Option<serde_json::Value>;

/// What `Value::as_str` returns for `v`: its text if `v` is a string.
pub uninterp spec fn text_of(v: serde_json::Value) -> Option<Seq<char>>;

/// What `Value::as_array` returns for `v`: its items if `v` is an array.
pub uninterp spec fn items_of(v: serde_json::Value) -> Option<Seq<serde_json::Value>>;

/// What `Value::as_i64` returns for `v`: the integer it is, if it is one
/// that fits.
pub uninterp spec fn integer_of(v: serde_json::Value) -> Option<i64>;

/// Calls `serde_json::from_str` for a `Value`; names its result `parsed(text@)`.
#[verifier::external_body]
pub(crate) fn parse(text: &str) -> (r: Result<serde_json::Value, serde_json::Error>)
    ensures
        match r {
            Ok(v) => parsed(text@) == Some(v),
            Err(_) => parsed(text@) is None,
        },
{
    serde_json::from_str::<serde_json::Value>(text)
}

/// Calls `serde_json::to_string` on a string slice; names its result
/// `json_string_literal(text@)`.
#[verifier::external_body]
pub(crate) fn json_quote(text: &str) -> (r: Result<String, serde_json::Error>)
    ensures
        match r {
            Ok(s) => json_string_literal(text@) == Some(s@),
            Err(_) => json_string_literal(text@) is None,
        },
{
    serde_json::to_string(text)
}

/// Calls `serde_json::to_string` on a value; names its result
/// `value_text(*v)`.
#[verifier::external_body]
pub(crate) fn write_value(v: &serde_json::Value) -> (r: Result<String, serde_json::Error>)
    ensures
        match r {
            Ok(s) => value_text(*v) == Some(s@),
            Err(_) => value_text(*v) is None,
        },
{
    serde_json::to_string(v)
}

/// Calls `Value::from` on a string slice, which makes the JSON string of
/// that text.
#[verifier::external_body]
pub(crate) fn text_value(text: &str) -> (v: serde_json::Value)
    ensures
        text_of(v) == Some(text@),
{
    serde_json::Value::from(text)
}

/// Calls `to_string` on an error of `serde_json`: what the error says.
#[verifier::external_body]
pub(crate) fn error_text(e: &serde_json::Error) -> (s: String) {
    e.to_string()
}

/// Calls `Value::get` with a key; names its result `member_of(*v, key@)`.
#[verifier::external_body]
pub(crate) fn get_member<'a>(v: &'a serde_json::Value, key: &str) -> (r: Option<
    &'a serde_json::Value,
>)
    ensures
        match r {
            Some(m) => member_of(*v, key@) == Some(*m),
            None => member_of(*v, key@) is None,
        },
{
    v.get(key)
}

/// Calls `Value::as_str`; names its result `text_of(*v)`.
#[verifier::external_body]
pub(crate) fn as_text<'a>(v: &'a serde_json::Value) -> (r: Option<&'a str>)
    ensures
        match r {
            Some(s) => text_of(*v) == Some(s@),
            None => text_of(*v) is None,
        },
{
    v.as_str()
}

/// Calls `Value::as_array`; names its result `items_of(*v)`.
#[verifier::external_body]
pub(crate) fn as_items<'a>(v: &'a serde_json::Value) -> (r: Option<&'a Vec<serde_json::Value>>)
    ensures
        match r {
            Some(items) => items_of(*v) == Some(items@),
            None => items_of(*v) is None,
        },
{
    v.as_array()
}

/// Calls `Value::as_i64`; names its result `integer_of(*v)`.
#[verifier::external_body]
pub(crate) fn as_integer(v: &serde_json::Value) -> (r: Option<i64>)
    ensures
        r == integer_of(*v),
{
    v.as_i64()
}

/// The JSON text of an optional text: the quoted text, or `null` where
/// there is none; nothing where the text does not serialize.
pub open spec fn quoted_or_null(member: Option<Seq<char>>) -> Option<Seq<char>> {
    match member {
        Some(text) => json_string_literal(text),
        None => Some("null"@),
    }
}

/// The text of the member `key` of `v`, if `v` has that member and it is a string.
pub open spec fn member_text(v: serde_json::Value, key: Seq<char>) -> Option<Seq<char>> {
    match member_of(v, key) {
        Some(m) => text_of(m),
        None => None,
    }
}

/// `t`, unless it is nothing or empty.
pub open spec fn non_empty(t: Option<Seq<char>>) -> Option<Seq<char>> {
    match t {
        Some(s) => if s.len() > 0 {
            t
        } else {
            None
        },
        None => None,
    }
}

/// The text of a member of `v`, if it is a string that is not empty.
pub open spec fn text_field(v: serde_json::Value, key: Seq<char>) -> Option<Seq<char>> {
    non_empty(member_text(v, key))
}

/// The text of the member `key` of `v`, if it is a string that is not empty.
pub fn get_text<'a>(v: &'a serde_json::Value, key: &str) -> (r: Option<&'a str>)
    ensures
        match r {
            Some(s) => text_field(*v, key@) == Some(s@),
            None => text_field(*v, key@) is None,
        },
{
    match get_member(v, key) {
        Some(m) => match as_text(m) {
            Some(s) => if s.unicode_len() > 0 {
                Some(s)
            } else {
                None
            },
            None => None,
        },
        None => None,
    }
}

} // verus!
