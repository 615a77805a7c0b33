//! Reading decoded JSON: the trusted accessors and the verified extraction of
//! required fields, of the `data` array and of the pagination cursor.

use vstd::prelude::*;
use vstd::string::*;
use serde_json::Value;
use crate::model::Failure;

verus! {

/// Trusted: `serde_json::Value`, a decoded JSON value. Nothing inside it is
/// visible here; it is read only through the accessors below.
#[verifier::external_type_specification]
#[verifier::external_body]
pub struct ExValue(serde_json::Value);

/// Trusted: `serde_json::Error`, the reason why a text is no JSON. It is
/// only carried from the parser to the message.
#[verifier::external_type_specification]
#[verifier::external_body]
pub struct ExJsonError(serde_json::Error);

/// The value that `serde_json::from_str` reads from `text`, or `None` where
/// it rejects the text.
pub uninterp spec fn json_parsed(text: Seq<char>) -> Option<Value>;

/// The member of `v` under `key`, as `Value::get` finds it with a string
/// index.
pub uninterp spec fn json_member(v: Value, key: Seq<char>) -> Option<Value>;

/// The text of `v`, as `Value::as_str` gives it.
pub uninterp spec fn json_string(v: Value) -> Option<Seq<char>>;

/// The integer of `v`, as `Value::as_i64` gives it.
pub uninterp spec fn json_integer(v: Value) -> Option<i64>;

/// The elements of `v`, as `Value::as_array` gives them.
pub uninterp spec fn json_items(v: Value) -> Option<Seq<Value>>;

/// The text that `Value`'s `Display` writes for `v`.
pub uninterp spec fn json_text(v: Value) -> Seq<char>;

/// Trusted: calls `serde_json::from_str::<Value>`. The contract only names
/// the value that comes back and says that an error stands for a rejected
/// text.
#[verifier::external_body]
fn parse_json(text: &str) -> (r: Result<Value, serde_json::Error>)
    ensures
        match r {
            Ok(v) => json_parsed(text@) == Some(v),
            Err(_) => json_parsed(text@) is None,
        },
{
    serde_json::from_str::<Value>(text)
}

/// Trusted: calls `to_string` on a `serde_json::Error`. Nothing is claimed of
/// the message.
#[verifier::external_body]
fn error_text(e: &serde_json::Error) -> (r: String) {
    e.to_string()
}

/// Trusted: calls `Value::get` with a string index. The contract only names
/// what comes back.
#[verifier::external_body]
fn member<'a>(v: &'a Value, key: &str) -> (r: Option<&'a Value>)
    ensures
        match r {
            Some(x) => json_member(*v, key@) == Some(*x),
            None => json_member(*v, key@) is None,
        },
{
    v.get(key)
}

/// Trusted: calls `Value::as_str`. The contract only names what comes back.
#[verifier::external_body]
fn string_of<'a>(v: &'a Value) -> (r: Option<&'a str>)
    ensures
        match r {
            Some(s) => json_string(*v) == Some(s@),
            None => json_string(*v) is None,
        },
{
    v.as_str()
}

/// Trusted: calls `Value::as_i64`. The contract only names what comes back.
#[verifier::external_body]
fn integer_of(v: &Value) -> (r: Option<i64>)
    ensures
        r == json_integer(*v),
{
    v.as_i64()
}

/// Trusted: calls `Value::as_array`. The contract only names what comes back.
#[verifier::external_body]
fn items_of<'a>(v: &'a Value) -> (r: Option<&'a Vec<Value>>)
    ensures
        match r {
            Some(a) => json_items(*v) == Some(a@),
            None => json_items(*v) is None,
        },
{
    v.as_array()
}

/// Trusted: calls `to_string` on a `Value`, which writes it through its
/// `Display` as compact JSON. The contract only names the text.
#[verifier::external_body]
fn text_form(v: &Value) -> (r: String)
    ensures
        r@ == json_text(*v),
{
    v.to_string()
}

/// The text under `key`, where `v` has a member of that name which is a
/// string.
pub open spec fn text_field(v: Value, key: Seq<char>) -> Option<Seq<char>> {
    match json_member(v, key) {
        Some(x) => json_string(x),
        None => None,
    }
}

/// The integer under `key`, where `v` has a member of that name which is an
/// integer that fits 64 bits with a sign.
pub open spec fn integer_field(v: Value, key: Seq<char>) -> Option<i64> {
    match json_member(v, key) {
        Some(x) => json_integer(x),
        None => None,
    }
}

/// The raw text of the member under `key`, empty where there is none.
pub open spec fn raw_field(v: Value, key: Seq<char>) -> Seq<char> {
    match json_member(v, key) {
        Some(x) => json_text(x),
        None => Seq::<char>::empty(),
    }
}

/// The elements of the `data` array of a response, where it has one.
pub open spec fn data_of(body: Value) -> Option<Seq<Value>> {
    match json_member(body, "data"@) {
        Some(x) => json_items(x),
        None => None,
    }
}

/// The cursor of the next page: the text under `pagination.cursor`, where it
/// is there, is a string and is not empty.
pub open spec fn cursor_of(body: Value) -> Option<Seq<char>> {
    match json_member(body, "pagination"@) {
        Some(p) => match text_field(p, "cursor"@) {
            Some(c) => if c.len() > 0 { Some(c) } else { None },
            None => None,
        },
        None => None,
    }
}

/// Decodes a response body. A text that is not JSON gives `Failure::Body`.
pub fn decode_body(text: &str) -> (r: Result<Value, Failure>)
    ensures
        match r {
            Ok(v) => json_parsed(text@) == Some(v),
            Err(f) => json_parsed(text@) is None && f is Body,
        },
{
    match parse_json(text) {
        Ok(v) => Ok(v),
        Err(e) => Err(Failure::Body { detail: error_text(&e) }),
    }
}

/// Reads the required string field `key` of `v`. Fails with
/// `Failure::Field`, naming the key, where the member is absent or no string.
pub fn required_text(v: &Value, key: &str) -> (r: Result<String, Failure>)
    ensures
        match r {
            Ok(s) => text_field(*v, key@) == Some(s@),
            Err(f) => text_field(*v, key@) is None && f.names_field(key@),
        },
{
    match member(v, key) {
        Some(x) => match string_of(x) {
            Some(s) => Ok(String::from_str(s)),
            None => Err(Failure::Field { key: String::from_str(key) }),
        },
        None => Err(Failure::Field { key: String::from_str(key) }),
    }
}

/// Reads the required integer field `key` of `v`. Fails with
/// `Failure::Field`, naming the key, where the member is absent or no
/// integer of 64 bits.
pub fn required_integer(v: &Value, key: &str) -> (r: Result<i64, Failure>)
    ensures
        match r {
            Ok(n) => integer_field(*v, key@) == Some(n),
            Err(f) => integer_field(*v, key@) is None && f.names_field(key@),
        },
{
    match member(v, key) {
        Some(x) => match integer_of(x) {
            Some(n) => Ok(n),
            None => Err(Failure::Field { key: String::from_str(key) }),
        },
        None => Err(Failure::Field { key: String::from_str(key) }),
    }
}

/// The member under `key` written back as JSON text, or the empty text where
/// `v` has no such member.
pub fn raw_text(v: &Value, key: &str) -> (r: String)
    ensures
        r@ == raw_field(*v, key@),
{
    match member(v, key) {
        Some(x) => text_form(x),
        None => String::new(),
    }
}

/// The elements of the `data` array of a response, or `None` where `data` is
/// absent or no array.
pub fn data_items<'a>(body: &'a Value) -> (r: Option<&'a Vec<Value>>)
    ensures
        match r {
            Some(a) => data_of(*body) == Some(a@),
            None => data_of(*body) is None,
        },
{
    match member(body, "data") {
        Some(x) => items_of(x),
        None => None,
    }
}

/// The cursor of the page after this one; `None` on the last page. An empty
/// cursor counts as none.
pub fn next_cursor(body: &Value) -> (r: Option<String>)
    ensures
        match r {
            Some(c) => cursor_of(*body) == Some(c@),
            None => cursor_of(*body) is None,
        },
{
    match member(body, "pagination") {
        Some(p) => match member(p, "cursor") {
            Some(c) => match string_of(c) {
                Some(s) => {
                    if s.unicode_len() > 0 {
                        Some(String::from_str(s))
                    } else {
                        None
                    }
                },
                None => None,
            },
            None => None,
        },
        None => None,
    }
}

} // verus!
