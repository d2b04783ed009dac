//! JSON documents, as `serde_json` reads them. A document is kept as the
//! parser's own value; what it holds is read through the accessors below.

use vstd::prelude::*;

verus! {

/// `serde_json::Value`, a JSON document or a part of one. Nothing of its
/// inside is known here but what the accessors below say.
#[verifier::external_type_specification]
#[verifier::external_body]
pub struct ExValue(serde_json::Value);

/// `serde_json::Error`, the parser's report of bytes that are no document.
#[verifier::external_type_specification]
#[verifier::external_body]
pub struct ExError(serde_json::Error);

/// The document that the parser reads from `bytes`, if they are one.
pub uninterp spec fn json_document(bytes: Seq<u8>) -> Option<serde_json::Value>;

/// The member of an object under `key`; `None` where the value is no object
/// or has no such member.
pub uninterp spec fn json_member(value: serde_json::Value, key: Seq<char>) -> Option<
    serde_json::Value,
>;

/// The text of a string value; `None` for any other value.
pub uninterp spec fn json_text(value: serde_json::Value) -> Option<Seq<char>>;

/// The number held by a value that is a non-negative integer below 2^64;
/// `None` for any other value.
pub uninterp spec fn json_unsigned(value: serde_json::Value) -> Option<u64>;

/// The truth value of a boolean value; `None` for any other value.
pub uninterp spec fn json_flag(value: serde_json::Value) -> Option<bool>;

/// The elements of an array value, in order; `None` for any other value.
pub uninterp spec fn json_items(value: serde_json::Value) -> Option<Seq<serde_json::Value>>;

/// `serde_json::from_slice`, read as a `Value`. The parser's answer depends
/// on the bytes alone: it hands out the document, or an error where the
/// bytes are not one JSON document.
#[verifier::external_body]
pub(crate) fn parse(bytes: &[u8]) -> (r: Result<serde_json::Value, serde_json::Error>)
    ensures
        (match r {
            Ok(value) => json_document(bytes@) == Some(value),
            Err(_) => json_document(bytes@).is_none(),
        }),
{
    serde_json::from_slice(bytes)
}

/// `serde_json::Value::get` with a string key: the member of an object
/// under that key, and nothing for other values or a missing key.
#[verifier::external_body]
pub(crate) fn member<'a>(value: &'a serde_json::Value, key: &str) -> (r: Option<
    &'a serde_json::Value,
>)
    ensures
        (match r {
            Some(found) => json_member(*value, key@) == Some(*found),
            None => json_member(*value, key@).is_none(),
        }),
{
    value.get(key)
}

/// `serde_json::Value::as_str`: the text of a string value.
#[verifier::external_body]
pub(crate) fn as_text<'a>(value: &'a serde_json::Value) -> (r: Option<&'a str>)
    ensures
        (match r {
            Some(text) => json_text(*value) == Some(text@),
            None => json_text(*value).is_none(),
        }),
{
    value.as_str()
}

/// `serde_json::Value::as_u64`: the number of a value that is a
/// non-negative integer.
#[verifier::external_body]
pub(crate) fn as_unsigned(value: &serde_json::Value) -> (r: Option<u64>)
    ensures
        r == json_unsigned(*value),
{
    value.as_u64()
}

/// `serde_json::Value::as_bool`: the truth value of a boolean value.
#[verifier::external_body]
pub(crate) fn as_flag(value: &serde_json::Value) -> (r: Option<bool>)
    ensures
        r == json_flag(*value),
{
    value.as_bool()
}

/// `serde_json::Value::as_array`: the elements of an array value.
#[verifier::external_body]
pub(crate) fn as_items<'a>(value: &'a serde_json::Value) -> (r: Option<
    &'a Vec<serde_json::Value>,
>)
    ensures
        (match r {
            Some(items) => json_items(*value) == Some(items@),
            None => json_items(*value).is_none(),
        }),
{
    value.as_array()
}

/// The text of the string member under `key`.
pub open spec fn text_at(value: serde_json::Value, key: Seq<char>) -> Option<Seq<char>> {
    match json_member(value, key) {
        Some(found) => json_text(found),
        None => None,
    }
}

/// The count held by the member under `key`: a non-negative integer that
/// fits the machine's word.
pub open spec fn count_at(value: serde_json::Value, key: Seq<char>) -> Option<usize> {
    match json_member(value, key) {
        Some(found) => match json_unsigned(found) {
            Some(n) => if n <= usize::MAX {
                Some(n as usize)
            } else {
                None
            },
            None => None,
        },
        None => None,
    }
}

/// The truth value of the boolean member under `key`.
pub open spec fn flag_at(value: serde_json::Value, key: Seq<char>) -> Option<bool> {
    match json_member(value, key) {
        Some(found) => json_flag(found),
        None => None,
    }
}

/// Reads the string member under `key`.
pub fn read_text(value: &serde_json::Value, key: &str) -> (r: Option<String>)
    ensures
        r.is_some() == text_at(*value, key@).is_some(),
        r matches Some(text) ==> text_at(*value, key@) == Some(text@),
{
    match member(value, key) {
        Some(found) => match as_text(found) {
            Some(text) => Some(text.to_owned()),
            None => None,
        },
        None => None,
    }
}

/// Reads the count under `key`.
pub fn read_count(value: &serde_json::Value, key: &str) -> (r: Option<usize>)
    ensures
        r == count_at(*value, key@),
{
    match member(value, key) {
        Some(found) => match as_unsigned(found) {
            Some(n) => if n <= usize::MAX as u64 {
                Some(n as usize)
            } else {
                None
            },
            None => None,
        },
        None => None,
    }
}

/// Reads the boolean member under `key`.
pub fn read_flag(value: &serde_json::Value, key: &str) -> (r: Option<bool>)
    ensures
        r == flag_at(*value, key@),
{
    match member(value, key) {
        Some(found) => as_flag(found),
        None => None,
    }
}

} // verus!
