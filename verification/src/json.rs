//! JSON as `serde_json` reads and writes it.
//!
//! Documents stay `serde_json::Value`s; the library walks them through the
//! functions below. What each call returns is named here and taken on trust:
//! none of it is proved.

use vstd::prelude::*;

verus! {

/// `serde_json::Value`: a JSON document or a part of one. Nothing of its
/// inside is visible here; it is read through the functions below.
#[verifier::external_type_specification]
#[verifier::external_body]
pub struct ExJsonValue(serde_json::Value);

/// `serde_json::Error`: why a text is no JSON document. It is only told
/// apart from success.
#[verifier::external_type_specification]
#[verifier::external_body]
pub struct ExJsonError(serde_json::Error);

/// The JSON string literal, quotes included, that `serde_json` writes for a
/// text.
pub uninterp spec fn json_quoted(text: Seq<char>) -> Seq<char>;

/// The document that `serde_json::from_str` reads from a text, if it reads one.
pub uninterp spec fn json_parsed(text: Seq<char>) -> Option<serde_json::Value>;

/// The member that `Value::get` finds under a key.
pub uninterp spec fn json_member(value: serde_json::Value, key: Seq<char>) -> Option<
    serde_json::Value,
>;

/// The element that `Value::get` finds at a position.
pub uninterp spec fn json_element(value: serde_json::Value, index: nat) -> Option<
    serde_json::Value,
>;

/// The text that `Value::as_str` finds in a value.
pub uninterp spec fn json_string(value: serde_json::Value) -> Option<Seq<char>>;

/// `Display` of `serde_json::Value::String`: the compact JSON form of one
/// string. The result is a function of the text alone and is only named.
#[verifier::external_body]
pub(crate) fn quote_json(text: &str) -> (quoted: String)
    ensures
        quoted@ == json_quoted(text@),
{
    serde_json::Value::String(text.to_owned()).to_string()
}

/// `serde_json::from_str` for a `Value`: the document, or the parser's error.
/// Which texts parse, and to what, is only named.
#[verifier::external_body]
pub(crate) fn parse_json(text: &str) -> (parsed: Result<serde_json::Value, serde_json::Error>)
    ensures
        match parsed {
            Ok(value) => json_parsed(text@) == Some(value),
            Err(_) => json_parsed(text@) is None,
        },
{
    serde_json::from_str::<serde_json::Value>(text)
}

/// `Value::get` with a string index: the member of an object under `key`,
/// `None` for a missing key and for a value that is no object.
#[verifier::external_body]
pub(crate) fn member<'a>(value: &'a serde_json::Value, key: &str) -> (found: Option<
    &'a serde_json::Value,
>)
    ensures
        match found {
            Some(inner) => json_member(*value, key@) == Some(*inner),
            None => json_member(*value, key@) is None,
        },
{
    value.get(key)
}

/// `Value::get` with a number index: the element of an array at `index`,
/// `None` past the end and for a value that is no array.
#[verifier::external_body]
pub(crate) fn element<'a>(value: &'a serde_json::Value, index: usize) -> (found: Option<
    &'a serde_json::Value,
>)
    ensures
        match found {
            Some(inner) => json_element(*value, index as nat) == Some(*inner),
            None => json_element(*value, index as nat) is None,
        },
{
    value.get(index)
}

/// `Value::as_str`: the text of a string value, `None` for any other value.
#[verifier::external_body]
pub(crate) fn string_of<'a>(value: &'a serde_json::Value) -> (found: Option<&'a str>)
    ensures
        match found {
            Some(text) => json_string(*value) == Some(text@),
            None => json_string(*value) is None,
        },
{
    value.as_str()
}

} // verus!
