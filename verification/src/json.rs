//! The boundary to `serde_json`: a mathematical model of a JSON value, and the
//! few calls into the crate that the rest of the library builds on.
//!
//! Everything that is taken on trust about `serde_json` stands in this file.

use vstd::prelude::*;

verus! {

/// What a JSON value holds, as a mathematical tree.
pub enum Json {
    Null,
    Bool(bool),
    /// A number, by the text that `serde_json` prints for it.
    Number(Seq<char>),
    Text(Seq<char>),
    Array(Seq<Json>),
    Object(Map<Seq<char>, Json>),
}

impl Json {
    /// The value stored under `key`, if this is an object that has the key.
    pub open spec fn member(self, key: Seq<char>) -> Option<Json> {
        match self {
            Json::Object(fields) => if fields.contains_key(key) {
                Some(fields[key])
            } else {
                None
            },
            _ => None,
        }
    }

    /// The element at `index`, if this is an array that is long enough.
    pub open spec fn element(self, index: int) -> Option<Json> {
        match self {
            Json::Array(items) => if 0 <= index < items.len() {
                Some(items[index])
            } else {
                None
            },
            _ => None,
        }
    }

    /// The characters of this value, if it is a string.
    pub open spec fn text(self) -> Option<Seq<char>> {
        match self {
            Json::Text(chars) => Some(chars),
            _ => None,
        }
    }
}

#[verifier::external_type_specification]
#[verifier::external_body]
pub struct ExValue(serde_json::Value);

#[verifier::external_type_specification]
#[verifier::external_body]
pub struct ExJsonError(serde_json::Error);

/// The tree that a `serde_json::Value` holds.
pub uninterp spec fn json_content(value: serde_json::Value) -> Json;

/// What `serde_json::from_str` makes of a text: the tree of the value it
/// returns, or `None` where it reports an error.
pub uninterp spec fn parsed_json(text: Seq<char>) -> Option<Json>;

/// The content of an optional reference to a value.
pub open spec fn content_of(value: Option<&serde_json::Value>) -> Option<Json> {
    match value {
        Some(v) => Some(json_content(*v)),
        None => None,
    }
}

/// `serde_json::from_str::<Value>`. Trusted: whether the call succeeds, and
/// the tree of the value it returns, depend on the text alone.
#[verifier::external_body]
pub(crate) fn parse_value(text: &str) -> (parsed: Result<serde_json::Value, serde_json::Error>)
    ensures
        match parsed {
            Ok(value) => parsed_json(text@) == Some(json_content(value)),
            Err(_) => parsed_json(text@) is None,
        },
{
    serde_json::from_str::<serde_json::Value>(text)
}

/// `Value::get` with a string index. Trusted: it returns the value stored
/// under the key where the receiver is an object that has the key, and `None`
/// otherwise.
#[verifier::external_body]
pub(crate) fn value_member<'a>(value: &'a serde_json::Value, key: &str) -> (found: Option<
    &'a serde_json::Value,
>)
    ensures
        content_of(found) == json_content(*value).member(key@),
{
    value.get(key)
}

/// `Value::get` with a `usize` index. Trusted: it returns the element at the
/// index where the receiver is an array that is long enough, and `None`
/// otherwise.
#[verifier::external_body]
pub(crate) fn value_element<'a>(value: &'a serde_json::Value, index: usize) -> (found: Option<
    &'a serde_json::Value,
>)
    ensures
        content_of(found) == json_content(*value).element(index as int),
{
    value.get(index)
}

/// `Value::as_str`. Trusted: it returns the characters where the receiver is
/// a string, and `None` otherwise.
#[verifier::external_body]
pub(crate) fn value_as_str<'a>(value: &'a serde_json::Value) -> (found: Option<&'a str>)
    ensures
        match found {
            Some(s) => json_content(*value).text() == Some(s@),
            None => json_content(*value).text() is None,
        },
{
    value.as_str()
}

/// What decoding the body of one pushed message yields: the tree of the
/// payload, or `None` where the body is not well-formed.
pub open spec fn decoded(body: Seq<char>) -> Option<Json> {
    parsed_json(body)
}

/// Decodes the body of one pushed message into a structured payload.
///
/// Returns the payload exactly when the body is well-formed JSON; the tree it
/// holds is then the one that the body denotes.
pub fn decode(body: &str) -> (payload: Option<serde_json::Value>)
    ensures
        match payload {
            Some(value) => decoded(body@) == Some(json_content(value)),
            None => decoded(body@) is None,
        },
{
    match parse_value(body) {
        Ok(value) => Some(value),
        Err(_) => None,
    }
}

} // verus!
