//! JSON documents. Reading and writing them is the work of `serde_json`; this
//! module says what the library relies on, and nothing here is proved.
//!
//! A document is held as a `serde_json::Value`. What such a value holds is
//! spoken of as a [`Json`], and each function below states which call it
//! makes and what it takes that call to return.

use vstd::prelude::*;
use serde_json::Value;

verus! {

/// `serde_json::Value`, a JSON document in memory. Nothing is known of a value
/// but what the functions of this module say.
#[verifier::external_type_specification]
#[verifier::external_body]
pub struct ExValue(serde_json::Value);

/// `serde_json::Number`, a JSON number. The library never looks inside one.
#[verifier::external_type_specification]
#[verifier::external_body]
pub struct ExNumber(serde_json::Number);

/// `serde_json::Map`, the members of a JSON object, by key.
#[verifier::external_type_specification]
#[verifier::external_body]
#[verifier::reject_recursive_types(K)]
#[verifier::reject_recursive_types(V)]
pub struct ExMembers<K, V>(serde_json::Map<K, V>);

/// `serde_json::Error`, what reading or writing JSON fails with.
#[verifier::external_type_specification]
#[verifier::external_body]
pub struct ExJsonError(serde_json::Error);

/// A JSON document as a mathematical value, variant for variant what
/// `serde_json::Value` is.
pub ghost enum Json {
    Null,
    Bool(bool),
    Number(serde_json::Number),
    Text(Seq<char>),
    Array(Seq<Json>),
    Object(Map<Seq<char>, Json>),
}

impl Json {
    /// The member at `key`, where the document is an object that has one.
    pub open spec fn member(self, key: Seq<char>) -> Option<Json> {
        match self {
            Json::Object(members) => if members.contains_key(key) {
                Some(members[key])
            } else {
                None
            },
            _ => None,
        }
    }

    /// The text at `key`, where the document is an object whose member at
    /// `key` is a string.
    pub open spec fn text_member(self, key: Seq<char>) -> Option<Seq<char>> {
        match self.member(key) {
            Some(Json::Text(text)) => Some(text),
            _ => None,
        }
    }
}

/// The document that a `serde_json::Value` holds.
pub uninterp spec fn json_of(value: Value) -> Json;

/// The members that a `serde_json::Map` holds, each key with the document
/// stored at it.
pub uninterp spec fn json_members(members: serde_json::Map<String, Value>) -> Map<Seq<char>, Json>;

/// The line that `serde_json` writes for one of its errors.
pub uninterp spec fn json_error_message(error: serde_json::Error) -> Seq<char>;

/// What `serde_json::from_str` makes of a text: the document, or the line of
/// its error.
pub uninterp spec fn json_from_text(text: Seq<char>) -> Result<Json, Seq<char>>;

/// What `serde_json::from_slice` makes of bytes: the document, or the line of
/// its error.
pub uninterp spec fn json_from_bytes(bytes: Seq<u8>) -> Result<Json, Seq<char>>;

/// What `serde_json::to_string` writes for a document: the text, or the line
/// of its error.
pub uninterp spec fn json_to_text(doc: Json) -> Result<Seq<char>, Seq<char>>;

/// Calls `serde_json::from_str` for a `Value`. The outcome depends on the text
/// alone: the value holds the document named by [`json_from_text`], or the
/// error is the one whose line it names.
#[verifier::external_body]
pub(crate) fn parse_text(raw: &str) -> (out: Result<Value, serde_json::Error>)
    ensures
        match out {
            Ok(value) => json_from_text(raw@) == Ok::<Json, Seq<char>>(json_of(value)),
            Err(error) => json_from_text(raw@) == Err::<Json, Seq<char>>(
                json_error_message(error),
            ),
        },
{
    serde_json::from_str::<Value>(raw)
}

/// Calls `serde_json::from_slice` for a `Value`. The outcome depends on the
/// bytes alone, as named by [`json_from_bytes`].
#[verifier::external_body]
pub(crate) fn parse_bytes(raw: &[u8]) -> (out: Result<Value, serde_json::Error>)
    ensures
        match out {
            Ok(value) => json_from_bytes(raw@) == Ok::<Json, Seq<char>>(json_of(value)),
            Err(error) => json_from_bytes(raw@) == Err::<Json, Seq<char>>(
                json_error_message(error),
            ),
        },
{
    serde_json::from_slice::<Value>(raw)
}

/// Calls `serde_json::to_string` on a `Value`. The outcome depends on the
/// document alone, as named by [`json_to_text`].
#[verifier::external_body]
pub(crate) fn write_text(value: &Value) -> (out: Result<String, serde_json::Error>)
    ensures
        match out {
            Ok(text) => json_to_text(json_of(*value)) == Ok::<Seq<char>, Seq<char>>(text@),
            Err(error) => json_to_text(json_of(*value)) == Err::<Seq<char>, Seq<char>>(
                json_error_message(error),
            ),
        },
{
    serde_json::to_string(value)
}

/// Calls `Value::get` with a string key: the member at that key where the
/// value is an object that has one, and `None` for any other value or key.
#[verifier::external_body]
pub(crate) fn member<'a>(value: &'a Value, key: &str) -> (out: Option<&'a Value>)
    ensures
        match out {
            Some(found) => json_of(*value).member(key@) == Some(json_of(*found)),
            None => json_of(*value).member(key@) is None,
        },
{
    value.get(key)
}

/// Calls `Value::as_str`: the text where the value is a string, and `None`
/// for any other value.
#[verifier::external_body]
pub(crate) fn text_of<'a>(value: &'a Value) -> (out: Option<&'a str>)
    ensures
        match out {
            Some(text) => json_of(*value) == Json::Text(text@),
            None => !(json_of(*value) is Text),
        },
{
    value.as_str()
}

/// Makes a `Value::String`: the document is that text.
#[verifier::external_body]
pub(crate) fn text_value(text: String) -> (value: Value)
    ensures
        json_of(value) == Json::Text(text@),
{
    Value::String(text)
}

/// Makes a `Value::Object`: the document is the object of those members.
#[verifier::external_body]
pub(crate) fn object_value(members: serde_json::Map<String, Value>) -> (value: Value)
    ensures
        json_of(value) == Json::Object(json_members(members)),
{
    Value::Object(members)
}

/// Calls `Map::new`: no members.
#[verifier::external_body]
pub(crate) fn no_members() -> (members: serde_json::Map<String, Value>)
    ensures
        (json_members(members) == Map::<Seq<char>, Json>::empty()),
{
    serde_json::Map::new()
}

/// Calls `Map::insert`: the member at `key` is now `value`, whatever was there
/// before, and every other member is as it was. What was there before is
/// handed back.
#[verifier::external_body]
pub(crate) fn insert_member(
    members: &mut serde_json::Map<String, Value>,
    key: String,
    value: Value,
) -> (before: Option<Value>)
    ensures
        json_members(*final(members)) == json_members(*old(members)).insert(key@, json_of(value)),
        match before {
            Some(found) => json_members(*old(members)).contains_key(key@) && json_members(
                *old(members),
            )[key@] == json_of(found),
            None => !json_members(*old(members)).contains_key(key@),
        },
{
    members.insert(key, value)
}

/// Writes the line of a `serde_json::Error`, as its `Display` gives it.
#[verifier::external_body]
pub(crate) fn error_message(error: &serde_json::Error) -> (line: String)
    ensures
        line@ == json_error_message(*error),
{
    error.to_string()
}

} // verus!
