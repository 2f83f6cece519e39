//! Values that are read from and written to JSON documents. A type says which
//! document stands for a value of it, and which documents it accepts.

use vstd::prelude::*;
use serde_json::Value;
use crate::failure::{Cause, CauseView, SourceError};
use crate::json::{
    error_message, insert_member, json_error_message, json_members, json_of, member, text_of,
    text_value, Json,
};

verus! {

/// A document has not the shape that a type asks for: the member `field` is
/// missing, or it is no string.
#[derive(Clone, Debug, PartialEq, Eq)]
pub struct SchemaMismatch {
    pub field: String,
}

impl SourceError for SchemaMismatch {
    open spec fn cause(&self) -> CauseView {
        CauseView::Schema { field: self.field@ }
    }

    fn into_cause(self) -> (cause: Cause) {
        Cause::Schema { field: self.field }
    }
}

impl SourceError for serde_json::Error {
    open spec fn cause(&self) -> CauseView {
        CauseView::Json { message: json_error_message(*self) }
    }

    fn into_cause(self) -> (cause: Cause) {
        Cause::Json { message: error_message(&self) }
    }
}

/// A type whose values are read from JSON documents.
pub trait FromJson: Sized + View {
    /// The value that a document stands for, or the name of the first member
    /// that keeps it from standing for one.
    spec fn decoded(doc: Json) -> Result<Self::V, Seq<char>>;

    /// Reads a value from a document.
    fn from_json(value: &Value) -> (out: Result<Self, SchemaMismatch>)
        ensures
            match out {
                Ok(read) => Self::decoded(json_of(*value)) == Ok::<Self::V, Seq<char>>(read@),
                Err(mismatch) => Self::decoded(json_of(*value)) == Err::<Self::V, Seq<char>>(
                    mismatch.field@,
                ),
            },
    ;
}

/// A type whose values are written as JSON documents.
pub trait ToJson: View {
    /// The document that stands for a value.
    spec fn encoded(value: Self::V) -> Json;

    /// Writes a value as a document.
    fn to_json(&self) -> (value: Value)
        ensures
            json_of(value) == Self::encoded(self@),
    ;
}

/// Reads the string at the member `key` of an object.
///
/// Fails, naming `key`, where the document is no object, has no such member,
/// or holds something else than a string there.
pub fn string_member(value: &Value, key: &str) -> (out: Result<String, SchemaMismatch>)
    ensures
        match out {
            Ok(text) => json_of(*value).text_member(key@) == Some(text@),
            Err(mismatch) => json_of(*value).text_member(key@) is None && mismatch.field@ == key@,
        },
{
    match member(value, key) {
        Some(found) => match text_of(found) {
            Some(text) => Ok(String::from_str(text)),
            None => Err(SchemaMismatch { field: String::from_str(key) }),
        },
        None => Err(SchemaMismatch { field: String::from_str(key) }),
    }
}

/// Sets the member `key` of an object under construction to the string `text`.
pub fn put_string(members: &mut serde_json::Map<String, Value>, key: &str, text: &str)
    ensures
        json_members(*final(members)) == json_members(*old(members)).insert(
            key@,
            Json::Text(text@),
        ),
{
    let _ = insert_member(members, String::from_str(key), text_value(String::from_str(text)));
}

} // verus!
