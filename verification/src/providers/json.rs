//! The providers that write a context as JSON text and read one from it.

use vstd::prelude::*;
use crate::component::IsProviderFor;
use crate::failure::{raised, CauseView, Failure, FailureView, SourceError};
use crate::json::{json_from_text, json_to_text, parse_text, write_text};
use crate::schema::{FromJson, ToJson};
use crate::traits::string::{
    StringFormatter, StringFormatterComponent, StringParser, StringParserComponent,
};

verus! {

/// Writes a context as the JSON text of its document.
pub struct FormatAsJsonString;

impl<Context> StringFormatter<Context> for FormatAsJsonString where Context: ToJson {
    /// The text that `serde_json` writes for the document of the context, or
    /// its error, raised.
    open spec fn formatted(context: &Context) -> Result<Seq<char>, FailureView> {
        match json_to_text(Context::encoded(context@)) {
            Ok(text) => Ok(text),
            Err(message) => Err(raised(CauseView::Json { message })),
        }
    }

    fn format_to_string(context: &Context) -> (out: Result<String, Failure>) {
        let value = context.to_json();
        match write_text(&value) {
            Ok(text) => Ok(text),
            Err(error) => Err(Failure::raise(error.into_cause())),
        }
    }
}

impl<Context> IsProviderFor<StringFormatterComponent, Context> for FormatAsJsonString where
    Context: ToJson,
 {
}

/// Reads a context from JSON text.
pub struct ParseFromJsonString;

impl<Context> StringParser<Context> for ParseFromJsonString where Context: FromJson {
    /// The value that the document of the text stands for. Where the text is
    /// no JSON the error of `serde_json` is raised, and where the document has
    /// not the shape of a context, a mismatch that names the member.
    open spec fn parsed(raw: Seq<char>) -> Result<Context::V, FailureView> {
        match json_from_text(raw) {
            Ok(doc) => match Context::decoded(doc) {
                Ok(context) => Ok(context),
                Err(field) => Err(raised(CauseView::Schema { field })),
            },
            Err(message) => Err(raised(CauseView::Json { message })),
        }
    }

    fn parse_from_string(raw: &str) -> (out: Result<Context, Failure>) {
        match parse_text(raw) {
            Ok(value) => match Context::from_json(&value) {
                Ok(context) => Ok(context),
                Err(mismatch) => Err(Failure::raise(mismatch.into_cause())),
            },
            Err(error) => Err(Failure::raise(error.into_cause())),
        }
    }
}

impl<Context> IsProviderFor<StringParserComponent, Context> for ParseFromJsonString where
    Context: FromJson,
 {
}

} // verus!
