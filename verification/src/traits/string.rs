//! Writing a context as a string, and reading one from a string.

use vstd::prelude::*;
use crate::component::{DelegateComponent, HasProvider, IsProviderFor};
use crate::failure::{outcome, Failure, FailureView};

verus! {

/// The name of the capability to write a context as a string.
pub struct StringFormatterComponent;

/// The name of the capability to read a context from a string.
pub struct StringParserComponent;

/// A context that can be written as a string.
pub trait CanFormatToString {
    /// What writing the context gives: the text, or the failure.
    spec fn formatted(&self) -> Result<Seq<char>, FailureView>;

    /// Writes the context as a string.
    fn format_to_string(&self) -> (out: Result<String, Failure>)
        ensures
            outcome(out) == self.formatted(),
    ;
}

/// A context that can be read from a string.
pub trait CanParseFromString: Sized + View {
    /// What reading `raw` gives: the context, or the failure.
    spec fn parsed(raw: Seq<char>) -> Result<Self::V, FailureView>;

    /// Reads a context from a string.
    fn parse_from_string(raw: &str) -> (out: Result<Self, Failure>)
        ensures
            outcome(out) == Self::parsed(raw@),
    ;
}

/// A provider that writes contexts as strings.
pub trait StringFormatter<Context>: IsProviderFor<StringFormatterComponent, Context> {
    /// What writing `context` gives: the text, or the failure.
    spec fn formatted(context: &Context) -> Result<Seq<char>, FailureView>;

    /// Writes `context` as a string.
    fn format_to_string(context: &Context) -> (out: Result<String, Failure>)
        ensures
            outcome(out) == Self::formatted(context),
    ;
}

/// A provider that reads contexts from strings.
pub trait StringParser<Context: View>: IsProviderFor<StringParserComponent, Context> {
    /// What reading `raw` gives: the context, or the failure.
    spec fn parsed(raw: Seq<char>) -> Result<Context::V, FailureView>;

    /// Reads a context from a string.
    fn parse_from_string(raw: &str) -> (out: Result<Context, Failure>)
        ensures
            outcome(out) == Self::parsed(raw@),
    ;
}

/// A context has the capability that its registry provides for it.
impl<Context> CanFormatToString for Context where
    Context: HasProvider,
    Context::Provider: StringFormatter<Context>,
 {
    open spec fn formatted(&self) -> Result<Seq<char>, FailureView> {
        <Context::Provider as StringFormatter<Context>>::formatted(self)
    }

    fn format_to_string(&self) -> (out: Result<String, Failure>) {
        Context::Provider::format_to_string(self)
    }
}

/// A context has the capability that its registry provides for it.
impl<Context> CanParseFromString for Context where
    Context: HasProvider + View,
    Context::Provider: StringParser<Context>,
 {
    open spec fn parsed(raw: Seq<char>) -> Result<Context::V, FailureView> {
        <Context::Provider as StringParser<Context>>::parsed(raw)
    }

    fn parse_from_string(raw: &str) -> (out: Result<Context, Failure>) {
        Context::Provider::parse_from_string(raw)
    }
}

/// A registry that delegates the capability provides what its delegate provides.
impl<Context, Component> StringFormatter<Context> for Component where
    Component: DelegateComponent<StringFormatterComponent> + IsProviderFor<
        StringFormatterComponent,
        Context,
    >,
    Component::Delegate: StringFormatter<Context>,
 {
    open spec fn formatted(context: &Context) -> Result<Seq<char>, FailureView> {
        <Component::Delegate as StringFormatter<Context>>::formatted(context)
    }

    fn format_to_string(context: &Context) -> (out: Result<String, Failure>) {
        Component::Delegate::format_to_string(context)
    }
}

/// A registry that delegates the capability provides what its delegate provides.
impl<Context, Component> StringParser<Context> for Component where
    Context: View,
    Component: DelegateComponent<StringParserComponent> + IsProviderFor<
        StringParserComponent,
        Context,
    >,
    Component::Delegate: StringParser<Context>,
 {
    open spec fn parsed(raw: Seq<char>) -> Result<Context::V, FailureView> {
        <Component::Delegate as StringParser<Context>>::parsed(raw)
    }

    fn parse_from_string(raw: &str) -> (out: Result<Context, Failure>) {
        Component::Delegate::parse_from_string(raw)
    }
}

} // verus!
