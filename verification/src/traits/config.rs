//! Loading the configuration of a context from a file of JSON.
//!
//! The file is read by the caller. The capability takes what the reading gave,
//! the bytes or the failure, and does the rest.

use vstd::prelude::*;
use crate::component::{DelegateComponent, HasProvider, IsProviderFor};
use crate::failure::{outcome, Cause, CauseView, Failure, FailureView, SourceError};
use crate::text::{joined, ToText};

verus! {

/// The context fixes what it takes for its configuration.
pub trait HasConfigType {
    type Config: View;
}

/// The tag of the field that holds the path of the configuration file.
pub struct ConfigPath;

/// A file could not be read.
#[derive(Clone, Debug, PartialEq, Eq)]
pub struct FileError {
    pub message: String,
}

impl SourceError for FileError {
    open spec fn cause(&self) -> CauseView {
        CauseView::Io { message: self.message@ }
    }

    fn into_cause(self) -> (cause: Cause) {
        Cause::Io { message: self.message }
    }
}

/// What was being done with the configuration file when it failed.
#[derive(Clone, Copy, Debug, PartialEq, Eq, Structural)]
pub enum LoadJsonConfigAction {
    ReadFile,
    ParseFile,
}

/// The detail that loading attaches to a failure: the file, and what was
/// being done with it.
#[derive(Clone, Debug, PartialEq, Eq)]
pub struct ErrLoadJsonConfig {
    pub config_path: String,
    pub action: LoadJsonConfigAction,
}

/// The line of an [`ErrLoadJsonConfig`].
pub open spec fn load_detail(config_path: Seq<char>, action: LoadJsonConfigAction) -> Seq<char> {
    match action {
        LoadJsonConfigAction::ReadFile => "error when reading config file at path "@
            + config_path,
        LoadJsonConfigAction::ParseFile => "error when parsing JSON config file at path "@
            + config_path,
    }
}

impl ToText for ErrLoadJsonConfig {
    open spec fn text(&self) -> Seq<char> {
        load_detail(self.config_path@, self.action)
    }

    fn to_text(&self) -> (line: String) {
        match self.action {
            LoadJsonConfigAction::ReadFile => joined(
                "error when reading config file at path ",
                self.config_path.as_str(),
            ),
            LoadJsonConfigAction::ParseFile => joined(
                "error when parsing JSON config file at path ",
                self.config_path.as_str(),
            ),
        }
    }
}

/// What reading the file gave, as a mathematical value: the bytes, or the line
/// of the failure.
pub open spec fn read_view(read: Result<Vec<u8>, FileError>) -> Result<Seq<u8>, Seq<char>> {
    match read {
        Ok(bytes) => Ok(bytes@),
        Err(error) => Err(error.message@),
    }
}

/// The name of the capability to load the configuration.
pub struct ConfigLoaderComponent;

/// A context that loads its configuration.
pub trait CanLoadConfig: HasConfigType {
    /// What loading gives, for what reading the file gave.
    spec fn loaded(&self, read: Result<Seq<u8>, Seq<char>>) -> Result<
        <Self::Config as View>::V,
        FailureView,
    >;

    /// Loads the configuration from what reading the file gave.
    fn load_config(&self, read: Result<Vec<u8>, FileError>) -> (out: Result<Self::Config, Failure>)
        ensures
            outcome(out) == self.loaded(read_view(read)),
    ;
}

/// A provider that loads the configuration of contexts.
pub trait ConfigLoader<Context: HasConfigType>: IsProviderFor<ConfigLoaderComponent, Context> {
    /// What loading gives, for what reading the file gave.
    spec fn loaded(context: &Context, read: Result<Seq<u8>, Seq<char>>) -> Result<
        <Context::Config as View>::V,
        FailureView,
    >;

    /// Loads the configuration from what reading the file gave.
    fn load_config(context: &Context, read: Result<Vec<u8>, FileError>) -> (out: Result<
        Context::Config,
        Failure,
    >)
        ensures
            outcome(out) == Self::loaded(context, read_view(read)),
    ;
}

/// A context has the capability that its registry provides for it.
impl<Context> CanLoadConfig for Context where
    Context: HasProvider + HasConfigType,
    Context::Provider: ConfigLoader<Context>,
 {
    open spec fn loaded(&self, read: Result<Seq<u8>, Seq<char>>) -> Result<
        <Context::Config as View>::V,
        FailureView,
    > {
        <Context::Provider as ConfigLoader<Context>>::loaded(self, read)
    }

    fn load_config(&self, read: Result<Vec<u8>, FileError>) -> (out: Result<
        Context::Config,
        Failure,
    >) {
        Context::Provider::load_config(self, read)
    }
}

/// A registry that delegates the capability provides what its delegate provides.
impl<Context, Component> ConfigLoader<Context> for Component where
    Context: HasConfigType,
    Component: DelegateComponent<ConfigLoaderComponent> + IsProviderFor<
        ConfigLoaderComponent,
        Context,
    >,
    Component::Delegate: ConfigLoader<Context>,
 {
    open spec fn loaded(context: &Context, read: Result<Seq<u8>, Seq<char>>) -> Result<
        <Context::Config as View>::V,
        FailureView,
    > {
        <Component::Delegate as ConfigLoader<Context>>::loaded(context, read)
    }

    fn load_config(context: &Context, read: Result<Vec<u8>, FileError>) -> (out: Result<
        Context::Config,
        Failure,
    >) {
        Component::Delegate::load_config(context, read)
    }
}

} // verus!
