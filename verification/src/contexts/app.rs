//! The application that loads its configuration from a file of JSON.

use vstd::prelude::*;
use std::marker::PhantomData;
use serde_json::Value;
use crate::component::{
    CanUseComponent, DelegateComponent, HasField, HasProvider, IsProviderFor, UseDelegate,
};
use crate::failure::{raised, wrapped, CauseView, FailureKind, FailureView};
use crate::json::{json_from_bytes, no_members, object_value, Json};
use crate::providers::config::LoadJsonConfig;
use crate::providers::error::{RaiseFrom, WrapWithText};
use crate::schema::{put_string, string_member, FromJson, SchemaMismatch, ToJson};
use crate::traits::config::{
    CanLoadConfig, ConfigLoaderComponent, ConfigPath, ErrLoadJsonConfig, FileError, HasConfigType,
};
use crate::traits::error::{ErrorRaiserComponent, ErrorWrapperComponent};

verus! {

/// The application: where its configuration file is.
pub struct App {
    pub config_path: String,
}

/// The configuration of [`App`].
#[derive(Clone, Debug, PartialEq, Eq)]
pub struct AppConfig {
    pub secret: String,
}

/// An [`AppConfig`] as a mathematical value.
pub ghost struct AppConfigView {
    pub secret: Seq<char>,
}

impl View for AppConfig {
    type V = AppConfigView;

    open spec fn view(&self) -> AppConfigView {
        AppConfigView { secret: self.secret@ }
    }
}

impl ToJson for AppConfig {
    /// The object with the secret at `secret`.
    open spec fn encoded(value: AppConfigView) -> Json {
        Json::Object(Map::<Seq<char>, Json>::empty().insert("secret"@, Json::Text(value.secret)))
    }

    fn to_json(&self) -> (value: Value) {
        let mut members = no_members();
        put_string(&mut members, "secret", self.secret.as_str());
        object_value(members)
    }
}

impl FromJson for AppConfig {
    /// The configuration whose secret is the string at `secret`. Other members
    /// are passed over.
    open spec fn decoded(doc: Json) -> Result<AppConfigView, Seq<char>> {
        match doc.text_member("secret"@) {
            Some(secret) => Ok(AppConfigView { secret }),
            None => Err("secret"@),
        }
    }

    fn from_json(value: &Value) -> (out: Result<AppConfig, SchemaMismatch>) {
        match string_member(value, "secret") {
            Ok(secret) => Ok(AppConfig { secret }),
            Err(mismatch) => Err(mismatch),
        }
    }
}

impl HasField<ConfigPath> for App {
    type Field = String;

    open spec fn field(&self) -> String {
        self.config_path
    }

    fn get_field(&self, tag: PhantomData<ConfigPath>) -> (field: &String) {
        &self.config_path
    }
}

impl HasConfigType for App {
    type Config = AppConfig;
}

/// The registry of [`App`].
pub struct AppComponents;

/// The source errors that [`App`] raises, each with its raiser.
pub struct AppRaisers;

/// The details that [`App`] wraps with, each with its wrapper.
pub struct AppWrappers;

impl HasProvider for App {
    type Provider = AppComponents;
}

impl DelegateComponent<ConfigLoaderComponent> for AppComponents {
    type Delegate = LoadJsonConfig;
}

impl<Context> IsProviderFor<ConfigLoaderComponent, Context> for AppComponents where
    LoadJsonConfig: IsProviderFor<ConfigLoaderComponent, Context>,
 {
}

impl DelegateComponent<ErrorRaiserComponent> for AppComponents {
    type Delegate = UseDelegate<AppRaisers>;
}

impl<Context, Source> IsProviderFor<ErrorRaiserComponent, Context, Source> for AppComponents where
    UseDelegate<AppRaisers>: IsProviderFor<ErrorRaiserComponent, Context, Source>,
 {
}

impl DelegateComponent<ErrorWrapperComponent> for AppComponents {
    type Delegate = UseDelegate<AppWrappers>;
}

impl<Context, Detail> IsProviderFor<ErrorWrapperComponent, Context, Detail> for AppComponents where
    UseDelegate<AppWrappers>: IsProviderFor<ErrorWrapperComponent, Context, Detail>,
 {
}

impl DelegateComponent<FileError> for AppRaisers {
    type Delegate = RaiseFrom;
}

impl DelegateComponent<serde_json::Error> for AppRaisers {
    type Delegate = RaiseFrom;
}

impl DelegateComponent<SchemaMismatch> for AppRaisers {
    type Delegate = RaiseFrom;
}

impl DelegateComponent<ErrLoadJsonConfig> for AppWrappers {
    type Delegate = WrapWithText;
}

/// Holds where the registry of [`App`] is wired as it is meant to be.
pub trait CanUseApp: CanUseComponent<ConfigLoaderComponent> + CanUseComponent<
    ErrorRaiserComponent,
    FileError,
> + CanUseComponent<ErrorRaiserComponent, serde_json::Error> + CanUseComponent<
    ErrorRaiserComponent,
    SchemaMismatch,
> + CanUseComponent<ErrorWrapperComponent, ErrLoadJsonConfig> {
}

impl CanUseApp for App {
}

/// The document of a configuration stands for that configuration.
pub proof fn config_document_round_trip(config: AppConfigView)
    ensures
        AppConfig::decoded(AppConfig::encoded(config)) == Ok::<AppConfigView, Seq<char>>(config),
{
}

/// A file that holds the document of a configuration loads as that
/// configuration.
pub proof fn written_config_loads(app: App, config: AppConfigView, bytes: Seq<u8>)
    ensures
        json_from_bytes(bytes) == Ok::<Json, Seq<char>>(AppConfig::encoded(config))
            ==> app.loaded(Ok(bytes)) == Ok::<AppConfigView, FailureView>(config),
{
}

/// A file that cannot be read gives a transport failure: the failure of the
/// reading, whole, wrapped once, with the path of the file.
pub proof fn unreadable_config_is_transport_failure(app: App, message: Seq<char>)
    ensures
        app.loaded(Err(message)) == Err::<AppConfigView, FailureView>(
            wrapped(
                raised(CauseView::Io { message }),
                "error when reading config file at path "@ + app.config_path@,
            ),
        ),
        app.loaded(Err(message))->Err_0.kind() == FailureKind::Transport,
{
}

/// A file that holds no JSON gives a format failure: the error of the parser,
/// whole, wrapped once, with the path of the file. So does a file whose JSON
/// has not the shape of the configuration, with the member that is at fault.
pub proof fn malformed_config_is_format_failure(app: App, bytes: Seq<u8>)
    ensures
        json_from_bytes(bytes) matches Err(message) ==> app.loaded(Ok(bytes)) == Err::<
            AppConfigView,
            FailureView,
        >(
            wrapped(
                raised(CauseView::Json { message }),
                "error when parsing JSON config file at path "@ + app.config_path@,
            ),
        ),
        json_from_bytes(bytes) matches Ok(doc) && doc.text_member("secret"@) is None
            ==> app.loaded(Ok(bytes)) == Err::<AppConfigView, FailureView>(
            wrapped(
                raised(CauseView::Schema { field: "secret"@ }),
                "error when parsing JSON config file at path "@ + app.config_path@,
            ),
        ),
        app.loaded(Ok(bytes)) matches Err(failure) ==> failure.kind() == FailureKind::Format,
{
}

/// Loading is total: it gives the configuration that the file's document
/// stands for, or a transport or format failure with one annotation, and
/// nothing else.
pub proof fn loading_is_total(app: App, read: Result<Seq<u8>, Seq<char>>)
    ensures
        match app.loaded(read) {
            Ok(config) => read matches Ok(bytes) && json_from_bytes(bytes) matches Ok(doc)
                && AppConfig::decoded(doc) == Ok::<AppConfigView, Seq<char>>(config),
            Err(failure) => failure.annotations.len() == 1 && (failure.kind()
                == FailureKind::Transport <==> read is Err) && (failure.kind()
                == FailureKind::Format <==> read is Ok),
        },
{
}

} // verus!
