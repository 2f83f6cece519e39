//! The provider that loads a configuration from a file of JSON.

use vstd::prelude::*;
use std::marker::PhantomData;
use crate::component::{HasField, IsProviderFor};
use crate::failure::{raised, wrapped, CauseView, Failure, FailureView};
use crate::json::{json_from_bytes, parse_bytes};
use crate::schema::{FromJson, SchemaMismatch};
use crate::traits::config::{
    load_detail, ConfigLoader, ConfigLoaderComponent, ConfigPath, ErrLoadJsonConfig, FileError,
    HasConfigType, LoadJsonConfigAction,
};
use crate::traits::error::{CanRaiseError, CanWrapError};

verus! {

/// Loads the configuration from the JSON that the file holds. Every failure
/// is raised and then wrapped with the path of the file and with what was
/// being done with it.
pub struct LoadJsonConfig;

impl<Context> ConfigLoader<Context> for LoadJsonConfig where
    Context: HasConfigType + HasField<ConfigPath, Field = String> + CanRaiseError<FileError>
        + CanRaiseError<serde_json::Error> + CanRaiseError<SchemaMismatch> + CanWrapError<
        ErrLoadJsonConfig,
    >,
    Context::Config: FromJson,
 {
    /// Where the file could not be read: the failure of the reading, wrapped
    /// as a failure to read. Where the bytes are no JSON, or the document has
    /// not the shape of the configuration: that failure, wrapped as a failure
    /// to parse. Else the configuration that the document stands for.
    open spec fn loaded(context: &Context, read: Result<Seq<u8>, Seq<char>>) -> Result<
        <Context::Config as View>::V,
        FailureView,
    > {
        let path = context.field()@;
        match read {
            Ok(bytes) => match json_from_bytes(bytes) {
                Ok(doc) => match <Context::Config as FromJson>::decoded(doc) {
                    Ok(config) => Ok(config),
                    Err(field) => Err(
                        wrapped(
                            raised(CauseView::Schema { field }),
                            load_detail(path, LoadJsonConfigAction::ParseFile),
                        ),
                    ),
                },
                Err(message) => Err(
                    wrapped(
                        raised(CauseView::Json { message }),
                        load_detail(path, LoadJsonConfigAction::ParseFile),
                    ),
                ),
            },
            Err(message) => Err(
                wrapped(
                    raised(CauseView::Io { message }),
                    load_detail(path, LoadJsonConfigAction::ReadFile),
                ),
            ),
        }
    }

    fn load_config(context: &Context, read: Result<Vec<u8>, FileError>) -> (out: Result<
        Context::Config,
        Failure,
    >) {
        let config_path = context.get_field(PhantomData);
        let bytes = match read {
            Ok(bytes) => bytes,
            Err(error) => {
                let detail = ErrLoadJsonConfig {
                    config_path: config_path.clone(),
                    action: LoadJsonConfigAction::ReadFile,
                };
                return Err(Context::wrap_error(Context::raise_error(error), detail));
            },
        };
        let value = match parse_bytes(bytes.as_slice()) {
            Ok(value) => value,
            Err(error) => {
                let detail = ErrLoadJsonConfig {
                    config_path: config_path.clone(),
                    action: LoadJsonConfigAction::ParseFile,
                };
                return Err(Context::wrap_error(Context::raise_error(error), detail));
            },
        };
        match <Context::Config as FromJson>::from_json(&value) {
            Ok(config) => Ok(config),
            Err(mismatch) => {
                let detail = ErrLoadJsonConfig {
                    config_path: config_path.clone(),
                    action: LoadJsonConfigAction::ParseFile,
                };
                Err(Context::wrap_error(Context::raise_error(mismatch), detail))
            },
        }
    }
}

impl<Context> IsProviderFor<ConfigLoaderComponent, Context> for LoadJsonConfig where
    Context: HasConfigType + HasField<ConfigPath, Field = String> + CanRaiseError<FileError>
        + CanRaiseError<serde_json::Error> + CanRaiseError<SchemaMismatch> + CanWrapError<
        ErrLoadJsonConfig,
    >,
    Context::Config: FromJson,
 {
}

} // verus!
