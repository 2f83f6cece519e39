//! The capabilities. Each is a pair of traits: the one that a context has, and
//! the one that a provider implements for contexts.

pub mod api;
pub mod auth;
pub mod config;
pub mod error;
pub mod string;

pub use api::{
    ApiAuthToken, ApiBaseUrl, CanQueryMessage, ErrStatusCode, HttpResponse, MessageQuerier,
    MessageQuerierComponent, MessageRequest, TransportError,
};
pub use auth::{
    AuthTokenExpiryFetcher, AuthTokenExpiryFetcherComponent, AuthTokenValidator,
    AuthTokenValidatorComponent, CalendarTime, CanFetchAuthTokenExpiry, CanValidateAuthToken,
    CurrentTimeGetter, CurrentTimeGetterComponent, ErrAuthTokenHasExpired, ErrAuthTokenInvalid,
    HasAuthTokenType, HasCurrentTime, HasTimeType, Moment,
};
pub use config::{
    CanLoadConfig, ConfigLoader, ConfigLoaderComponent, ConfigPath, ErrLoadJsonConfig, FileError,
    HasConfigType, LoadJsonConfigAction,
};
pub use error::{
    CanRaiseError, CanWrapError, ErrorRaiser, ErrorRaiserComponent, ErrorWrapper,
    ErrorWrapperComponent,
};
pub use string::{
    CanFormatToString, CanParseFromString, StringFormatter, StringFormatterComponent,
    StringParser, StringParserComponent,
};
