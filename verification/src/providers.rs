//! The providers: what answers for a capability once a registry names it.

pub mod api;
pub mod auth;
pub mod config;
pub mod error;
pub mod json;

pub use api::{ApiMessageResponse, ReadMessageFromApi};
pub use auth::ValidateTokenIsNotExpired;
pub use config::LoadJsonConfig;
pub use error::{RaiseFrom, WrapWithText};
pub use json::{FormatAsJsonString, ParseFromJsonString};
