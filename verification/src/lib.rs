//! Applications assembled from capabilities.
//!
//! A context is an application object. What it can do is not written into it:
//! each capability is a trait that the context has because its registry names
//! a provider for it, and a provider is written once, for every context that
//! meets its prerequisites. A capability that fails does so with one unified
//! error, into which any source error is raised by its type and to which
//! callers attach details.
//!
//! Every function of the library is verified: each capability says, as a
//! mathematical function of what it is given, what it returns or with which
//! failure it ends, and each provider is proved to do just that.

pub mod component;
pub mod contexts;
pub mod failure;
pub mod json;
pub mod providers;
pub mod schema;
pub mod store;
pub mod text;
pub mod traits;

pub use component::{CanUseComponent, DelegateComponent, HasProvider, IsProviderFor};
pub use contexts::person::{CanUsePerson, Person, PersonComponents};
pub use providers::json::{FormatAsJsonString, ParseFromJsonString};
pub use traits::string::{
    CanFormatToString, CanParseFromString, StringFormatter, StringFormatterComponent,
    StringParser, StringParserComponent,
};
