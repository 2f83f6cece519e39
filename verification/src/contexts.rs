//! The contexts: each owns its data and names its registry.

pub mod api_client;
pub mod app;
pub mod mock_app;
pub mod person;

pub use api_client::{ApiClient, ApiClientComponents, ApiClientRaisers, CanUseApiClient};
pub use app::{App, AppComponents, AppConfig, AppConfigView, AppRaisers, AppWrappers, CanUseApp};
pub use mock_app::{AuthTokensStore, CanUseMockApp, CurrentTime, MockApp, MockAppComponents, MockAppRaisers};
pub use person::{CanUsePerson, Person, PersonComponents, PersonView};
