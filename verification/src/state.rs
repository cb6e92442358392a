//! The records that the registry keeps.

pub mod bindie;
pub mod global;
pub mod identity;
pub mod link;
pub mod provider;
pub mod provider_metadata;
pub mod validator;

pub use bindie::Bindie;
pub use global::Global;
pub use identity::Identity;
pub use link::Link;
pub use provider::Provider;
pub use provider_metadata::ProviderMetadata;
pub use validator::Validator;
