//! The requests that the registry serves.

pub mod buy_provider;
pub mod create_bindie;
pub mod create_identity;
pub mod create_provider;
pub mod create_provider_metadata;
pub mod create_validator;
pub mod guards;
pub mod initialize;
pub mod remove_provider_metadata;
pub mod update_config;
pub mod update_provider;
pub mod update_validator;
pub mod verify_provider;
pub mod void_bindie;
pub mod void_identity;

pub use buy_provider::{buy_provider_handler, BuyProvider, BuyProviderParams};
pub use create_bindie::{create_bindie_handler, CreateBindie, CreateBindieParams};
pub use create_identity::{create_identity_handler, CreateIdentity, CreateIdentityParams};
pub use create_provider::{create_provider_handler, CreateProvider, CreateProviderParams};
pub use create_provider_metadata::{
    create_provider_metadata_handler, CreateProviderMetadata, CreateProviderMetadataParams,
};
pub use create_validator::{
    create_validator_guard, create_validator_handler, CreateValidator, CreateValidatorParams,
};
pub use initialize::{initialize_handler, Initialize, InitializeParams};
pub use remove_provider_metadata::{remove_provider_metadata_handler, RemoveProviderMetadata};
pub use update_config::{update_config_handler, UpdateConfig, UpdateConfigParams};
pub use update_provider::{update_provider_handler, UpdateProvider, UpdateProviderParams};
pub use update_validator::{
    update_validator_guard, update_validator_handler, UpdateValidator, UpdateValidatorParams,
};
pub use verify_provider::{verify_provider_handler, VerifyProvider, VerifyProviderParams};
pub use void_bindie::{void_bindie_handler, void_bindie_proof_guard, VoidBindie, VoidBindieParams};
pub use void_identity::{
    void_identity_handler, void_identity_proof_guard, VoidIdentity, VoidIdentityParams,
};
