//! Attaching metadata to a provider.

use vstd::prelude::*;
use crate::account::Account;
use crate::address::Address;
use crate::error::CustomError;
use crate::flags::ProviderFlags;
use crate::state::provider::Provider;
use crate::state::provider_metadata::ProviderMetadata;

verus! {

/// What the metadata of a provider is created with.
#[derive(Clone, Debug, PartialEq, Eq)]
pub struct CreateProviderMetadataParams {
    /// Where the description of the provider can be found.
    pub uri: String,
}

/// The accounts of a request to attach metadata to a provider.
#[derive(Clone, Debug, PartialEq, Eq)]
pub struct CreateProviderMetadata {
    /// The record that will hold the provider's metadata. It is empty.
    pub provider_metadata: Account<Option<ProviderMetadata>>,
    /// The provider.
    pub provider: Account<Provider>,
    /// The signer of the request.
    pub authority: Address,
}

/// Why a request to attach metadata is rejected, if it is: the provider has
/// metadata, or the signer is not the provider's authority.
pub open spec fn create_provider_metadata_error(ctx: CreateProviderMetadata) -> Option<CustomError> {
    if ctx.provider_metadata.data is Some {
        Some(CustomError::AlreadyExists)
    } else if ctx.provider.data.authority != ctx.authority {
        Some(CustomError::ConstraintViolation)
    } else {
        None
    }
}

/// The provider once metadata has been attached to it.
pub open spec fn with_metadata(p: Provider) -> Provider {
    Provider { flags: ProviderFlags { has_metadata: true, ..p.flags }, ..p }
}

/// Attaches metadata to a provider, and marks the provider as having it.
pub fn create_provider_metadata_handler(
    ctx: &mut CreateProviderMetadata,
    params: CreateProviderMetadataParams,
) -> (r: Result<(), CustomError>)
    ensures
        match r {
            Ok(()) => {
                &&& create_provider_metadata_error(*old(ctx)) is None
                &&& final(ctx).provider_metadata.data == Some(ProviderMetadata { uri: params.uri })
                &&& final(ctx).provider_metadata.key == old(ctx).provider_metadata.key
                &&& final(ctx).provider.data == with_metadata(old(ctx).provider.data)
                &&& final(ctx).provider.key == old(ctx).provider.key
                &&& final(ctx).authority == old(ctx).authority
            },
            Err(e) => {
                &&& create_provider_metadata_error(*old(ctx)) == Some(e)
                &&& *final(ctx) == *old(ctx)
            },
        },
        old(ctx).provider.data.wf() ==> final(ctx).provider.data.wf(),
{
    if ctx.provider_metadata.data.is_some() {
        return Err(CustomError::AlreadyExists);
    }
    if ctx.provider.data.authority != ctx.authority {
        return Err(CustomError::ConstraintViolation);
    }
    ctx.provider_metadata.data = Some(ProviderMetadata { uri: params.uri });
    ctx.provider.data.flags.has_metadata = true;
    Ok(())
}

} // verus!
