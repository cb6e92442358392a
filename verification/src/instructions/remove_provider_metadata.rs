//! Removing the metadata of a provider.

use vstd::prelude::*;
use crate::account::Account;
use crate::action::Action;
use crate::address::Address;
use crate::error::CustomError;
use crate::flags::ProviderFlags;
use crate::state::provider::Provider;
use crate::state::provider_metadata::ProviderMetadata;

verus! {

/// The accounts of a request to remove the metadata of a provider.
#[derive(Clone, Debug, PartialEq, Eq)]
pub struct RemoveProviderMetadata {
    /// The record of the provider's metadata. It is emptied.
    pub provider_metadata: Account<Option<ProviderMetadata>>,
    /// The provider.
    pub provider: Account<Provider>,
    /// The signer of the request, who gets the deposit of the record.
    pub authority: Address,
}

/// Why a request to remove metadata is rejected, if it is: the provider has
/// none, or the signer is not the provider's authority.
pub open spec fn remove_provider_metadata_error(ctx: RemoveProviderMetadata) -> Option<CustomError> {
    if ctx.provider_metadata.data is None {
        Some(CustomError::ConstraintViolation)
    } else if ctx.provider.data.authority != ctx.authority {
        Some(CustomError::ConstraintViolation)
    } else {
        None
    }
}

/// The provider once its metadata has been removed: without metadata, and
/// unpublished, since only a provider with metadata can be published.
pub open spec fn without_metadata(p: Provider) -> Provider {
    Provider { flags: ProviderFlags { published: false, has_metadata: false, ..p.flags }, ..p }
}

/// What the host carries out once metadata has been removed: the deposit of
/// the record goes to the provider's authority.
pub open spec fn remove_provider_metadata_actions(ctx: RemoveProviderMetadata) -> Seq<Action> {
    seq![Action::Refund { to: ctx.authority }]
}

/// Removes the metadata of a provider, unpublishes the provider, and says
/// who gets the deposit of the record.
pub fn remove_provider_metadata_handler(ctx: &mut RemoveProviderMetadata) -> (r: Result<
    Vec<Action>,
    CustomError,
>)
    ensures
        match r {
            Ok(actions) => {
                &&& remove_provider_metadata_error(*old(ctx)) is None
                &&& final(ctx).provider_metadata.data is None
                &&& final(ctx).provider_metadata.key == old(ctx).provider_metadata.key
                &&& final(ctx).provider.data == without_metadata(old(ctx).provider.data)
                &&& final(ctx).provider.key == old(ctx).provider.key
                &&& final(ctx).authority == old(ctx).authority
                &&& actions@ == remove_provider_metadata_actions(*old(ctx))
            },
            Err(e) => {
                &&& remove_provider_metadata_error(*old(ctx)) == Some(e)
                &&& *final(ctx) == *old(ctx)
            },
        },
        old(ctx).provider.data.wf() ==> final(ctx).provider.data.wf(),
{
    if ctx.provider_metadata.data.is_none() {
        return Err(CustomError::ConstraintViolation);
    }
    if ctx.provider.data.authority != ctx.authority {
        return Err(CustomError::ConstraintViolation);
    }
    let mut actions: Vec<Action> = Vec::new();
    actions.push(Action::Refund { to: ctx.authority });
    assert(actions@ =~= remove_provider_metadata_actions(*ctx));
    ctx.provider_metadata.data = None;
    ctx.provider.data.flags.published = false;
    ctx.provider.data.flags.has_metadata = false;
    Ok(actions)
}

} // verus!
