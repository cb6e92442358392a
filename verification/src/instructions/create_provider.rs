//! Creating a provider.

use vstd::prelude::*;
use crate::account::Account;
use crate::action::Action;
use crate::address::Address;
use crate::error::CustomError;
use crate::flags::ProviderFlags;
use crate::state::global::Global;
use crate::state::provider::Provider;

verus! {

/// What a provider is created with.
#[derive(Clone, Debug, PartialEq, Eq)]
pub struct CreateProviderParams {
    /// The name of the provider.
    pub name: String,
    /// Whether the provider starts published.
    pub published: bool,
    /// The fee for an identity.
    pub registration_fee: u64,
    /// Where the provider's details can be found.
    pub uri: String,
    /// The account that collects the registration fees.
    pub provider_treasury: Address,
}

/// The accounts of a request to create a provider.
#[derive(Clone, Debug, PartialEq, Eq)]
pub struct CreateProvider {
    /// The record that will hold the provider: the one for its name. It is
    /// empty.
    pub provider: Account<Option<Provider>>,
    /// The signer of the request, who pays and becomes the authority.
    pub owner: Address,
    /// The account presented as the treasury of the registry.
    pub treasury: Address,
    /// The configuration of the registry.
    pub global: Global,
}

/// Why a request to create a provider is rejected, if it is: a provider of
/// that name exists, or the treasury presented is not the registry's.
pub open spec fn create_provider_error(ctx: CreateProvider) -> Option<CustomError> {
    if ctx.provider.data is Some {
        Some(CustomError::AlreadyExists)
    } else if ctx.treasury != ctx.global.treasury {
        Some(CustomError::ConstraintViolation)
    } else {
        None
    }
}

/// The provider that a request creates: enabled, published if asked, owned
/// by the signer, without validators and without a price.
pub open spec fn created_provider(ctx: CreateProvider, params: CreateProviderParams) -> Provider {
    Provider {
        flags: ProviderFlags { published: params.published, ..ProviderFlags::spec_fresh() },
        authority: ctx.owner,
        treasury: params.provider_treasury,
        registration_fee: params.registration_fee,
        validator_count: 0,
        selling_price: 0,
        name: params.name,
        uri: params.uri,
    }
}

/// What the owner pays for a provider: the creation fee, to the registry.
pub open spec fn create_provider_actions(ctx: CreateProvider) -> Seq<Action> {
    seq![
        Action::Transfer {
            from: ctx.owner,
            to: ctx.treasury,
            amount: ctx.global.provider_creation_fee,
        },
    ]
}

/// Creates a provider, and says what its owner pays.
pub fn create_provider_handler(ctx: &mut CreateProvider, params: CreateProviderParams) -> (r: Result<
    Vec<Action>,
    CustomError,
>)
    ensures
        match r {
            Ok(actions) => {
                &&& create_provider_error(*old(ctx)) is None
                &&& final(ctx).provider.data == Some(created_provider(*old(ctx), params))
                &&& created_provider(*old(ctx), params).wf()
                &&& final(ctx).provider.key == old(ctx).provider.key
                &&& final(ctx).owner == old(ctx).owner
                &&& final(ctx).treasury == old(ctx).treasury
                &&& final(ctx).global == old(ctx).global
                &&& actions@ == create_provider_actions(*old(ctx))
            },
            Err(e) => {
                &&& create_provider_error(*old(ctx)) == Some(e)
                &&& *final(ctx) == *old(ctx)
            },
        },
{
    if ctx.provider.data.is_some() {
        return Err(CustomError::AlreadyExists);
    }
    if ctx.treasury != ctx.global.treasury {
        return Err(CustomError::ConstraintViolation);
    }
    let mut actions: Vec<Action> = Vec::new();
    actions.push(
        Action::Transfer {
            from: ctx.owner,
            to: ctx.treasury,
            amount: ctx.global.provider_creation_fee,
        },
    );
    assert(actions@ =~= create_provider_actions(*ctx));
    let mut flags = ProviderFlags::fresh();
    flags.published = params.published;
    ctx.provider.data = Some(
        Provider {
            flags,
            authority: ctx.owner,
            treasury: params.provider_treasury,
            registration_fee: params.registration_fee,
            validator_count: 0,
            selling_price: 0,
            name: params.name,
            uri: params.uri,
        },
    );
    Ok(actions)
}

} // verus!
