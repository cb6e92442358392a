//! Setting up the registry.

use vstd::prelude::*;
use crate::account::Account;
use crate::address::Address;
use crate::error::CustomError;
use crate::state::global::Global;

verus! {

/// The configuration that the registry starts with.
#[derive(Clone, Copy, Debug, PartialEq, Eq)]
pub struct InitializeParams {
    /// The account that collects the fees of the registry.
    pub treasury: Address,
    /// The fee for issuing or voiding an identity.
    pub service_fee: u64,
    /// The fee for creating a provider.
    pub provider_creation_fee: u64,
}

/// The accounts of the request that sets up the registry.
#[derive(Clone, Debug, PartialEq, Eq)]
pub struct Initialize {
    /// The record that will hold the configuration. It is empty.
    pub global: Account<Option<Global>>,
    /// The signer of the request.
    pub authority: Address,
    /// The account that may deploy the registry, as the host knows it, if
    /// there is one.
    pub upgrade_authority: Option<Address>,
}

/// Why the request to set up the registry is rejected, if it is: the
/// registry has been set up, or the signer is not the account that may
/// deploy it.
pub open spec fn initialize_error(ctx: Initialize) -> Option<CustomError> {
    if ctx.global.data is Some {
        Some(CustomError::AlreadyExists)
    } else if ctx.upgrade_authority != Some(ctx.authority) {
        Some(CustomError::ConstraintViolation)
    } else {
        None
    }
}

/// The configuration that the registry starts with: the signer is its
/// authority.
pub open spec fn initialize_result(ctx: Initialize, params: InitializeParams) -> Global {
    Global {
        authority: ctx.authority,
        treasury: params.treasury,
        service_fee: params.service_fee,
        provider_creation_fee: params.provider_creation_fee,
    }
}

/// Sets up the registry, once, for the account that may deploy it.
pub fn initialize_handler(ctx: &mut Initialize, params: InitializeParams) -> (r: Result<
    (),
    CustomError,
>)
    ensures
        match r {
            Ok(()) => {
                &&& initialize_error(*old(ctx)) is None
                &&& final(ctx).global.data == Some(initialize_result(*old(ctx), params))
                &&& final(ctx).global.key == old(ctx).global.key
                &&& final(ctx).authority == old(ctx).authority
                &&& final(ctx).upgrade_authority == old(ctx).upgrade_authority
            },
            Err(e) => {
                &&& initialize_error(*old(ctx)) == Some(e)
                &&& *final(ctx) == *old(ctx)
            },
        },
{
    if ctx.global.data.is_some() {
        return Err(CustomError::AlreadyExists);
    }
    let deployer: bool = match ctx.upgrade_authority {
        Some(a) => a == ctx.authority,
        None => false,
    };
    if !deployer {
        return Err(CustomError::ConstraintViolation);
    }
    ctx.global.data = Some(
        Global {
            authority: ctx.authority,
            treasury: params.treasury,
            service_fee: params.service_fee,
            provider_creation_fee: params.provider_creation_fee,
        },
    );
    Ok(())
}

} // verus!
