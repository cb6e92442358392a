//! Changing the configuration of the registry.

use vstd::prelude::*;
use crate::address::Address;
use crate::error::CustomError;
use crate::state::global::Global;

verus! {

/// What to change of the configuration. A field that is `None` asks for
/// nothing.
#[derive(Clone, Copy, Debug, PartialEq, Eq)]
pub struct UpdateConfigParams {
    /// The account that may change the configuration from now on.
    pub authority: Option<Address>,
    /// The account that collects the fees of the registry from now on.
    pub treasury: Option<Address>,
    /// The fee for issuing or voiding an identity.
    pub service_fee: Option<u64>,
    /// The fee for creating a provider.
    pub provider_creation_fee: Option<u64>,
}

/// The accounts of a request to change the configuration.
#[derive(Clone, Copy, Debug, PartialEq, Eq)]
pub struct UpdateConfig {
    /// The configuration.
    pub global: Global,
    /// The signer of the request.
    pub authority: Address,
}

/// Why a request to change the configuration is rejected, if it is: the
/// signer is not its authority.
pub open spec fn update_config_error(ctx: UpdateConfig) -> Option<CustomError> {
    if ctx.authority != ctx.global.authority {
        Some(CustomError::ConstraintViolation)
    } else {
        None
    }
}

/// The configuration after an accepted request: each field is replaced
/// where the request gives one.
pub open spec fn update_config_result(global: Global, params: UpdateConfigParams) -> Global {
    Global {
        authority: match params.authority {
            Some(authority) => authority,
            None => global.authority,
        },
        treasury: match params.treasury {
            Some(treasury) => treasury,
            None => global.treasury,
        },
        service_fee: match params.service_fee {
            Some(fee) => fee,
            None => global.service_fee,
        },
        provider_creation_fee: match params.provider_creation_fee {
            Some(fee) => fee,
            None => global.provider_creation_fee,
        },
    }
}

/// Changes the configuration as its authority asks.
pub fn update_config_handler(ctx: &mut UpdateConfig, params: UpdateConfigParams) -> (r: Result<
    (),
    CustomError,
>)
    ensures
        match r {
            Ok(()) => {
                &&& update_config_error(*old(ctx)) is None
                &&& final(ctx).global == update_config_result(old(ctx).global, params)
                &&& final(ctx).authority == old(ctx).authority
            },
            Err(e) => {
                &&& update_config_error(*old(ctx)) == Some(e)
                &&& *final(ctx) == *old(ctx)
            },
        },
{
    if ctx.authority != ctx.global.authority {
        return Err(CustomError::ConstraintViolation);
    }
    match params.service_fee {
        Some(service_fee) => {
            ctx.global.service_fee = service_fee;
        },
        None => {},
    }
    match params.provider_creation_fee {
        Some(provider_creation_fee) => {
            ctx.global.provider_creation_fee = provider_creation_fee;
        },
        None => {},
    }
    match params.treasury {
        Some(treasury) => {
            ctx.global.treasury = treasury;
        },
        None => {},
    }
    match params.authority {
        Some(authority) => {
            ctx.global.authority = authority;
        },
        None => {},
    }
    Ok(())
}

} // verus!
