//! Appointing a validator.

use vstd::prelude::*;
use crate::account::Account;
use crate::address::Address;
use crate::error::CustomError;
use crate::flags::{ProviderFlags, ValidatorFlags};
use crate::state::provider::Provider;
use crate::state::validator::Validator;

verus! {

/// What a validator is created with.
#[derive(Clone, Copy, Debug, PartialEq, Eq)]
pub struct CreateValidatorParams {
    /// Whether the validator may attest the issuance of identities.
    pub enabled: bool,
    /// The account that signs for the validator.
    pub signer: Address,
}

/// The accounts of a request to appoint a validator.
#[derive(Clone, Debug, PartialEq, Eq)]
pub struct CreateValidator {
    /// The record that will hold the validator. It is empty.
    pub validator: Account<Option<Validator>>,
    /// The signer of the request.
    pub authority: Address,
    /// The provider that appoints the validator.
    pub provider: Account<Provider>,
}

/// Why a request to appoint a validator is rejected, if it is: the
/// validator exists, the signer is not the provider's authority, or the
/// provider is for sale.
pub open spec fn create_validator_error(ctx: CreateValidator) -> Option<CustomError> {
    if ctx.validator.data is Some {
        Some(CustomError::AlreadyExists)
    } else if ctx.provider.data.authority != ctx.authority {
        Some(CustomError::ConstraintViolation)
    } else if ctx.provider.data.flags.for_sale {
        Some(CustomError::ConstraintViolation)
    } else {
        None
    }
}

/// The validator that a request appoints: it belongs to the provider, and
/// may attest issuance if enabled, and nothing else.
pub open spec fn created_validator(ctx: CreateValidator, params: CreateValidatorParams) -> Validator {
    Validator {
        flags: ValidatorFlags { issue: params.enabled, custom_fee: false, revoke: false },
        provider: ctx.provider.key,
        signer: params.signer,
    }
}

/// The provider once it has appointed a validator: it has one more, and is
/// marked as having one.
pub open spec fn with_validator(p: Provider) -> Provider {
    Provider {
        validator_count: (p.validator_count + 1) as u32,
        flags: ProviderFlags { has_validator: true, ..p.flags },
        ..p
    }
}

/// Why a request to appoint a validator is rejected, if it is.
pub fn create_validator_guard(ctx: &CreateValidator) -> (r: Option<CustomError>)
    ensures
        r == create_validator_error(*ctx),
{
    if ctx.validator.data.is_some() {
        Some(CustomError::AlreadyExists)
    } else if ctx.provider.data.authority != ctx.authority {
        Some(CustomError::ConstraintViolation)
    } else if ctx.provider.data.flags.for_sale {
        Some(CustomError::ConstraintViolation)
    } else {
        None
    }
}

/// Appoints a validator for a provider that is not for sale, and marks the
/// provider as having a validator.
///
/// Where the request is accepted, the provider has room for one more
/// validator.
pub fn create_validator_handler(ctx: &mut CreateValidator, params: CreateValidatorParams) -> (r:
    Result<(), CustomError>)
    requires
        create_validator_error(*old(ctx)) is None ==> old(ctx).provider.data.validator_count
            < u32::MAX,
    ensures
        match r {
            Ok(()) => {
                &&& create_validator_error(*old(ctx)) is None
                &&& final(ctx).validator.data == Some(created_validator(*old(ctx), params))
                &&& final(ctx).validator.key == old(ctx).validator.key
                &&& final(ctx).provider.data == with_validator(old(ctx).provider.data)
                &&& final(ctx).provider.data.validator_count == old(ctx).provider.data.validator_count
                    + 1
                &&& final(ctx).provider.data.flags.has_validator
                &&& final(ctx).provider.key == old(ctx).provider.key
                &&& final(ctx).authority == old(ctx).authority
            },
            Err(e) => {
                &&& create_validator_error(*old(ctx)) == Some(e)
                &&& *final(ctx) == *old(ctx)
            },
        },
        old(ctx).provider.data.wf() ==> final(ctx).provider.data.wf(),
{
    match create_validator_guard(ctx) {
        Some(e) => {
            return Err(e);
        },
        None => {},
    }
    ctx.validator.data = Some(
        Validator {
            flags: ValidatorFlags { issue: params.enabled, custom_fee: false, revoke: false },
            provider: ctx.provider.key,
            signer: params.signer,
        },
    );
    ctx.provider.data.validator_count = ctx.provider.data.validator_count + 1;
    ctx.provider.data.flags.has_validator = true;
    Ok(())
}

} // verus!
