//! Changing or closing a validator.

use vstd::prelude::*;
use crate::account::Account;
use crate::action::Action;
use crate::address::Address;
use crate::error::CustomError;
use crate::flags::{ProviderFlags, ValidatorFlags};
use crate::state::provider::Provider;
use crate::state::validator::Validator;

verus! {

/// What to do with a validator: close it, or replace its flags.
#[derive(Clone, Copy, Debug, PartialEq, Eq)]
pub struct UpdateValidatorParams {
    /// `Some(true)` closes the validator, whatever `flags` holds.
    pub close: Option<bool>,
    /// The flags that replace the validator's, as a number, unless the
    /// validator is closed.
    pub flags: Option<u8>,
}

/// The accounts of a request to change or close a validator.
#[derive(Clone, Debug, PartialEq, Eq)]
pub struct UpdateValidator {
    /// The record of the validator. It is emptied when the validator is
    /// closed.
    pub validator: Account<Option<Validator>>,
    /// The provider that the validator belongs to.
    pub provider: Account<Provider>,
    /// The signer of the request.
    pub authority: Address,
}

/// Why a request to change or close a validator is rejected, if it is: the
/// record holds no validator, the validator is not the provider's, or the
/// signer is not the provider's authority.
pub open spec fn update_validator_error(ctx: UpdateValidator) -> Option<CustomError> {
    if ctx.validator.data is None {
        Some(CustomError::ConstraintViolation)
    } else if ctx.validator.data->0.provider != ctx.provider.key {
        Some(CustomError::ConstraintViolation)
    } else if ctx.provider.data.authority != ctx.authority {
        Some(CustomError::ConstraintViolation)
    } else {
        None
    }
}

/// The provider once one of its validators has been closed: it has one
/// validator less, and is marked as having none when that was the last.
pub open spec fn without_validator(p: Provider) -> Provider {
    Provider {
        validator_count: (p.validator_count - 1) as u32,
        flags: ProviderFlags {
            has_validator: p.flags.has_validator && p.validator_count != 1,
            ..p.flags
        },
        ..p
    }
}

/// The accounts after an accepted request to change or close a validator:
/// the validator is closed if that is asked, and else its flags are replaced
/// where the request gives flags.
pub open spec fn update_validator_result(
    ctx: UpdateValidator,
    params: UpdateValidatorParams,
) -> UpdateValidator {
    if params.close == Some(true) {
        UpdateValidator {
            validator: Account { key: ctx.validator.key, data: None },
            provider: Account { key: ctx.provider.key, data: without_validator(ctx.provider.data) },
            authority: ctx.authority,
        }
    } else {
        match params.flags {
            Some(bits) => UpdateValidator {
                validator: Account {
                    key: ctx.validator.key,
                    data: Some(
                        Validator {
                            flags: ValidatorFlags::spec_from_bits(bits),
                            ..ctx.validator.data->0
                        },
                    ),
                },
                ..ctx
            },
            None => ctx,
        }
    }
}

/// What the host carries out for an accepted request: where the validator
/// was closed, the deposit of its record goes to the provider's authority.
pub open spec fn update_validator_actions(
    ctx: UpdateValidator,
    params: UpdateValidatorParams,
) -> Seq<Action> {
    if params.close == Some(true) {
        seq![Action::Refund { to: ctx.authority }]
    } else {
        Seq::empty()
    }
}

/// Why a request to change or close a validator is rejected, if it is.
pub fn update_validator_guard(ctx: &UpdateValidator) -> (r: Option<CustomError>)
    ensures
        r == update_validator_error(*ctx),
{
    match ctx.validator.data {
        Some(validator) => {
            if validator.provider != ctx.provider.key {
                Some(CustomError::ConstraintViolation)
            } else if ctx.provider.data.authority != ctx.authority {
                Some(CustomError::ConstraintViolation)
            } else {
                None
            }
        },
        None => Some(CustomError::ConstraintViolation),
    }
}

/// Closes a validator, or replaces its flags, as the provider's authority
/// asks. A request that does not close the validator replaces its flags
/// where it gives flags.
///
/// A provider whose validator is closed has at least that one validator.
pub fn update_validator_handler(ctx: &mut UpdateValidator, params: UpdateValidatorParams) -> (r:
    Result<Vec<Action>, CustomError>)
    requires
        params.close == Some(true) && update_validator_error(*old(ctx)) is None ==> old(
            ctx,
        ).provider.data.validator_count > 0,
    ensures
        match r {
            Ok(actions) => {
                &&& update_validator_error(*old(ctx)) is None
                &&& *final(ctx) == update_validator_result(*old(ctx), params)
                &&& actions@ == update_validator_actions(*old(ctx), params)
            },
            Err(e) => {
                &&& update_validator_error(*old(ctx)) == Some(e)
                &&& *final(ctx) == *old(ctx)
            },
        },
        old(ctx).provider.data.wf() ==> final(ctx).provider.data.wf(),
{
    match update_validator_guard(ctx) {
        Some(e) => {
            return Err(e);
        },
        None => {},
    }
    let validator = match ctx.validator.data {
        Some(v) => v,
        None => {
            return Err(CustomError::ConstraintViolation);
        },
    };
    let mut actions: Vec<Action> = Vec::new();
    let close: bool = match params.close {
        Some(close) => close,
        None => false,
    };
    if close {
        ctx.validator.data = None;
        ctx.provider.data.validator_count = ctx.provider.data.validator_count - 1;
        if ctx.provider.data.validator_count == 0 {
            ctx.provider.data.flags.has_validator = false;
        }
        actions.push(Action::Refund { to: ctx.authority });
        assert(actions@ =~= seq![Action::Refund { to: ctx.authority }]);
    } else {
        match params.flags {
            Some(bits) => {
                ctx.validator.data = Some(
                    Validator {
                        flags: ValidatorFlags::from_bits(bits),
                        provider: validator.provider,
                        signer: validator.signer,
                    },
                );
            },
            None => {},
        }
    }
    Ok(actions)
}

} // verus!
