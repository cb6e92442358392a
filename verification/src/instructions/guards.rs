//! What issuing and voiding ask of the accounts presented, whatever the kind
//! of identity.

use vstd::prelude::*;
use crate::account::Account;
use crate::action::Action;
use crate::address::Address;
use crate::error::CustomError;
use crate::ledger::LinkKey;
use crate::state::global::Global;
use crate::state::link::Link;
use crate::state::provider::Provider;
use crate::state::validator::Validator;

verus! {

/// Why the issuance of an identity is rejected, if it is. In this order: a
/// link for the provider and identifier is live; the record of the identity
/// is in use; the signer is not the validator's; the validator is not the
/// provider's; the validator may not attest issuance; the treasury presented
/// for the provider is not the provider's; the provider is disabled; it is
/// unpublished; the treasury presented for the registry is not the
/// registry's.
pub open spec fn issuance_error(
    link_live: bool,
    record_in_use: bool,
    signer: Address,
    validator: Account<Validator>,
    provider_treasury: Address,
    provider: Account<Provider>,
    treasury: Address,
    global: Global,
) -> Option<CustomError> {
    if link_live || record_in_use {
        Some(CustomError::AlreadyExists)
    } else if signer != validator.data.signer {
        Some(CustomError::ConstraintViolation)
    } else if validator.data.provider != provider.key {
        Some(CustomError::ConstraintViolation)
    } else if !validator.data.flags.issue {
        Some(CustomError::ValidatorDisabled)
    } else if provider_treasury != provider.data.treasury {
        Some(CustomError::ConstraintViolation)
    } else if !provider.data.flags.enabled {
        Some(CustomError::ProviderDisabled)
    } else if !provider.data.flags.published {
        Some(CustomError::ProviderUnpublished)
    } else if treasury != global.treasury {
        Some(CustomError::ConstraintViolation)
    } else {
        None
    }
}

/// The registration fee of a request: the fee that the request names, if it
/// names one and the validator may set fees, and the provider's fee
/// otherwise.
pub open spec fn registration_fee_due(
    validator: Validator,
    provider: Provider,
    named: Option<u64>,
) -> u64 {
    if validator.flags.custom_fee && named is Some {
        named->0
    } else {
        provider.registration_fee
    }
}

/// What the owner pays for an identity: the service fee to the registry,
/// then the registration fee to the provider.
pub open spec fn issuance_payments(
    owner: Address,
    treasury: Address,
    service_fee: u64,
    provider_treasury: Address,
    registration_fee: u64,
) -> Seq<Action> {
    seq![
        Action::Transfer { from: owner, to: treasury, amount: service_fee },
        Action::Transfer { from: owner, to: provider_treasury, amount: registration_fee },
    ]
}

/// The link named in a request, if it is live.
pub open spec fn live_link(links: Map<LinkKey, Link>, key: LinkKey) -> Option<Link> {
    if links.contains_key(key) {
        Some(links[key])
    } else {
        None
    }
}

/// Why a request to void is rejected before its proof is looked at, if it
/// is: the identity is not the provider's; the link named is not live or
/// guards another identity; the signer presented for the validator is not
/// the validator's; the validator is not the provider's; the treasury
/// presented is not the registry's.
pub open spec fn void_constraint_error(
    identity_provider: Address,
    identity_key: Address,
    link: Option<Link>,
    validator_signer: Address,
    validator: Account<Validator>,
    provider_key: Address,
    treasury: Address,
    global: Global,
) -> Option<CustomError> {
    if identity_provider != provider_key {
        Some(CustomError::ConstraintViolation)
    } else if link != Some(Link { identity: identity_key }) {
        Some(CustomError::ConstraintViolation)
    } else if validator_signer != validator.data.signer {
        Some(CustomError::ConstraintViolation)
    } else if validator.data.provider != provider_key {
        Some(CustomError::ConstraintViolation)
    } else if treasury != global.treasury {
        Some(CustomError::ConstraintViolation)
    } else {
        None
    }
}

/// What voiding costs and returns: the signer pays the service fee to the
/// registry, and gets the deposit of the closed link.
pub open spec fn void_actions(signer: Address, treasury: Address, service_fee: u64) -> Seq<Action> {
    seq![
        Action::Transfer { from: signer, to: treasury, amount: service_fee },
        Action::Refund { to: signer },
    ]
}

/// Why the issuance of an identity is rejected, if it is.
pub fn issuance_guard(
    link_live: bool,
    record_in_use: bool,
    signer: &Address,
    validator: &Account<Validator>,
    provider_treasury: &Address,
    provider: &Account<Provider>,
    treasury: &Address,
    global: &Global,
) -> (r: Option<CustomError>)
    ensures
        r == issuance_error(
            link_live,
            record_in_use,
            *signer,
            *validator,
            *provider_treasury,
            *provider,
            *treasury,
            *global,
        ),
{
    if link_live || record_in_use {
        Some(CustomError::AlreadyExists)
    } else if *signer != validator.data.signer {
        Some(CustomError::ConstraintViolation)
    } else if validator.data.provider != provider.key {
        Some(CustomError::ConstraintViolation)
    } else if !validator.data.flags.issue {
        Some(CustomError::ValidatorDisabled)
    } else if *provider_treasury != provider.data.treasury {
        Some(CustomError::ConstraintViolation)
    } else if !provider.data.flags.enabled {
        Some(CustomError::ProviderDisabled)
    } else if !provider.data.flags.published {
        Some(CustomError::ProviderUnpublished)
    } else if *treasury != global.treasury {
        Some(CustomError::ConstraintViolation)
    } else {
        None
    }
}

/// The registration fee of a request.
pub fn registration_fee(validator: &Validator, provider: &Provider, named: Option<u64>) -> (fee:
    u64)
    ensures
        fee == registration_fee_due(*validator, *provider, named),
{
    match named {
        Some(fee) => if validator.flags.custom_fee {
            fee
        } else {
            provider.registration_fee
        },
        None => provider.registration_fee,
    }
}

/// What the owner pays for an identity.
pub fn pay_issuance(
    owner: Address,
    treasury: Address,
    service_fee: u64,
    provider_treasury: Address,
    registration_fee: u64,
) -> (actions: Vec<Action>)
    ensures
        actions@ == issuance_payments(
            owner,
            treasury,
            service_fee,
            provider_treasury,
            registration_fee,
        ),
{
    let mut actions: Vec<Action> = Vec::new();
    actions.push(Action::Transfer { from: owner, to: treasury, amount: service_fee });
    actions.push(
        Action::Transfer { from: owner, to: provider_treasury, amount: registration_fee },
    );
    assert(actions@ =~= issuance_payments(
        owner,
        treasury,
        service_fee,
        provider_treasury,
        registration_fee,
    ));
    actions
}

/// Why a request to void is rejected before its proof is looked at, if it
/// is.
pub fn void_constraint_guard(
    identity_provider: &Address,
    identity_key: &Address,
    link: Option<Link>,
    validator_signer: &Address,
    validator: &Account<Validator>,
    provider_key: &Address,
    treasury: &Address,
    global: &Global,
) -> (r: Option<CustomError>)
    ensures
        r == void_constraint_error(
            *identity_provider,
            *identity_key,
            link,
            *validator_signer,
            *validator,
            *provider_key,
            *treasury,
            *global,
        ),
{
    let guarded: bool = match link {
        Some(l) => l.identity == *identity_key,
        None => false,
    };
    if *identity_provider != *provider_key {
        Some(CustomError::ConstraintViolation)
    } else if !guarded {
        Some(CustomError::ConstraintViolation)
    } else if *validator_signer != validator.data.signer {
        Some(CustomError::ConstraintViolation)
    } else if validator.data.provider != *provider_key {
        Some(CustomError::ConstraintViolation)
    } else if *treasury != global.treasury {
        Some(CustomError::ConstraintViolation)
    } else {
        None
    }
}

/// What voiding costs and returns.
pub fn settle_void(signer: Address, treasury: Address, service_fee: u64) -> (actions: Vec<
    Action,
>)
    ensures
        actions@ == void_actions(signer, treasury, service_fee),
{
    let mut actions: Vec<Action> = Vec::new();
    actions.push(Action::Transfer { from: signer, to: treasury, amount: service_fee });
    actions.push(Action::Refund { to: signer });
    assert(actions@ =~= void_actions(signer, treasury, service_fee));
    actions
}

} // verus!
