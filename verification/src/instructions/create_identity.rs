//! Issuing an identity.

use vstd::prelude::*;
use crate::account::Account;
use crate::action::Action;
use crate::address::Address;
use crate::error::CustomError;
use crate::instructions::guards::{
    issuance_error,
    issuance_guard,
    issuance_payments,
    pay_issuance,
    registration_fee,
    registration_fee_due,
};
use crate::ledger::{DedupLedger, LinkKey};
use crate::state::global::Global;
use crate::state::identity::{spec_id_hash, Identity};
use crate::state::link::Link;
use crate::state::provider::Provider;
use crate::state::validator::Validator;

verus! {

/// What an identity is asked for.
#[derive(Clone, Debug, PartialEq, Eq)]
pub struct CreateIdentityParams {
    /// The identifier that the identity binds to its owner.
    pub id: Vec<u8>,
    /// The time of issue, in seconds since the epoch.
    pub timestamp: u64,
    /// The registration fee, where the validator may set it.
    pub registration_fee: Option<u64>,
}

/// The accounts of a request for an identity.
#[derive(Clone, Debug, PartialEq, Eq)]
pub struct CreateIdentity {
    /// The record that will hold the identity. It is empty.
    pub identity: Account<Option<Identity>>,
    /// The signer that the identifier belongs to, and who pays.
    pub owner: Address,
    /// The signer that attests the request for the validator.
    pub signer: Address,
    /// The validator that attests the request.
    pub validator: Account<Validator>,
    /// The account presented as the provider's treasury.
    pub provider_treasury: Address,
    /// The provider that issues the identity.
    pub provider: Account<Provider>,
    /// The account presented as the treasury of the registry.
    pub treasury: Address,
    /// The configuration of the registry.
    pub global: Global,
}

/// Why a request for an identity is rejected, if it is.
pub open spec fn create_identity_error(
    links: Map<LinkKey, Link>,
    ctx: CreateIdentity,
    params: CreateIdentityParams,
) -> Option<CustomError> {
    issuance_error(
        links.contains_key((ctx.provider.key, params.id@)),
        ctx.identity.data is Some,
        ctx.signer,
        ctx.validator,
        ctx.provider_treasury,
        ctx.provider,
        ctx.treasury,
        ctx.global,
    )
}

/// The links after an identity has been issued: one more, for the provider
/// and the identifier, which guards the identity.
pub open spec fn create_identity_links(
    links: Map<LinkKey, Link>,
    ctx: CreateIdentity,
    params: CreateIdentityParams,
) -> Map<LinkKey, Link> {
    links.insert((ctx.provider.key, params.id@), Link { identity: ctx.identity.key })
}

/// Whether an identity is the one that the request asks for.
pub open spec fn is_created_identity(
    i: Identity,
    ctx: CreateIdentity,
    params: CreateIdentityParams,
) -> bool {
    &&& i.id@ == spec_id_hash(ctx.provider.data.name@, params.id@)
    &&& i.owner == ctx.owner
    &&& i.provider == ctx.provider.key
    &&& i.timestamp == params.timestamp
}

/// What the owner pays for the identity.
pub open spec fn create_identity_actions(ctx: CreateIdentity, params: CreateIdentityParams) -> Seq<
    Action,
> {
    issuance_payments(
        ctx.owner,
        ctx.treasury,
        ctx.global.service_fee,
        ctx.provider_treasury,
        registration_fee_due(ctx.validator.data, ctx.provider.data, params.registration_fee),
    )
}

/// Issues an identity: files the link for the provider and the identifier,
/// fills the record of the identity with the hash of the identifier, and
/// says what the owner pays.
///
/// A request for an identifier that has a live link under the provider is
/// rejected before anything else is looked at.
pub fn create_identity_handler(
    ledger: &mut DedupLedger,
    ctx: &mut CreateIdentity,
    params: CreateIdentityParams,
) -> (r: Result<Vec<Action>, CustomError>)
    requires
        old(ledger).wf(),
    ensures
        final(ledger).wf(),
        match r {
            Ok(actions) => {
                &&& create_identity_error(old(ledger)@, *old(ctx), params) is None
                &&& final(ledger)@ == create_identity_links(old(ledger)@, *old(ctx), params)
                &&& final(ctx).identity.key == old(ctx).identity.key
                &&& final(ctx).identity.data matches Some(i) && is_created_identity(
                    i,
                    *old(ctx),
                    params,
                )
                &&& actions@ == create_identity_actions(*old(ctx), params)
            },
            Err(e) => {
                &&& create_identity_error(old(ledger)@, *old(ctx), params) == Some(e)
                &&& final(ledger)@ == old(ledger)@
                &&& *final(ctx) == *old(ctx)
            },
        },
        final(ctx).owner == old(ctx).owner,
        final(ctx).signer == old(ctx).signer,
        final(ctx).validator == old(ctx).validator,
        final(ctx).provider_treasury == old(ctx).provider_treasury,
        final(ctx).provider == old(ctx).provider,
        final(ctx).treasury == old(ctx).treasury,
        final(ctx).global == old(ctx).global,
{
    let link_live = ledger.contains(&ctx.provider.key, params.id.as_slice());
    match issuance_guard(
        link_live,
        ctx.identity.data.is_some(),
        &ctx.signer,
        &ctx.validator,
        &ctx.provider_treasury,
        &ctx.provider,
        &ctx.treasury,
        &ctx.global,
    ) {
        Some(e) => {
            return Err(e);
        },
        None => {},
    }
    let fee = registration_fee(&ctx.validator.data, &ctx.provider.data, params.registration_fee);
    let actions = pay_issuance(
        ctx.owner,
        ctx.treasury,
        ctx.global.service_fee,
        ctx.provider_treasury,
        fee,
    );
    let id = Identity::id_hash(&ctx.provider.data.name, params.id.as_slice());
    match ledger.insert_if_absent(
        ctx.provider.key,
        params.id,
        Link { identity: ctx.identity.key },
    ) {
        Ok(()) => {},
        Err(e) => {
            return Err(e);
        },
    }
    ctx.identity.data = Some(
        Identity { id, owner: ctx.owner, provider: ctx.provider.key, timestamp: params.timestamp },
    );
    Ok(actions)
}

} // verus!
