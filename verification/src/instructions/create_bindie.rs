//! Issuing a bindie.

use vstd::prelude::*;
use vstd::slice::slice_to_vec;
use vstd::utf8::encode_utf8;
use crate::account::Account;
use crate::action::Action;
use crate::address::Address;
use crate::error::CustomError;
use crate::instructions::guards::{
    issuance_error,
    issuance_guard,
    issuance_payments,
    pay_issuance,
    registration_fee,
    registration_fee_due,
};
use crate::ledger::{DedupLedger, LinkKey};
use crate::state::bindie::{stored_data, Bindie};
use crate::state::global::Global;
use crate::state::link::Link;
use crate::state::provider::Provider;
use crate::state::validator::Validator;

verus! {

/// What a bindie is asked for.
#[derive(Clone, Debug, PartialEq, Eq)]
pub struct CreateBindieParams {
    /// The data that the bindie binds to its owner. It is also the
    /// identifier that the link is filed under.
    pub data: String,
    /// The time of issue, in seconds since the epoch.
    pub timestamp: u64,
    /// 0 to store the data as it is, anything else to store its hash.
    pub encryption_count: u8,
    /// The registration fee, where the validator may set it.
    pub registration_fee: Option<u64>,
}

/// The accounts of a request for a bindie.
#[derive(Clone, Debug, PartialEq, Eq)]
pub struct CreateBindie {
    /// The record that will hold the bindie. It is empty.
    pub bindie: Account<Option<Bindie>>,
    /// The signer that the data belongs to, and who pays.
    pub owner: Address,
    /// The signer that attests the request for the validator.
    pub signer: Address,
    /// The validator that attests the request.
    pub validator: Account<Validator>,
    /// The account presented as the provider's treasury.
    pub provider_treasury: Address,
    /// The provider that issues the bindie.
    pub provider: Account<Provider>,
    /// The account presented as the treasury of the registry.
    pub treasury: Address,
    /// The configuration of the registry.
    pub global: Global,
}

/// What the link of a bindie is filed under: the provider's address and the
/// data in UTF-8.
pub open spec fn bindie_link_key(provider: Address, data: Seq<char>) -> LinkKey {
    (provider, encode_utf8(data))
}

/// Why a request for a bindie is rejected, if it is.
pub open spec fn create_bindie_error(
    links: Map<LinkKey, Link>,
    ctx: CreateBindie,
    params: CreateBindieParams,
) -> Option<CustomError> {
    issuance_error(
        links.contains_key(bindie_link_key(ctx.provider.key, params.data@)),
        ctx.bindie.data is Some,
        ctx.signer,
        ctx.validator,
        ctx.provider_treasury,
        ctx.provider,
        ctx.treasury,
        ctx.global,
    )
}

/// The links after a bindie has been issued: one more, for the provider and
/// the data, which guards the bindie.
pub open spec fn create_bindie_links(
    links: Map<LinkKey, Link>,
    ctx: CreateBindie,
    params: CreateBindieParams,
) -> Map<LinkKey, Link> {
    links.insert(
        bindie_link_key(ctx.provider.key, params.data@),
        Link { identity: ctx.bindie.key },
    )
}

/// Whether a bindie is the one that the request asks for.
pub open spec fn is_created_bindie(b: Bindie, ctx: CreateBindie, params: CreateBindieParams) -> bool {
    &&& b.owner == ctx.owner
    &&& b.provider == ctx.provider.key
    &&& b.timestamp == params.timestamp
    &&& b.encryption_count == params.encryption_count
    &&& b.data@ == stored_data(params.encryption_count, ctx.provider.data.name@, params.data@)
}

/// What the owner pays for the bindie.
pub open spec fn create_bindie_actions(ctx: CreateBindie, params: CreateBindieParams) -> Seq<
    Action,
> {
    issuance_payments(
        ctx.owner,
        ctx.treasury,
        ctx.global.service_fee,
        ctx.provider_treasury,
        registration_fee_due(ctx.validator.data, ctx.provider.data, params.registration_fee),
    )
}

/// Issues a bindie: files the link for the provider and the data, fills the
/// record of the bindie, and says what the owner pays.
///
/// A request for data that has a live link under the provider is rejected
/// before anything else is looked at.
pub fn create_bindie_handler(
    ledger: &mut DedupLedger,
    ctx: &mut CreateBindie,
    params: CreateBindieParams,
) -> (r: Result<Vec<Action>, CustomError>)
    requires
        old(ledger).wf(),
    ensures
        final(ledger).wf(),
        match r {
            Ok(actions) => {
                &&& create_bindie_error(old(ledger)@, *old(ctx), params) is None
                &&& final(ledger)@ == create_bindie_links(old(ledger)@, *old(ctx), params)
                &&& final(ctx).bindie.key == old(ctx).bindie.key
                &&& final(ctx).bindie.data matches Some(b) && is_created_bindie(
                    b,
                    *old(ctx),
                    params,
                )
                &&& actions@ == create_bindie_actions(*old(ctx), params)
            },
            Err(e) => {
                &&& create_bindie_error(old(ledger)@, *old(ctx), params) == Some(e)
                &&& final(ledger)@ == old(ledger)@
                &&& *final(ctx) == *old(ctx)
            },
        },
        final(ctx).owner == old(ctx).owner,
        final(ctx).signer == old(ctx).signer,
        final(ctx).validator == old(ctx).validator,
        final(ctx).provider_treasury == old(ctx).provider_treasury,
        final(ctx).provider == old(ctx).provider,
        final(ctx).treasury == old(ctx).treasury,
        final(ctx).global == old(ctx).global,
{
    let identifier = params.data.as_str().as_bytes();
    let link_live = ledger.contains(&ctx.provider.key, identifier);
    match issuance_guard(
        link_live,
        ctx.bindie.data.is_some(),
        &ctx.signer,
        &ctx.validator,
        &ctx.provider_treasury,
        &ctx.provider,
        &ctx.treasury,
        &ctx.global,
    ) {
        Some(e) => {
            return Err(e);
        },
        None => {},
    }
    let fee = registration_fee(&ctx.validator.data, &ctx.provider.data, params.registration_fee);
    let actions = pay_issuance(
        ctx.owner,
        ctx.treasury,
        ctx.global.service_fee,
        ctx.provider_treasury,
        fee,
    );
    match ledger.insert_if_absent(
        ctx.provider.key,
        slice_to_vec(identifier),
        Link { identity: ctx.bindie.key },
    ) {
        Ok(()) => {},
        Err(e) => {
            return Err(e);
        },
    }
    let data = Bindie::stored(&ctx.provider.data.name, params.encryption_count, params.data);
    ctx.bindie.data = Some(
        Bindie {
            owner: ctx.owner,
            provider: ctx.provider.key,
            timestamp: params.timestamp,
            encryption_count: params.encryption_count,
            data,
        },
    );
    Ok(actions)
}

} // verus!
