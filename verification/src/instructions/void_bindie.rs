//! Voiding a bindie.

use vstd::prelude::*;
use crate::account::Account;
use crate::action::Action;
use crate::address::Address;
use crate::error::CustomError;
use crate::instructions::guards::{
    live_link,
    settle_void,
    void_actions,
    void_constraint_error,
    void_constraint_guard,
};
use crate::ledger::{DedupLedger, LinkKey};
use crate::state::bindie::{spec_data_hash, Bindie};
use crate::state::global::Global;
use crate::state::link::Link;
use crate::state::provider::Provider;
use crate::state::validator::Validator;

verus! {

/// The proof that comes with a request to void a bindie.
#[derive(Clone, Debug, PartialEq, Eq)]
pub struct VoidBindieParams {
    /// The data of the bindie, where a validator attests the request.
    /// `None` where the owner voids the bindie.
    pub data: Option<String>,
}

/// The accounts of a request to void a bindie.
#[derive(Clone, Debug, PartialEq, Eq)]
pub struct VoidBindie {
    /// The bindie to void.
    pub bindie: Account<Bindie>,
    /// The identifier that the link of the bindie is filed under.
    pub link: Vec<u8>,
    /// The signer of the request, who pays and gets the deposit of the link.
    pub signer: Address,
    /// The signer presented for the validator.
    pub validator_signer: Address,
    /// The validator.
    pub validator: Account<Validator>,
    /// The provider of the bindie.
    pub provider: Account<Provider>,
    /// The account presented as the treasury of the registry.
    pub treasury: Address,
    /// The configuration of the registry.
    pub global: Global,
}

/// What the link named in a request to void a bindie is filed under.
pub open spec fn void_bindie_link_key(ctx: VoidBindie) -> LinkKey {
    (ctx.provider.key, ctx.link@)
}

/// What a request to void a bindie presents as proof: the hash of its data
/// for the provider, or nothing.
pub open spec fn presented_data_hash(ctx: VoidBindie, params: VoidBindieParams) -> Option<
    Seq<char>,
> {
    match params.data {
        Some(data) => Some(spec_data_hash(ctx.provider.data.name@, data@)),
        None => None,
    }
}

/// Why the proof of a request to void a bindie is rejected, if it is. With
/// the hash of data as proof: the validator may not attest revocation, or
/// the bindie stores a hash and it is another. Without: the signer is not
/// the owner.
pub open spec fn void_bindie_proof_error(ctx: VoidBindie, presented: Option<Seq<char>>) -> Option<
    CustomError,
> {
    match presented {
        Some(hash) => {
            if !ctx.validator.data.flags.revoke {
                Some(CustomError::ValidatorDisabled)
            } else if ctx.bindie.data.encryption_count != 0 && hash != ctx.bindie.data.data@ {
                Some(CustomError::InvalidDataHash)
            } else {
                None
            }
        },
        None => {
            if ctx.bindie.data.owner != ctx.signer {
                Some(CustomError::VoidUnauthorized)
            } else {
                None
            }
        },
    }
}

/// Why a request to void a bindie is rejected, if it is: for the accounts
/// presented, or else for its proof.
pub open spec fn void_bindie_error(
    links: Map<LinkKey, Link>,
    ctx: VoidBindie,
    params: VoidBindieParams,
) -> Option<CustomError> {
    let constraint = void_constraint_error(
        ctx.bindie.data.provider,
        ctx.bindie.key,
        live_link(links, void_bindie_link_key(ctx)),
        ctx.validator_signer,
        ctx.validator,
        ctx.provider.key,
        ctx.treasury,
        ctx.global,
    );
    if constraint is Some {
        constraint
    } else {
        void_bindie_proof_error(ctx, presented_data_hash(ctx, params))
    }
}

/// Why the proof of a request to void a bindie is rejected, if it is, given
/// the hash of the data that the request presents, if it presents any.
pub fn void_bindie_proof_guard(ctx: &VoidBindie, presented: &Option<String>) -> (r: Option<
    CustomError,
>)
    ensures
        r == void_bindie_proof_error(
            *ctx,
            match *presented {
                Some(hash) => Some(hash@),
                None => None,
            },
        ),
{
    match presented {
        Some(hash) => {
            if !ctx.validator.data.flags.revoke {
                Some(CustomError::ValidatorDisabled)
            } else if ctx.bindie.data.encryption_count != 0 && *hash != ctx.bindie.data.data {
                Some(CustomError::InvalidDataHash)
            } else {
                None
            }
        },
        None => {
            if ctx.bindie.data.owner != ctx.signer {
                Some(CustomError::VoidUnauthorized)
            } else {
                None
            }
        },
    }
}

/// Voids a bindie: closes its link, and says what the signer pays and gets.
/// The bindie itself stays as it is.
///
/// A validator voids a bindie with the data as proof; the owner voids it
/// without.
pub fn void_bindie_handler(ledger: &mut DedupLedger, ctx: &VoidBindie, params: VoidBindieParams) -> (r:
    Result<Vec<Action>, CustomError>)
    requires
        old(ledger).wf(),
    ensures
        final(ledger).wf(),
        match r {
            Ok(actions) => {
                &&& void_bindie_error(old(ledger)@, *ctx, params) is None
                &&& final(ledger)@ == old(ledger)@.remove(void_bindie_link_key(*ctx))
                &&& actions@ == void_actions(ctx.signer, ctx.treasury, ctx.global.service_fee)
            },
            Err(e) => {
                &&& void_bindie_error(old(ledger)@, *ctx, params) == Some(e)
                &&& final(ledger)@ == old(ledger)@
            },
        },
{
    let link = ledger.get(&ctx.provider.key, ctx.link.as_slice());
    match void_constraint_guard(
        &ctx.bindie.data.provider,
        &ctx.bindie.key,
        link,
        &ctx.validator_signer,
        &ctx.validator,
        &ctx.provider.key,
        &ctx.treasury,
        &ctx.global,
    ) {
        Some(e) => {
            return Err(e);
        },
        None => {},
    }
    let presented = match &params.data {
        Some(data) => Some(Bindie::data_hash(&ctx.provider.data.name, data)),
        None => None,
    };
    match void_bindie_proof_guard(ctx, &presented) {
        Some(e) => {
            return Err(e);
        },
        None => {},
    }
    let actions = settle_void(ctx.signer, ctx.treasury, ctx.global.service_fee);
    ledger.close(&ctx.provider.key, ctx.link.as_slice());
    Ok(actions)
}

} // verus!
