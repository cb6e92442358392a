//! Voiding an identity.

use vstd::prelude::*;
use crate::account::Account;
use crate::action::Action;
use crate::address::Address;
use crate::bytes::same_bytes;
use crate::error::CustomError;
use crate::instructions::guards::{
    live_link,
    settle_void,
    void_actions,
    void_constraint_error,
    void_constraint_guard,
};
use crate::ledger::{DedupLedger, LinkKey};
use crate::state::global::Global;
use crate::state::identity::{spec_id_hash, Identity};
use crate::state::link::Link;
use crate::state::provider::Provider;
use crate::state::validator::Validator;

verus! {

/// The proof that comes with a request to void an identity.
#[derive(Clone, Debug, PartialEq, Eq)]
pub struct VoidIdentityParams {
    /// The identifier of the identity, where a validator attests the
    /// request. `None` where the owner voids the identity.
    pub id: Option<Vec<u8>>,
}

/// The accounts of a request to void an identity.
#[derive(Clone, Debug, PartialEq, Eq)]
pub struct VoidIdentity {
    /// The identity to void.
    pub identity: Account<Identity>,
    /// The identifier that the link of the identity is filed under.
    pub link: Vec<u8>,
    /// The signer of the request, who pays and gets the deposit of the link.
    pub signer: Address,
    /// The signer presented for the validator.
    pub validator_signer: Address,
    /// The validator.
    pub validator: Account<Validator>,
    /// The provider of the identity.
    pub provider: Account<Provider>,
    /// The account presented as the treasury of the registry.
    pub treasury: Address,
    /// The configuration of the registry.
    pub global: Global,
}

/// What the link named in a request to void an identity is filed under.
pub open spec fn void_identity_link_key(ctx: VoidIdentity) -> LinkKey {
    (ctx.provider.key, ctx.link@)
}

/// What a request to void an identity presents as proof: the hash of its
/// identifier for the provider, or nothing.
pub open spec fn presented_id_hash(ctx: VoidIdentity, params: VoidIdentityParams) -> Option<
    Seq<u8>,
> {
    match params.id {
        Some(id) => Some(spec_id_hash(ctx.provider.data.name@, id@)),
        None => None,
    }
}

/// Why the proof of a request to void an identity is rejected, if it is.
/// With the hash of an identifier as proof: the validator may not attest
/// revocation, or the identity keeps another hash. Without: the signer is
/// not the owner.
pub open spec fn void_identity_proof_error(ctx: VoidIdentity, presented: Option<Seq<u8>>) -> Option<
    CustomError,
> {
    match presented {
        Some(hash) => {
            if !ctx.validator.data.flags.revoke {
                Some(CustomError::ValidatorDisabled)
            } else if hash != ctx.identity.data.id@ {
                Some(CustomError::InvalidIdHash)
            } else {
                None
            }
        },
        None => {
            if ctx.identity.data.owner != ctx.signer {
                Some(CustomError::VoidUnauthorized)
            } else {
                None
            }
        },
    }
}

/// Why a request to void an identity is rejected, if it is: for the
/// accounts presented, or else for its proof.
pub open spec fn void_identity_error(
    links: Map<LinkKey, Link>,
    ctx: VoidIdentity,
    params: VoidIdentityParams,
) -> Option<CustomError> {
    let constraint = void_constraint_error(
        ctx.identity.data.provider,
        ctx.identity.key,
        live_link(links, void_identity_link_key(ctx)),
        ctx.validator_signer,
        ctx.validator,
        ctx.provider.key,
        ctx.treasury,
        ctx.global,
    );
    if constraint is Some {
        constraint
    } else {
        void_identity_proof_error(ctx, presented_id_hash(ctx, params))
    }
}

/// Why the proof of a request to void an identity is rejected, if it is,
/// given the hash of the identifier that the request presents, if it
/// presents any.
pub fn void_identity_proof_guard(ctx: &VoidIdentity, presented: &Option<[u8; 32]>) -> (r: Option<
    CustomError,
>)
    ensures
        r == void_identity_proof_error(
            *ctx,
            match *presented {
                Some(hash) => Some(hash@),
                None => None,
            },
        ),
{
    match presented {
        Some(hash) => {
            if !ctx.validator.data.flags.revoke {
                Some(CustomError::ValidatorDisabled)
            } else if !same_bytes(hash.as_slice(), ctx.identity.data.id.as_slice()) {
                Some(CustomError::InvalidIdHash)
            } else {
                None
            }
        },
        None => {
            if ctx.identity.data.owner != ctx.signer {
                Some(CustomError::VoidUnauthorized)
            } else {
                None
            }
        },
    }
}

/// Voids an identity: closes its link, and says what the signer pays and
/// gets. The identity itself stays as it is.
///
/// A validator voids an identity with the identifier as proof; the owner
/// voids it without.
pub fn void_identity_handler(
    ledger: &mut DedupLedger,
    ctx: &VoidIdentity,
    params: VoidIdentityParams,
) -> (r: Result<Vec<Action>, CustomError>)
    requires
        old(ledger).wf(),
    ensures
        final(ledger).wf(),
        match r {
            Ok(actions) => {
                &&& void_identity_error(old(ledger)@, *ctx, params) is None
                &&& final(ledger)@ == old(ledger)@.remove(void_identity_link_key(*ctx))
                &&& actions@ == void_actions(ctx.signer, ctx.treasury, ctx.global.service_fee)
            },
            Err(e) => {
                &&& void_identity_error(old(ledger)@, *ctx, params) == Some(e)
                &&& final(ledger)@ == old(ledger)@
            },
        },
{
    let link = ledger.get(&ctx.provider.key, ctx.link.as_slice());
    match void_constraint_guard(
        &ctx.identity.data.provider,
        &ctx.identity.key,
        link,
        &ctx.validator_signer,
        &ctx.validator,
        &ctx.provider.key,
        &ctx.treasury,
        &ctx.global,
    ) {
        Some(e) => {
            return Err(e);
        },
        None => {},
    }
    let presented = match &params.id {
        Some(id) => Some(Identity::id_hash(&ctx.provider.data.name, id.as_slice())),
        None => None,
    };
    match void_identity_proof_guard(ctx, &presented) {
        Some(e) => {
            return Err(e);
        },
        None => {},
    }
    let actions = settle_void(ctx.signer, ctx.treasury, ctx.global.service_fee);
    ledger.close(&ctx.provider.key, ctx.link.as_slice());
    Ok(actions)
}

} // verus!
