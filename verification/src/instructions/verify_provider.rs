//! Verifying a provider.

use vstd::prelude::*;
use vstd::string::StringExecFns;
use crate::account::Account;
use crate::address::Address;
use crate::error::CustomError;
use crate::flags::ProviderFlags;
use crate::instructions::create_bindie::bindie_link_key;
use crate::instructions::guards::live_link;
use crate::ledger::{DedupLedger, LinkKey};
use crate::state::bindie::Bindie;
use crate::state::link::Link;
use crate::state::provider::Provider;
use crate::state::validator::Validator;

verus! {

/// What comes with a request to verify a provider.
#[derive(Clone, Debug, PartialEq, Eq)]
pub struct VerifyProviderParams {
    /// The data of the owner's bindie: what its link is filed under.
    pub data: String,
}

/// The accounts of a request to verify a provider.
#[derive(Clone, Debug, PartialEq, Eq)]
pub struct VerifyProvider {
    /// The root provider.
    pub verifier_provider: Account<Provider>,
    /// A validator of the root provider.
    pub validator: Account<Validator>,
    /// The signer that attests the request for the validator.
    pub signer: Address,
    /// The bindie that the root provider issued to the owner.
    pub owner_bindie: Account<Bindie>,
    /// The provider to verify.
    pub target_provider: Account<Provider>,
    /// The signer that owns the bindie and manages the provider.
    pub owner: Address,
}

/// The name of the root provider, whose validators verify the others.
pub open spec fn root_provider_name() -> Seq<char> {
    "provider"@
}

/// Why a request to verify a provider is rejected, if it is. In this order:
/// the verifying provider is not the root provider; the validator is not
/// the root provider's; the signer is not the validator's; the bindie is not
/// the owner's; the root provider did not issue it; its link is not live
/// under the data given; the owner is not the authority of the provider to
/// verify.
pub open spec fn verify_provider_error(
    links: Map<LinkKey, Link>,
    ctx: VerifyProvider,
    params: VerifyProviderParams,
) -> Option<CustomError> {
    if ctx.verifier_provider.data.name@ != root_provider_name() {
        Some(CustomError::ConstraintViolation)
    } else if ctx.validator.data.provider != ctx.verifier_provider.key {
        Some(CustomError::ConstraintViolation)
    } else if ctx.signer != ctx.validator.data.signer {
        Some(CustomError::ConstraintViolation)
    } else if ctx.owner_bindie.data.owner != ctx.owner {
        Some(CustomError::ConstraintViolation)
    } else if ctx.owner_bindie.data.provider != ctx.verifier_provider.key {
        Some(CustomError::ConstraintViolation)
    } else if live_link(links, bindie_link_key(ctx.verifier_provider.key, params.data@)) != Some(
        Link { identity: ctx.owner_bindie.key },
    ) {
        Some(CustomError::ConstraintViolation)
    } else if ctx.target_provider.data.authority != ctx.owner {
        Some(CustomError::ConstraintViolation)
    } else {
        None
    }
}

/// The provider once it has been verified.
pub open spec fn verified(p: Provider) -> Provider {
    Provider { flags: ProviderFlags { verified: true, ..p.flags }, ..p }
}

/// Marks a provider as verified, where a validator of the root provider
/// attests it and the provider's authority holds a live bindie of the root
/// provider.
pub fn verify_provider_handler(
    ledger: &DedupLedger,
    ctx: &mut VerifyProvider,
    params: VerifyProviderParams,
) -> (r: Result<(), CustomError>)
    requires
        ledger.wf(),
    ensures
        match r {
            Ok(()) => {
                &&& verify_provider_error(ledger@, *old(ctx), params) is None
                &&& final(ctx).target_provider.data == verified(old(ctx).target_provider.data)
                &&& final(ctx).target_provider.key == old(ctx).target_provider.key
                &&& final(ctx).verifier_provider == old(ctx).verifier_provider
                &&& final(ctx).validator == old(ctx).validator
                &&& final(ctx).signer == old(ctx).signer
                &&& final(ctx).owner_bindie == old(ctx).owner_bindie
                &&& final(ctx).owner == old(ctx).owner
            },
            Err(e) => {
                &&& verify_provider_error(ledger@, *old(ctx), params) == Some(e)
                &&& *final(ctx) == *old(ctx)
            },
        },
        old(ctx).target_provider.data.wf() ==> final(ctx).target_provider.data.wf(),
{
    let root = String::from_str("provider");
    if ctx.verifier_provider.data.name != root {
        return Err(CustomError::ConstraintViolation);
    }
    if ctx.validator.data.provider != ctx.verifier_provider.key {
        return Err(CustomError::ConstraintViolation);
    }
    if ctx.signer != ctx.validator.data.signer {
        return Err(CustomError::ConstraintViolation);
    }
    if ctx.owner_bindie.data.owner != ctx.owner {
        return Err(CustomError::ConstraintViolation);
    }
    if ctx.owner_bindie.data.provider != ctx.verifier_provider.key {
        return Err(CustomError::ConstraintViolation);
    }
    let guarded: bool = match ledger.get(
        &ctx.verifier_provider.key,
        params.data.as_str().as_bytes(),
    ) {
        Some(link) => link.identity == ctx.owner_bindie.key,
        None => false,
    };
    if !guarded {
        return Err(CustomError::ConstraintViolation);
    }
    if ctx.target_provider.data.authority != ctx.owner {
        return Err(CustomError::ConstraintViolation);
    }
    ctx.target_provider.data.flags.verified = true;
    Ok(())
}

} // verus!
