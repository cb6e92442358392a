//! Changing a provider.

use vstd::prelude::*;
use crate::account::Account;
use crate::address::Address;
use crate::error::CustomError;
use crate::flags::ProviderFlags;
use crate::state::provider::Provider;

verus! {

/// What to change of a provider. A field that is `None` asks for nothing.
#[derive(Clone, Debug, PartialEq, Eq)]
pub struct UpdateProviderParams {
    /// Put the provider up for sale, or take it off the market.
    pub for_sale: Option<bool>,
    /// Publish or unpublish the provider.
    pub published: Option<bool>,
    /// The price at which the provider is sold.
    pub selling_price: Option<u64>,
    /// The account that manages the provider from now on.
    pub authority: Option<Address>,
    /// The account that collects the registration fees from now on.
    pub treasury: Option<Address>,
    /// The fee for an identity.
    pub registration_fee: Option<u64>,
    /// Where the provider's details can be found.
    pub uri: Option<String>,
}

/// The accounts of a request to change a provider.
#[derive(Clone, Debug, PartialEq, Eq)]
pub struct UpdateProvider {
    /// The provider to change.
    pub provider: Account<Provider>,
    /// The signer of the request.
    pub authority: Address,
}

/// Whether a provider may be put up for sale: it is enabled, unpublished and
/// without validators.
pub open spec fn may_sell(p: Provider) -> bool {
    p.flags.enabled && !p.flags.published && p.validator_count == 0
}

/// Why a request to change a provider is rejected, if it is: the signer is
/// not the provider's authority, or the provider is to be put up for sale and
/// may not be.
pub open spec fn update_provider_error(ctx: UpdateProvider, params: UpdateProviderParams) -> Option<
    CustomError,
> {
    if ctx.provider.data.authority != ctx.authority {
        Some(CustomError::ConstraintViolation)
    } else if params.for_sale == Some(true) && !may_sell(ctx.provider.data) {
        Some(CustomError::SellingNotAllowed)
    } else {
        None
    }
}

/// The provider once it has been put up for sale or taken off the market as
/// asked, and its price set.
pub open spec fn with_sale_terms(p: Provider, params: UpdateProviderParams) -> Provider {
    Provider {
        flags: ProviderFlags {
            for_sale: match params.for_sale {
                Some(for_sale) => for_sale,
                None => p.flags.for_sale,
            },
            ..p.flags
        },
        selling_price: match params.selling_price {
            Some(price) => price,
            None => p.selling_price,
        },
        ..p
    }
}

/// The provider once the changes that a sale rules out have been made: it is
/// published only if that was asked and it has metadata, and unpublished if
/// anything was asked about publishing and not both hold; authority,
/// treasury, fee and uri are replaced where given.
pub open spec fn with_settings(p: Provider, params: UpdateProviderParams) -> Provider {
    Provider {
        flags: ProviderFlags {
            published: match params.published {
                Some(published) => published && p.flags.has_metadata,
                None => p.flags.published,
            },
            ..p.flags
        },
        authority: match params.authority {
            Some(authority) => authority,
            None => p.authority,
        },
        treasury: match params.treasury {
            Some(treasury) => treasury,
            None => p.treasury,
        },
        registration_fee: match params.registration_fee {
            Some(fee) => fee,
            None => p.registration_fee,
        },
        uri: match params.uri {
            Some(uri) => uri,
            None => p.uri,
        },
        ..p
    }
}

/// The provider after an accepted request to change it. While the provider
/// is for sale, only the sale and the price can change.
pub open spec fn update_provider_result(p: Provider, params: UpdateProviderParams) -> Provider {
    let listed = with_sale_terms(p, params);
    if listed.flags.for_sale {
        listed
    } else {
        with_settings(listed, params)
    }
}

/// Puts a provider up for sale or takes it off the market as asked, and sets
/// its price.
fn set_sale_terms(provider: &mut Provider, for_sale: Option<bool>, selling_price: Option<u64>)
    ensures
        final(provider).flags.for_sale == (match for_sale {
            Some(s) => s,
            None => old(provider).flags.for_sale,
        }),
        final(provider).selling_price == (match selling_price {
            Some(price) => price,
            None => old(provider).selling_price,
        }),
        final(provider).flags.enabled == old(provider).flags.enabled,
        final(provider).flags.published == old(provider).flags.published,
        final(provider).flags.verified == old(provider).flags.verified,
        final(provider).flags.has_validator == old(provider).flags.has_validator,
        final(provider).flags.has_metadata == old(provider).flags.has_metadata,
        final(provider).authority == old(provider).authority,
        final(provider).treasury == old(provider).treasury,
        final(provider).registration_fee == old(provider).registration_fee,
        final(provider).validator_count == old(provider).validator_count,
        final(provider).name == old(provider).name,
        final(provider).uri == old(provider).uri,
{
    match for_sale {
        Some(s) => {
            provider.flags.for_sale = s;
        },
        None => {},
    }
    match selling_price {
        Some(price) => {
            provider.selling_price = price;
        },
        None => {},
    }
}

/// Publishes or unpublishes a provider as asked: it is published only if it
/// has metadata.
fn set_published(provider: &mut Provider, published: Option<bool>)
    ensures
        final(provider).flags.published == (match published {
            Some(p) => p && old(provider).flags.has_metadata,
            None => old(provider).flags.published,
        }),
        final(provider).flags.enabled == old(provider).flags.enabled,
        final(provider).flags.verified == old(provider).flags.verified,
        final(provider).flags.for_sale == old(provider).flags.for_sale,
        final(provider).flags.has_validator == old(provider).flags.has_validator,
        final(provider).flags.has_metadata == old(provider).flags.has_metadata,
        final(provider).authority == old(provider).authority,
        final(provider).treasury == old(provider).treasury,
        final(provider).registration_fee == old(provider).registration_fee,
        final(provider).validator_count == old(provider).validator_count,
        final(provider).selling_price == old(provider).selling_price,
        final(provider).name == old(provider).name,
        final(provider).uri == old(provider).uri,
{
    match published {
        Some(p) => {
            provider.flags.published = p && provider.flags.has_metadata;
        },
        None => {},
    }
}

/// Replaces the authority, treasury, fee and uri of a provider where given.
fn set_management(
    provider: &mut Provider,
    authority: Option<Address>,
    treasury: Option<Address>,
    registration_fee: Option<u64>,
    uri: Option<String>,
)
    ensures
        final(provider).authority == (match authority {
            Some(a) => a,
            None => old(provider).authority,
        }),
        final(provider).treasury == (match treasury {
            Some(t) => t,
            None => old(provider).treasury,
        }),
        final(provider).registration_fee == (match registration_fee {
            Some(fee) => fee,
            None => old(provider).registration_fee,
        }),
        final(provider).uri == (match uri {
            Some(u) => u,
            None => old(provider).uri,
        }),
        final(provider).flags == old(provider).flags,
        final(provider).validator_count == old(provider).validator_count,
        final(provider).selling_price == old(provider).selling_price,
        final(provider).name == old(provider).name,
{
    match authority {
        Some(a) => {
            provider.authority = a;
        },
        None => {},
    }
    match treasury {
        Some(t) => {
            provider.treasury = t;
        },
        None => {},
    }
    match registration_fee {
        Some(fee) => {
            provider.registration_fee = fee;
        },
        None => {},
    }
    match uri {
        Some(u) => {
            provider.uri = u;
        },
        None => {},
    }
}

/// Changes a provider as its authority asks.
///
/// The sale is dealt with first, then the price. A provider that is then for
/// sale is left as it is. Otherwise it is published or unpublished, and its
/// authority, treasury, fee and uri are replaced where given.
pub fn update_provider_handler(ctx: &mut UpdateProvider, params: UpdateProviderParams) -> (r:
    Result<(), CustomError>)
    ensures
        match r {
            Ok(()) => {
                &&& update_provider_error(*old(ctx), params) is None
                &&& final(ctx).provider.data == update_provider_result(
                    old(ctx).provider.data,
                    params,
                )
                &&& final(ctx).provider.key == old(ctx).provider.key
                &&& final(ctx).authority == old(ctx).authority
            },
            Err(e) => {
                &&& update_provider_error(*old(ctx), params) == Some(e)
                &&& *final(ctx) == *old(ctx)
            },
        },
        old(ctx).provider.data.wf() ==> final(ctx).provider.data.wf(),
{
    if ctx.provider.data.authority != ctx.authority {
        return Err(CustomError::ConstraintViolation);
    }
    let sell: bool = match params.for_sale {
        Some(s) => s,
        None => false,
    };
    if sell && (!ctx.provider.data.flags.enabled || ctx.provider.data.flags.published
        || ctx.provider.data.validator_count != 0) {
        return Err(CustomError::SellingNotAllowed);
    }
    set_sale_terms(&mut ctx.provider.data, params.for_sale, params.selling_price);
    if ctx.provider.data.flags.for_sale {
        return Ok(());
    }
    set_published(&mut ctx.provider.data, params.published);
    set_management(
        &mut ctx.provider.data,
        params.authority,
        params.treasury,
        params.registration_fee,
        params.uri,
    );
    Ok(())
}

} // verus!
