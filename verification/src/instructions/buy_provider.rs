//! Buying a provider.

use vstd::prelude::*;
use crate::account::Account;
use crate::action::Action;
use crate::address::Address;
use crate::error::CustomError;
use crate::flags::ProviderFlags;
use crate::state::provider::Provider;

verus! {

/// What the buyer sets the provider up with.
#[derive(Clone, Debug, PartialEq, Eq)]
pub struct BuyProviderParams {
    /// The account that collects the registration fees.
    pub provider_treasury: Address,
    /// The fee for an identity.
    pub registration_fee: u64,
    /// Where the provider's details can be found.
    pub uri: String,
}

/// The accounts of a request to buy a provider.
#[derive(Clone, Debug, PartialEq, Eq)]
pub struct BuyProvider {
    /// The provider to buy.
    pub provider: Account<Provider>,
    /// The account that is paid.
    pub seller: Address,
    /// The signer of the request, who pays.
    pub buyer: Address,
}

/// Why a request to buy a provider is rejected, if it is: the provider is
/// not for sale, or the account to be paid is not its authority.
pub open spec fn buy_provider_error(ctx: BuyProvider) -> Option<CustomError> {
    if !ctx.provider.data.flags.for_sale {
        Some(CustomError::SellingNotAllowed)
    } else if ctx.provider.data.authority != ctx.seller {
        Some(CustomError::ConstraintViolation)
    } else {
        None
    }
}

/// The provider once it has been bought: as if the buyer had just created
/// it, unpublished, under its old name.
pub open spec fn bought_provider(p: Provider, buyer: Address, params: BuyProviderParams) -> Provider {
    Provider {
        flags: ProviderFlags::spec_fresh(),
        authority: buyer,
        treasury: params.provider_treasury,
        registration_fee: params.registration_fee,
        validator_count: 0,
        selling_price: 0,
        name: p.name,
        uri: params.uri,
    }
}

/// What the buyer pays: the price, to the seller.
pub open spec fn buy_provider_actions(ctx: BuyProvider) -> Seq<Action> {
    seq![
        Action::Transfer {
            from: ctx.buyer,
            to: ctx.seller,
            amount: ctx.provider.data.selling_price,
        },
    ]
}

/// Sells a provider that is for sale to the signer, and says what the buyer
/// pays. Whatever the provider was before, it is afterwards the buyer's,
/// enabled and nothing else, without validators and without a price.
pub fn buy_provider_handler(ctx: &mut BuyProvider, params: BuyProviderParams) -> (r: Result<
    Vec<Action>,
    CustomError,
>)
    ensures
        match r {
            Ok(actions) => {
                &&& buy_provider_error(*old(ctx)) is None
                &&& final(ctx).provider.data == bought_provider(
                    old(ctx).provider.data,
                    old(ctx).buyer,
                    params,
                )
                &&& final(ctx).provider.data.authority == old(ctx).buyer
                &&& final(ctx).provider.data.validator_count == 0
                &&& final(ctx).provider.data.selling_price == 0
                &&& final(ctx).provider.data.flags == ProviderFlags::spec_fresh()
                &&& final(ctx).provider.data.wf()
                &&& final(ctx).provider.key == old(ctx).provider.key
                &&& final(ctx).seller == old(ctx).seller
                &&& final(ctx).buyer == old(ctx).buyer
                &&& actions@ == buy_provider_actions(*old(ctx))
            },
            Err(e) => {
                &&& buy_provider_error(*old(ctx)) == Some(e)
                &&& *final(ctx) == *old(ctx)
            },
        },
{
    if !ctx.provider.data.flags.for_sale {
        return Err(CustomError::SellingNotAllowed);
    }
    if ctx.provider.data.authority != ctx.seller {
        return Err(CustomError::ConstraintViolation);
    }
    let mut actions: Vec<Action> = Vec::new();
    actions.push(
        Action::Transfer {
            from: ctx.buyer,
            to: ctx.seller,
            amount: ctx.provider.data.selling_price,
        },
    );
    assert(actions@ =~= buy_provider_actions(*ctx));
    ctx.provider.data.authority = ctx.buyer;
    ctx.provider.data.flags = ProviderFlags::fresh();
    ctx.provider.data.treasury = params.provider_treasury;
    ctx.provider.data.registration_fee = params.registration_fee;
    ctx.provider.data.validator_count = 0;
    ctx.provider.data.selling_price = 0;
    ctx.provider.data.uri = params.uri;
    Ok(actions)
}

} // verus!
