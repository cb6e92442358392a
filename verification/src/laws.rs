//! What holds of the registry whatever the requests: laws that relate the
//! outcomes of several requests, or of all requests of a kind.

use vstd::prelude::*;
use vstd::utf8::encode_utf8;
use crate::address::Address;
use crate::error::CustomError;
use crate::flags::ProviderFlags;
use crate::instructions::buy_provider::{bought_provider, BuyProviderParams};
use crate::instructions::create_bindie::{
    bindie_link_key,
    create_bindie_error,
    create_bindie_links,
    CreateBindie,
    CreateBindieParams,
};
use crate::instructions::create_identity::{
    create_identity_error,
    create_identity_links,
    CreateIdentity,
    CreateIdentityParams,
};
use crate::instructions::update_provider::{
    may_sell,
    update_provider_error,
    update_provider_result,
    with_sale_terms,
    UpdateProvider,
    UpdateProviderParams,
};
use crate::instructions::void_bindie::{
    void_bindie_error,
    void_bindie_link_key,
    VoidBindie,
    VoidBindieParams,
};
use crate::instructions::void_identity::{
    void_identity_error,
    void_identity_link_key,
    VoidIdentity,
    VoidIdentityParams,
};
use crate::ledger::LinkKey;
use crate::state::bindie::spec_data_hash;
use crate::state::identity::spec_id_hash;
use crate::state::link::Link;
use crate::state::provider::Provider;

verus! {

/// No identity is guarded by two live links.
pub open spec fn one_link_per_identity(links: Map<LinkKey, Link>) -> bool {
    forall|j: LinkKey, k: LinkKey|
        #![trigger links[j], links[k]]
        links.contains_key(j) && links.contains_key(k) && links[j].identity == links[k].identity
            ==> j == k
}

/// Whether a live link guards the identity at the address.
pub open spec fn guarded(links: Map<LinkKey, Link>, identity: Address) -> bool {
    exists|k: LinkKey| #[trigger] links.contains_key(k) && links[k].identity == identity
}

/// Once a bindie has been issued, a request for a bindie of the same
/// provider and data is rejected, whoever makes it and whenever: a link for
/// them exists.
pub proof fn lemma_second_bindie_rejected(
    links: Map<LinkKey, Link>,
    first: CreateBindie,
    first_params: CreateBindieParams,
    second: CreateBindie,
    second_params: CreateBindieParams,
)
    requires
        create_bindie_error(links, first, first_params) is None,
        second.provider.key == first.provider.key,
        second_params.data@ == first_params.data@,
    ensures
        create_bindie_error(create_bindie_links(links, first, first_params), second, second_params)
            == Some(CustomError::AlreadyExists),
{
}

/// Once an identity has been issued, a request for an identity of the same
/// provider and identifier is rejected, whoever makes it and whenever: a
/// link for them exists.
pub proof fn lemma_second_identity_rejected(
    links: Map<LinkKey, Link>,
    first: CreateIdentity,
    first_params: CreateIdentityParams,
    second: CreateIdentity,
    second_params: CreateIdentityParams,
)
    requires
        create_identity_error(links, first, first_params) is None,
        second.provider.key == first.provider.key,
        second_params.id@ == first_params.id@,
    ensures
        create_identity_error(
            create_identity_links(links, first, first_params),
            second,
            second_params,
        ) == Some(CustomError::AlreadyExists),
{
}

/// Issuing a bindie into a record that no live link guards keeps every
/// identity guarded by one link at most.
pub proof fn lemma_bindie_keeps_one_link_per_identity(
    links: Map<LinkKey, Link>,
    ctx: CreateBindie,
    params: CreateBindieParams,
)
    requires
        one_link_per_identity(links),
        !guarded(links, ctx.bindie.key),
        create_bindie_error(links, ctx, params) is None,
    ensures
        one_link_per_identity(create_bindie_links(links, ctx, params)),
{
    let after = create_bindie_links(links, ctx, params);
    let new = bindie_link_key(ctx.provider.key, params.data@);
    assert forall|j: LinkKey, k: LinkKey|
        after.contains_key(j) && after.contains_key(k) && after[j].identity
            == after[k].identity implies j == k by {
        if j != new && k != new {
            assert(links.contains_key(j) && links.contains_key(k));
            assert(links[j].identity == links[k].identity);
        } else if j != new {
            assert(links.contains_key(j) && links[j].identity == ctx.bindie.key);
        } else if k != new {
            assert(links.contains_key(k) && links[k].identity == ctx.bindie.key);
        }
    }
}

/// Issuing an identity into a record that no live link guards keeps every
/// identity guarded by one link at most.
pub proof fn lemma_identity_keeps_one_link_per_identity(
    links: Map<LinkKey, Link>,
    ctx: CreateIdentity,
    params: CreateIdentityParams,
)
    requires
        one_link_per_identity(links),
        !guarded(links, ctx.identity.key),
        create_identity_error(links, ctx, params) is None,
    ensures
        one_link_per_identity(create_identity_links(links, ctx, params)),
{
    let after = create_identity_links(links, ctx, params);
    let new = (ctx.provider.key, params.id@);
    assert forall|j: LinkKey, k: LinkKey|
        after.contains_key(j) && after.contains_key(k) && after[j].identity
            == after[k].identity implies j == k by {
        if j != new && k != new {
            assert(links.contains_key(j) && links.contains_key(k));
            assert(links[j].identity == links[k].identity);
        } else if j != new {
            assert(links.contains_key(j) && links[j].identity == ctx.identity.key);
        } else if k != new {
            assert(links.contains_key(k) && links[k].identity == ctx.identity.key);
        }
    }
}

/// Closing a link keeps every identity guarded by one link at most.
pub proof fn lemma_closing_keeps_one_link_per_identity(links: Map<LinkKey, Link>, closed: LinkKey)
    requires
        one_link_per_identity(links),
    ensures
        one_link_per_identity(links.remove(closed)),
{
    let after = links.remove(closed);
    assert forall|j: LinkKey, k: LinkKey|
        after.contains_key(j) && after.contains_key(k) && after[j].identity
            == after[k].identity implies j == k by {
        assert(links.contains_key(j) && links.contains_key(k));
        assert(links[j].identity == links[k].identity);
    }
}

/// A bindie whose link has been closed cannot be voided through that link
/// again.
pub proof fn lemma_void_bindie_once(
    links: Map<LinkKey, Link>,
    first: VoidBindie,
    first_params: VoidBindieParams,
    second: VoidBindie,
    second_params: VoidBindieParams,
)
    requires
        void_bindie_error(links, first, first_params) is None,
        void_bindie_link_key(second) == void_bindie_link_key(first),
    ensures
        void_bindie_error(links.remove(void_bindie_link_key(first)), second, second_params)
            is Some,
{
}

/// An identity whose link has been closed cannot be voided through that
/// link again.
pub proof fn lemma_void_identity_once(
    links: Map<LinkKey, Link>,
    first: VoidIdentity,
    first_params: VoidIdentityParams,
    second: VoidIdentity,
    second_params: VoidIdentityParams,
)
    requires
        void_identity_error(links, first, first_params) is None,
        void_identity_link_key(second) == void_identity_link_key(first),
    ensures
        void_identity_error(links.remove(void_identity_link_key(first)), second, second_params)
            is Some,
{
}

/// Once a bindie has been voided, its provider and data can be bound again:
/// a request for them that presents an empty record is no longer rejected
/// because something exists.
pub proof fn lemma_voided_data_is_free(
    links: Map<LinkKey, Link>,
    void: VoidBindie,
    void_params: VoidBindieParams,
    ctx: CreateBindie,
    params: CreateBindieParams,
)
    requires
        void_bindie_error(links, void, void_params) is None,
        bindie_link_key(ctx.provider.key, params.data@) == void_bindie_link_key(void),
        ctx.bindie.data is None,
    ensures
        create_bindie_error(links.remove(void_bindie_link_key(void)), ctx, params) != Some(
            CustomError::AlreadyExists,
        ),
{
}

/// A request to void a bindie that no live link guards is rejected,
/// whatever link it names.
pub proof fn lemma_unguarded_bindie_stays_void(
    links: Map<LinkKey, Link>,
    ctx: VoidBindie,
    params: VoidBindieParams,
)
    requires
        !guarded(links, ctx.bindie.key),
    ensures
        void_bindie_error(links, ctx, params) is Some,
{
    let k = void_bindie_link_key(ctx);
    if links.contains_key(k) {
        assert(links[k].identity != ctx.bindie.key);
    }
}

/// Where every identity is guarded by one link at most, a bindie that has
/// been voided is guarded by none: every later request to void it is
/// rejected, whatever link it names, as long as no link is filed for it
/// again.
pub proof fn lemma_voided_bindie_is_unguarded(
    links: Map<LinkKey, Link>,
    ctx: VoidBindie,
    params: VoidBindieParams,
)
    requires
        one_link_per_identity(links),
        void_bindie_error(links, ctx, params) is None,
    ensures
        !guarded(links.remove(void_bindie_link_key(ctx)), ctx.bindie.key),
{
    let closed = void_bindie_link_key(ctx);
    let after = links.remove(closed);
    assert(links.contains_key(closed) && links[closed].identity == ctx.bindie.key);
    assert forall|k: LinkKey| after.contains_key(k) implies after[k].identity
        != ctx.bindie.key by {
        if links[k].identity == ctx.bindie.key {
            assert(links.contains_key(k));
            assert(links[k].identity == links[closed].identity);
        }
    }
}

/// A request to void an identity that no live link guards is rejected,
/// whatever link it names.
pub proof fn lemma_unguarded_identity_stays_void(
    links: Map<LinkKey, Link>,
    ctx: VoidIdentity,
    params: VoidIdentityParams,
)
    requires
        !guarded(links, ctx.identity.key),
    ensures
        void_identity_error(links, ctx, params) is Some,
{
    let k = void_identity_link_key(ctx);
    if links.contains_key(k) {
        assert(links[k].identity != ctx.identity.key);
    }
}

/// Where every identity is guarded by one link at most, an identity that
/// has been voided is guarded by none: every later request to void it is
/// rejected, whatever link it names, as long as no link is filed for it
/// again.
pub proof fn lemma_voided_identity_is_unguarded(
    links: Map<LinkKey, Link>,
    ctx: VoidIdentity,
    params: VoidIdentityParams,
)
    requires
        one_link_per_identity(links),
        void_identity_error(links, ctx, params) is None,
    ensures
        !guarded(links.remove(void_identity_link_key(ctx)), ctx.identity.key),
{
    let closed = void_identity_link_key(ctx);
    let after = links.remove(closed);
    assert(links.contains_key(closed) && links[closed].identity == ctx.identity.key);
    assert forall|k: LinkKey| after.contains_key(k) implies after[k].identity
        != ctx.identity.key by {
        if links[k].identity == ctx.identity.key {
            assert(links.contains_key(k));
            assert(links[k].identity == links[closed].identity);
        }
    }
}

/// The hash under which data is stored depends on the provider's name and
/// the data alone: the same name and data give the same hash.
pub proof fn lemma_data_hash_is_a_function(
    name: Seq<char>,
    data: Seq<char>,
    other_name: Seq<char>,
    other_data: Seq<char>,
)
    requires
        name == other_name,
        data == other_data,
    ensures
        spec_data_hash(name, data) == spec_data_hash(other_name, other_data),
        spec_id_hash(name, encode_utf8(data)) == spec_id_hash(other_name, encode_utf8(other_data)),
{
}

/// A provider is put up for sale exactly if it is enabled, unpublished and
/// without validators; the request is otherwise rejected because selling is
/// not allowed.
pub proof fn lemma_for_sale_guard(ctx: UpdateProvider, params: UpdateProviderParams)
    requires
        ctx.provider.data.authority == ctx.authority,
        params.for_sale == Some(true),
    ensures
        update_provider_error(ctx, params) is None <==> may_sell(ctx.provider.data),
        update_provider_error(ctx, params) is Some ==> update_provider_error(ctx, params) == Some(
            CustomError::SellingNotAllowed,
        ),
        update_provider_error(ctx, params) is None ==> update_provider_result(
            ctx.provider.data,
            params,
        ).flags.for_sale,
{
}

/// A request to publish a provider that is not for sale leaves it published
/// exactly if it has metadata.
pub proof fn lemma_publish_guard(p: Provider, params: UpdateProviderParams)
    requires
        params.published == Some(true),
        !with_sale_terms(p, params).flags.for_sale,
    ensures
        update_provider_result(p, params).flags.published <==> p.flags.has_metadata,
{
}

/// A provider for sale stays unpublished whatever a request asks about
/// publishing, as long as it stays for sale.
pub proof fn lemma_for_sale_stays_unpublished(p: Provider, params: UpdateProviderParams)
    requires
        p.wf(),
        with_sale_terms(p, params).flags.for_sale,
        params.for_sale == Some(true) ==> may_sell(p),
    ensures
        !update_provider_result(p, params).flags.published,
{
}

/// Whatever a provider was before it was bought, it is afterwards the
/// buyer's, enabled and nothing else, without validators and without a
/// price.
pub proof fn lemma_sale_resets(p: Provider, buyer: Address, params: BuyProviderParams)
    ensures
        bought_provider(p, buyer, params).authority == buyer,
        bought_provider(p, buyer, params).validator_count == 0,
        bought_provider(p, buyer, params).selling_price == 0,
        bought_provider(p, buyer, params).flags == ProviderFlags::spec_fresh(),
        bought_provider(p, buyer, params).flags.spec_bits() == 1,
        bought_provider(p, buyer, params).name == p.name,
{
    assert(1u16 | 0u16 | 0u16 | 0u16 | 0u16 | 0u16 == 1u16) by (bit_vector);
}

} // verus!
