//! Providers.

use vstd::prelude::*;
use vstd::string::StringSliceAdditionalSpecFns;
use vstd::utf8::encode_utf8;
use crate::address::Address;
use crate::flags::ProviderFlags;

verus! {

/// A provider: the owner of a name under which identities are issued.
#[derive(Clone, Debug, PartialEq, Eq)]
pub struct Provider {
    /// The state of the provider.
    pub flags: ProviderFlags,
    /// The account that manages the provider.
    pub authority: Address,
    /// The account that collects the registration fees.
    pub treasury: Address,
    /// The fee for an identity, unless a validator sets another.
    pub registration_fee: u64,
    /// How many validators the provider has.
    pub validator_count: u32,
    /// The price at which the provider is sold while it is for sale.
    pub selling_price: u64,
    /// The name of the provider. No two providers share a name, and a name
    /// never changes.
    pub name: String,
    /// Where the provider's details can be found.
    pub uri: String,
}

impl Provider {
    /// The state of a provider hangs together: a provider for sale is
    /// enabled, unpublished and without validators, and a provider is marked
    /// as having a validator exactly if it has one.
    pub open spec fn wf(self) -> bool {
        &&& self.flags.for_sale ==> self.flags.enabled && !self.flags.published
            && self.validator_count == 0
        &&& self.flags.has_validator <==> self.validator_count > 0
    }

    /// The size in bytes of the record that stores a provider with the given
    /// name and uri: a tag of eight bytes, a nonce of one, the flags in two,
    /// two addresses, the fee, the validator count, the price, thirty-two
    /// bytes kept free, and each string in UTF-8 behind its length in four.
    pub open spec fn spec_len(name: Seq<char>, uri: Seq<char>) -> nat {
        8 + 1 + 2 + 32 + 32 + 8 + 4 + 8 + 32 + (4 + encode_utf8(name).len()) + (4 + encode_utf8(
            uri,
        ).len())
    }

    /// The size in bytes of the record that stores a provider with the given
    /// name and uri.
    pub fn len(name: &String, uri: &String) -> (n: usize)
        requires
            Self::spec_len(name@, uri@) <= usize::MAX,
        ensures
            n == Self::spec_len(name@, uri@),
    {
        8 + 1 + 2 + 32 + 32 + 8 + 4 + 8 + 32 + (4 + name.as_str().len()) + (4 + uri.as_str().len())
    }
}

} // verus!
