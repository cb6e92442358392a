//! The metadata of a provider.

use vstd::prelude::*;
use vstd::utf8::encode_utf8;

verus! {

/// The metadata of a provider: where its description can be found. A
/// provider has at most one.
#[derive(Clone, Debug, PartialEq, Eq)]
pub struct ProviderMetadata {
    /// Where the description of the provider can be found.
    pub uri: String,
}

impl ProviderMetadata {
    /// The size in bytes of the record that stores metadata with the given
    /// uri: a tag of eight bytes, a nonce of one, and the uri in UTF-8 behind
    /// its length in four.
    pub open spec fn spec_len(uri: Seq<char>) -> nat {
        8 + 1 + (4 + encode_utf8(uri).len())
    }

    /// The size in bytes of the record that stores metadata with the given
    /// uri.
    pub fn len(uri: &String) -> (n: usize)
        requires
            Self::spec_len(uri@) <= usize::MAX,
        ensures
            n == Self::spec_len(uri@),
    {
        8 + 1 + (4 + uri.as_str().len())
    }
}

} // verus!
