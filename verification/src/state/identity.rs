//! Identities that keep the hash of their identifier.

use vstd::prelude::*;
use vstd::utf8::encode_utf8;
use vstd::string::StringSliceAdditionalSpecFns;
use crate::address::Address;
use crate::hash::{hashv3, hashv_digest};

verus! {

/// An identity: the proof that an identifier belongs to an account. It
/// keeps the hash of the identifier, never the identifier. It is never
/// erased; it is void once its link is closed.
#[derive(Clone, Copy, Debug, PartialEq, Eq)]
pub struct Identity {
    /// The hash of the provider's name, a colon and the identifier.
    pub id: [u8; 32],
    /// The account that the identifier belongs to.
    pub owner: Address,
    /// The provider that issued the identity.
    pub provider: Address,
    /// When the identity was issued, in seconds since the epoch.
    pub timestamp: u64,
}

/// The hash that an identity keeps of an identifier: SHA-256 of the
/// provider's name in UTF-8, a colon and the identifier.
pub open spec fn spec_id_hash(provider_name: Seq<char>, id: Seq<u8>) -> Seq<u8> {
    hashv_digest(seq![encode_utf8(provider_name), seq![58u8], id])
}

impl Identity {
    /// The hash that an identity of the provider of the given name keeps of
    /// an identifier.
    pub fn id_hash(provider_name: &String, id: &[u8]) -> (hash: [u8; 32])
        ensures
            hash@ == spec_id_hash(provider_name@, id@),
    {
        let colon: [u8; 1] = [58u8];
        assert(colon@ =~= seq![58u8]);
        hashv3(provider_name.as_str().as_bytes(), colon.as_slice(), id)
    }

    /// The size in bytes of the record that stores an identity: a tag of
    /// eight bytes, a nonce of one, the hash, two addresses, and the
    /// timestamp.
    pub fn len() -> (n: usize)
        ensures
            n == 113,
    {
        8 + 1 + 32 + 32 + 32 + 8
    }
}

} // verus!
