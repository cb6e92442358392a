//! Identities that keep their data, or its hash, as text.

use vstd::prelude::*;
use vstd::utf8::{encode_utf8, is_char_boundary};
use vstd::string::StringSliceAdditionalSpecFns;
use crate::address::Address;
use crate::hash::{hash_base58, hash_to_string, hashv3, hashv_digest};

verus! {

/// A bindie: the proof that some data belongs to an account. It is never
/// erased; it is void once its link is closed.
#[derive(Clone, Debug, PartialEq, Eq)]
pub struct Bindie {
    /// The account that the data belongs to.
    pub owner: Address,
    /// The provider that issued the bindie.
    pub provider: Address,
    /// When the bindie was issued, in seconds since the epoch.
    pub timestamp: u64,
    /// How often the data was hashed before it was stored: with 0 the data
    /// is stored as it came, otherwise its hash is.
    pub encryption_count: u8,
    /// The data, or its hash.
    pub data: String,
}

/// The hash under which data is stored for a provider: SHA-256 of the
/// provider's name, a colon and the data, both in UTF-8, written in Base58.
pub open spec fn spec_data_hash(provider_name: Seq<char>, data: Seq<char>) -> Seq<char> {
    hash_base58(hashv_digest(seq![encode_utf8(provider_name), seq![58u8], encode_utf8(data)]))
}

/// What a bindie stores of its data: the data where the encryption count is
/// 0, and else the hash of the data for the provider.
pub open spec fn stored_data(encryption_count: u8, provider_name: Seq<char>, data: Seq<char>) -> Seq<
    char,
> {
    if encryption_count == 0 {
        data
    } else {
        spec_data_hash(provider_name, data)
    }
}

/// The part of some bytes that serves as a component of an address: all of
/// them, or the first thirty-two.
pub open spec fn spec_crop(bytes: Seq<u8>) -> Seq<u8> {
    if bytes.len() > 32 {
        bytes.subrange(0, 32)
    } else {
        bytes
    }
}

impl Bindie {
    /// The size in bytes of the record that stores a bindie with the given
    /// data: a tag of eight bytes, a nonce of one, two addresses, the
    /// timestamp, the encryption count, and the data in UTF-8 behind its
    /// length in four.
    pub open spec fn spec_len(data: Seq<char>) -> nat {
        8 + 1 + 32 + 32 + 8 + 1 + (4 + encode_utf8(data).len())
    }

    /// The size in bytes of the record that stores a bindie with the given
    /// data.
    pub fn len(data: String) -> (n: usize)
        requires
            Self::spec_len(data@) <= usize::MAX,
        ensures
            n == Self::spec_len(data@),
    {
        8 + 1 + 32 + 32 + 8 + 1 + (4 + data.as_str().len())
    }

    /// The hash under which data is stored for the provider of the given
    /// name.
    pub fn data_hash(provider_name: &String, data: &String) -> (hash: String)
        ensures
            hash@ == spec_data_hash(provider_name@, data@),
    {
        let colon: [u8; 1] = [58u8];
        let digest = hashv3(
            provider_name.as_str().as_bytes(),
            colon.as_slice(),
            data.as_str().as_bytes(),
        );
        assert(colon@ =~= seq![58u8]);
        hash_to_string(digest)
    }

    /// What a bindie of the provider of the given name stores of its data:
    /// the data where the encryption count is 0, and else its hash, however
    /// large the count.
    pub fn stored(provider_name: &String, encryption_count: u8, data: String) -> (kept: String)
        ensures
            kept@ == stored_data(encryption_count, provider_name@, data@),
    {
        if encryption_count == 0 {
            data
        } else {
            Self::data_hash(provider_name, &data)
        }
    }

    /// The part of the data that serves as a component of an address: all of
    /// it, or its first thirty-two bytes. They must end with a character.
    pub fn crop(data: &String) -> (cropped: String)
        requires
            encode_utf8(data@).len() > 32 ==> is_char_boundary(encode_utf8(data@), 32),
        ensures
            encode_utf8(cropped@) == spec_crop(encode_utf8(data@)),
            encode_utf8(data@).len() <= 32 ==> cropped@ == data@,
    {
        let text = data.as_str();
        if text.as_bytes().len() > 32 {
            let (head, _) = text.split_at(32);
            head.to_owned()
        } else {
            data.clone()
        }
    }
}

} // verus!
