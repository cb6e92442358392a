//! Hashing, as the host's library does it.

use vstd::prelude::*;

verus! {

/// The SHA-256 digest that `anchor_lang::solana_program::hash::hashv`
/// returns for the given byte strings, taken in their order.
pub uninterp spec fn hashv_digest(vals: Seq<Seq<u8>>) -> Seq<u8>;

/// The text that `anchor_lang::solana_program::hash::Hash` is displayed as
/// when it holds the given bytes: their Base58 encoding.
pub uninterp spec fn hash_base58(bytes: Seq<u8>) -> Seq<char>;

/// Calls `anchor_lang::solana_program::hash::hashv` on three byte strings.
///
/// Not proved: that the digest is a function of the three byte strings and
/// of nothing else. The function feeds them to a SHA-256 hasher one after
/// the other and returns the thirty-two bytes that come out.
#[verifier::external_body]
pub(crate) fn hashv3(a: &[u8], b: &[u8], c: &[u8]) -> (digest: [u8; 32])
    ensures
        digest@ == hashv_digest(seq![a@, b@, c@]),
{
    anchor_lang::solana_program::hash::hashv(&[a, b, c]).to_bytes()
}

/// Calls `to_string` on an `anchor_lang::solana_program::hash::Hash` that
/// holds the given bytes.
///
/// Not proved: that the text is a function of the bytes and of nothing
/// else. The hash is displayed as the Base58 encoding of its bytes.
#[verifier::external_body]
pub(crate) fn hash_to_string(bytes: [u8; 32]) -> (text: String)
    ensures
        text@ == hash_base58(bytes@),
{
    anchor_lang::solana_program::hash::Hash::new_from_array(bytes).to_string()
}

} // verus!
