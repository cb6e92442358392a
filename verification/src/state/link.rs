//! Links.

use vstd::prelude::*;
use crate::address::Address;

verus! {

/// A link: the guard of one identity. There is at most one link for a
/// provider and an identifier, and an identity is live as long as its link
/// is.
#[derive(Clone, Copy, Debug, PartialEq, Eq)]
pub struct Link {
    /// The identity that the link guards.
    pub identity: Address,
}

impl Link {
    /// The size in bytes of the record that stores a link: a tag of eight
    /// bytes, a nonce of one, and an address.
    pub fn len() -> (n: usize)
        ensures
            n == 41,
    {
        8 + 1 + 32
    }
}

} // verus!
