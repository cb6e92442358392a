//! Validators.

use vstd::prelude::*;
use crate::address::Address;
use crate::flags::ValidatorFlags;

verus! {

/// A validator: a delegate of one provider, whose signer attests requests on
/// the provider's behalf.
#[derive(Clone, Copy, Debug, PartialEq, Eq)]
pub struct Validator {
    /// What the validator is permitted to do.
    pub flags: ValidatorFlags,
    /// The provider that the validator belongs to.
    pub provider: Address,
    /// The account that signs for the validator.
    pub signer: Address,
}

impl Validator {
    /// The size in bytes of the record that stores a validator: a tag of
    /// eight bytes, a nonce of one, the flags in one, and two addresses.
    pub fn len() -> (n: usize)
        ensures
            n == 74,
    {
        8 + 1 + 1 + 32 + 32
    }
}

} // verus!
