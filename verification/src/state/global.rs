//! The configuration of the registry.

use vstd::prelude::*;
use crate::address::Address;

verus! {

/// The configuration of the registry. There is one, and only its authority
/// changes it.
#[derive(Clone, Copy, Debug, PartialEq, Eq)]
pub struct Global {
    /// The account that may change the configuration.
    pub authority: Address,
    /// The account that collects the fees of the registry.
    pub treasury: Address,
    /// The fee for issuing or voiding an identity.
    pub service_fee: u64,
    /// The fee for creating a provider.
    pub provider_creation_fee: u64,
}

impl Global {
    /// The size in bytes of the record that stores the configuration: a tag
    /// of eight bytes, a nonce of one, two addresses, two fees, and 128 bytes
    /// kept free.
    pub fn len() -> (n: usize)
        ensures
            n == 217,
    {
        8 + 1 + 32 + 32 + 8 + 8 + 128
    }
}

} // verus!
