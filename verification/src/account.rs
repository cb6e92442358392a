//! A record together with the address it is stored at.

use vstd::prelude::*;
use crate::address::Address;

verus! {

/// A record as the host presents it: the address it is stored at, and what
/// it holds.
#[derive(Clone, Debug, PartialEq, Eq)]
pub struct Account<T> {
    pub key: Address,
    pub data: T,
}

} // verus!
