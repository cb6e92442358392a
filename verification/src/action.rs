//! What the host carries out once a request has been accepted.

use vstd::prelude::*;
use crate::address::Address;

verus! {

/// One step that the host performs for an accepted request. The steps of a
/// request are performed in the order given, and together with the new state
/// of the accounts: if one of them fails, none of it takes effect.
#[derive(Clone, Copy, Debug, PartialEq, Eq)]
pub enum Action {
    /// Move `amount` from the account `from` to the account `to`.
    Transfer { from: Address, to: Address, amount: u64 },
    /// Hand the deposit of the record that the request closed to `to`.
    Refund { to: Address },
}

} // verus!
