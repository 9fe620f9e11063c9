//! The principal identifiers and amounts the ledger accounts for.

use vstd::prelude::*;

verus! {

/// An opaque, comparable, hashable value uniquely identifying a principal
/// (an owner or a spender).  No internal structure is assumed beyond
/// equality and hashing.
#[derive(PartialEq, Eq, Structural, Clone, Copy, Debug, Hash)]
pub struct AccountId(pub u64);

/// An exact, unsigned token amount, wide enough to hold the full supply.
pub type Balance = u128;

} // verus!
