//! Notification records emitted to external observers.
//!
//! Each successful mutation appends exactly one record to the ledger's
//! event log; the hosting boundary layer is responsible for delivering
//! them.  The ledger itself performs no I/O.

use vstd::prelude::*;

use crate::account::AccountId;
use crate::account::Balance;

verus! {

/// A value movement.  `from` is `None` only for the genesis issuance at
/// construction time; every ordinary transfer carries `Some` sender.
#[derive(PartialEq, Eq, Clone, Copy, Debug)]
pub struct Transfer {
    pub from: Option<AccountId>,
    pub to: AccountId,
    pub value: Balance,
}

/// A delegation: `owner` authorized `spender` to move up to `value` on
/// the owner's behalf.
#[derive(PartialEq, Eq, Clone, Copy, Debug)]
pub struct Approval {
    pub owner: AccountId,
    pub spender: AccountId,
    pub value: Balance,
}

/// One notification record, of either shape.
#[derive(PartialEq, Eq, Clone, Copy, Debug)]
pub enum Event {
    Transfer(Transfer),
    Approval(Approval),
}

} // verus!
