//! Accounting core of a fungible-token ledger.
//!
//! A single [`ledger::Erc20`] value owns the total supply, the balance
//! mapping and the allowance mapping, and exposes the transition rules
//! (transfer, approve, transfer-on-behalf) that mutate that record while
//! conserving total value.  The hosting environment supplies the caller's
//! identity explicitly and delivers the notification records that each
//! successful mutation appends to the ledger's event log.

pub mod account;
pub mod allowances;
pub mod balances;
pub mod event;
pub mod ledger;

pub use account::AccountId;
pub use account::Balance;
pub use event::Approval;
pub use event::Event;
pub use event::Transfer;
pub use ledger::Erc20;
pub use ledger::Error;
