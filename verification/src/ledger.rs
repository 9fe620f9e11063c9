//! The ledger itself: total supply, balances, allowances, and the
//! transition rules that mutate them.
//!
//! Every mutating operation is atomic: it either applies completely —
//! and appends exactly one notification record to the event log — or it
//! fails with a typed error and leaves the ledger exactly as it was.
//! The hosting environment authenticates callers and passes the caller's
//! identity in explicitly; the ledger never discovers identity itself.

use vstd::prelude::*;
use vstd::string::StringExecFns;

use crate::account::AccountId;
use crate::account::Balance;
use crate::allowances;
use crate::balances;
use crate::event::Approval;
use crate::event::Event;
use crate::event::Transfer;

verus! {

/// The only failure modes the ledger has.  Malformed inputs such as
/// self-transfers are not rejected here; handling them, if at all, is the
/// caller's concern.
#[derive(Debug, PartialEq, Eq, Clone, Copy)]
pub enum Error {
    /// The debited account holds less than the requested amount.
    InsufficientBalance,
    /// The spender's remaining allowance is less than the requested amount.
    InsufficientAllowance,
}

/// A fungible-token ledger: a fixed total supply, the sparse balance and
/// allowance stores, and the log of notification records emitted so far.
pub struct Erc20 {
    /// Fixed at construction; no operation mints or burns.
    pub total_supply: Balance,
    /// Sparse balance store; an absent account holds 0.
    pub balances: Vec<(AccountId, Balance)>,
    /// Sparse allowance store keyed by (owner, spender); absent means 0.
    pub allowances: Vec<(AccountId, AccountId, Balance)>,
    /// Notification records appended by successful mutations, oldest first.
    pub events: Vec<Event>,
}

impl Erc20 {
    /// The balance the ledger records for `a`.
    pub open spec fn balance_spec(self, a: AccountId) -> Balance {
        balances::lookup(self.balances@, a)
    }

    /// The allowance the ledger records for spender `p` on owner `o`.
    pub open spec fn allowance_spec(self, o: AccountId, p: AccountId) -> Balance {
        allowances::lookup(self.allowances@, o, p)
    }

    /// Well-formedness: both stores have distinct keys, and the stored
    /// balances sum to the total supply — conservation of value.
    pub open spec fn wf(self) -> bool {
        &&& balances::unique_keys(self.balances@)
        &&& allowances::unique_keys(self.allowances@)
        &&& balances::total(self.balances@) == self.total_supply as int
    }

    /// What `transfer` returns, as a function of the pre-call state.
    pub open spec fn transfer_outcome(self, caller: AccountId, value: Balance) -> Result<(), Error> {
        if self.balance_spec(caller) < value {
            Err(Error::InsufficientBalance)
        } else {
            Ok(())
        }
    }

    /// What `approve` returns, as a function of the pre-call state.
    pub open spec fn approve_outcome(self, caller: AccountId, value: Balance) -> Result<(), Error> {
        if self.balance_spec(caller) < value {
            Err(Error::InsufficientBalance)
        } else {
            Ok(())
        }
    }

    /// What `transfer_from` returns, as a function of the pre-call state.
    /// The allowance gate is checked before the balance gate.
    pub open spec fn transfer_from_outcome(
        self,
        caller: AccountId,
        from: AccountId,
        value: Balance,
    ) -> Result<(), Error> {
        if self.allowance_spec(from, caller) < value {
            Err(Error::InsufficientAllowance)
        } else if self.balance_spec(from) < value {
            Err(Error::InsufficientBalance)
        } else {
            Ok(())
        }
    }

    /// Creates the ledger, crediting the entire supply to the creating
    /// principal and recording the genesis issuance as a transfer from
    /// `None` — a sentinel never reused by ordinary transfers.
    pub fn new(caller: AccountId, total_supply: Balance) -> (r: Erc20)
        ensures
            r.wf(),
            r.total_supply == total_supply,
            forall|a: AccountId| #[trigger] r.balance_spec(a) == if a == caller {
                total_supply
            } else {
                0 as Balance
            },
            forall|o: AccountId, p: AccountId| #[trigger] r.allowance_spec(o, p) == 0,
            r.events@ == seq![
                Event::Transfer((Transfer { from: None, to: caller, value: total_supply })),
            ],
    {
        let mut bals: Vec<(AccountId, Balance)> = Vec::new();
        bals.push((caller, total_supply));
        let mut evs: Vec<Event> = Vec::new();
        evs.push(Event::Transfer(Transfer { from: None, to: caller, value: total_supply }));
        let r = Erc20 { total_supply, balances: bals, allowances: Vec::new(), events: evs };
        proof {
            reveal_with_fuel(balances::lookup, 2);
            reveal_with_fuel(balances::total, 2);
            assert(r.balances@ =~= Seq::<(AccountId, Balance)>::empty().push(
                (caller, total_supply),
            ));
            assert(r.balances@.drop_first() =~= Seq::<(AccountId, Balance)>::empty());
            assert(r.events@ =~= seq![
                Event::Transfer((Transfer { from: None, to: caller, value: total_supply })),
            ]);
        }
        r
    }

    /// The token's display name.
    pub fn name(&self) -> (r: String)
        ensures
            r@ == "my-token"@,
    {
        String::from_str("my-token")
    }

    /// The token's ticker symbol.
    pub fn symbol(&self) -> (r: String)
        ensures
            r@ == "BTCF"@,
    {
        String::from_str("BTCF")
    }

    /// Display-level decimal places; a presentation concern only, never
    /// consulted by the ledger arithmetic.
    pub fn decimals(&self) -> (r: u8)
        ensures
            r == 8,
    {
        8
    }

    /// The fixed total supply.
    pub fn total_supply(&self) -> (r: Balance)
        ensures
            r == self.total_supply,
    {
        self.total_supply
    }

    /// The balance of `owner`, 0 for an account never credited.  Never fails.
    pub fn balance_of(&self, owner: AccountId) -> (r: Balance)
        ensures
            r == self.balance_spec(owner),
    {
        self.balance_of_impl(&owner)
    }

    fn balance_of_impl(&self, owner: &AccountId) -> (r: Balance)
        ensures
            r == self.balance_spec(*owner),
    {
        balances::get(&self.balances, *owner)
    }

    /// The allowance of `spender` on `owner`, 0 when none was ever set.
    /// Never fails.
    pub fn allowance(&self, owner: AccountId, spender: AccountId) -> (r: Balance)
        ensures
            r == self.allowance_spec(owner, spender),
    {
        self.allowance_impl(&owner, &spender)
    }

    fn allowance_impl(&self, owner: &AccountId, spender: &AccountId) -> (r: Balance)
        ensures
            r == self.allowance_spec(*owner, *spender),
    {
        allowances::get(&self.allowances, *owner, *spender)
    }

    /// The notification records emitted so far, oldest first.
    pub fn events(&self) -> (r: &Vec<Event>)
        ensures
            r@ == self.events@,
    {
        &self.events
    }

    /// Moves `value` from the caller to `to`.  Fails with
    /// `InsufficientBalance`, changing nothing, when the caller holds less
    /// than `value`; otherwise debits the caller, credits `to`, and emits
    /// one transfer record.  A zero-value transfer succeeds and still
    /// emits its record.
    pub fn transfer(&mut self, caller: AccountId, to: AccountId, value: Balance) -> (r: Result<
        (),
        Error,
    >)
        requires
            old(self).wf(),
        ensures
            final(self).wf(),
            final(self).total_supply == old(self).total_supply,
            r == old(self).transfer_outcome(caller, value),
            r is Err ==> *final(self) == *old(self),
            r is Ok ==> {
                &&& forall|a: AccountId|
                    #[trigger] final(self).balance_spec(a) as int == old(self).balance_spec(a) + (
                    if a == to {
                        value as int
                    } else {
                        0int
                    }) - (if a == caller {
                        value as int
                    } else {
                        0int
                    })
                &&& forall|o: AccountId, p: AccountId|
                    #[trigger] final(self).allowance_spec(o, p) == old(self).allowance_spec(o, p)
                &&& final(self).events@ == old(self).events@.push(
                    Event::Transfer((Transfer { from: Some(caller), to, value })),
                )
            },
    {
        self.transfer_from_to(&caller, &to, value)
    }

    /// Sets (overwrites, never adds to) the caller's allowance for
    /// `spender` and emits one approval record.  The caller must currently
    /// hold at least `value`: a stricter gate than an unconditional
    /// approve, and the one place the balance bounds an allowance — later
    /// transfers may still drive the balance below it.
    pub fn approve(&mut self, caller: AccountId, spender: AccountId, value: Balance) -> (r: Result<
        (),
        Error,
    >)
        requires
            old(self).wf(),
        ensures
            final(self).wf(),
            final(self).total_supply == old(self).total_supply,
            r == old(self).approve_outcome(caller, value),
            r is Err ==> *final(self) == *old(self),
            r is Ok ==> {
                &&& forall|a: AccountId|
                    #[trigger] final(self).balance_spec(a) == old(self).balance_spec(a)
                &&& forall|o: AccountId, p: AccountId|
                    #[trigger] final(self).allowance_spec(o, p) == if o == caller && p == spender {
                        value
                    } else {
                        old(self).allowance_spec(o, p)
                    }
                &&& final(self).events@ == old(self).events@.push(
                    Event::Approval((Approval { owner: caller, spender, value })),
                )
            },
    {
        let owner_balance = self.balance_of_impl(&caller);
        if owner_balance < value {
            return Err(Error::InsufficientBalance);
        }
        allowances::put(&mut self.allowances, caller, spender, value);
        self.events.push(Event::Approval(Approval { owner: caller, spender, value }));
        Ok(())
    }

    /// Moves `value` from `from` to `to` on the caller's behalf, consuming
    /// exactly `value` of the caller's allowance on `from`.  The allowance
    /// gate is checked first (`InsufficientAllowance`), then the balance
    /// gate (`InsufficientBalance`); either failure leaves the ledger —
    /// allowances included — exactly as it was.  Success emits one
    /// transfer record.
    pub fn transfer_from(
        &mut self,
        caller: AccountId,
        from: AccountId,
        to: AccountId,
        value: Balance,
    ) -> (r: Result<(), Error>)
        requires
            old(self).wf(),
        ensures
            final(self).wf(),
            final(self).total_supply == old(self).total_supply,
            r == old(self).transfer_from_outcome(caller, from, value),
            r is Err ==> *final(self) == *old(self),
            r is Ok ==> {
                &&& forall|a: AccountId|
                    #[trigger] final(self).balance_spec(a) as int == old(self).balance_spec(a) + (
                    if a == to {
                        value as int
                    } else {
                        0int
                    }) - (if a == from {
                        value as int
                    } else {
                        0int
                    })
                &&& forall|o: AccountId, p: AccountId|
                    #[trigger] final(self).allowance_spec(o, p) as int == old(self).allowance_spec(
                        o,
                        p,
                    ) - (if o == from && p == caller {
                        value as int
                    } else {
                        0int
                    })
                &&& final(self).events@ == old(self).events@.push(
                    Event::Transfer((Transfer { from: Some(from), to, value })),
                )
            },
    {
        let allowance = self.allowance_impl(&from, &caller);
        if allowance < value {
            return Err(Error::InsufficientAllowance);
        }
        match self.transfer_from_to(&from, &to, value) {
            Err(e) => Err(e),
            Ok(()) => {
                let ghost mid = *self;
                allowances::put(&mut self.allowances, from, caller, allowance - value);
                proof {
                    assert forall|a: AccountId| #[trigger] self.balance_spec(a)
                        == mid.balance_spec(a) by {}
                    assert forall|o: AccountId, p: AccountId|
                        #[trigger] self.allowance_spec(o, p) as int == mid.allowance_spec(o, p) - (
                        if o == from && p == caller {
                            value as int
                        } else {
                            0int
                        }) by {
                        assert(mid.allowance_spec(from, caller) == allowance);
                    }
                }
                Ok(())
            },
        }
    }

    /// The shared move primitive: debits `from`, credits `to`, and emits
    /// one transfer record, or fails with `InsufficientBalance` leaving
    /// the ledger untouched.  The credit cannot overflow: conservation
    /// bounds every balance by the total supply.
    fn transfer_from_to(&mut self, from: &AccountId, to: &AccountId, value: Balance) -> (r: Result<
        (),
        Error,
    >)
        requires
            old(self).wf(),
        ensures
            final(self).wf(),
            final(self).total_supply == old(self).total_supply,
            r == (if old(self).balance_spec(*from) < value {
                Err::<(), Error>(Error::InsufficientBalance)
            } else {
                Ok::<(), Error>(())
            }),
            r is Err ==> *final(self) == *old(self),
            r is Ok ==> {
                &&& forall|a: AccountId|
                    #[trigger] final(self).balance_spec(a) as int == old(self).balance_spec(a) + (
                    if a == *to {
                        value as int
                    } else {
                        0int
                    }) - (if a == *from {
                        value as int
                    } else {
                        0int
                    })
                &&& forall|o: AccountId, p: AccountId|
                    #[trigger] final(self).allowance_spec(o, p) == old(self).allowance_spec(o, p)
                &&& final(self).events@ == old(self).events@.push(
                    Event::Transfer((Transfer { from: Some(*from), to: *to, value })),
                )
            },
    {
        let from_balance = self.balance_of_impl(from);
        if from_balance < value {
            return Err(Error::InsufficientBalance);
        }
        balances::put(&mut self.balances, *from, from_balance - value);
        let to_balance = balances::get(&self.balances, *to);
        proof {
            balances::lemma_lookup_le_total(self.balances@, *to);
        }
        balances::put(&mut self.balances, *to, to_balance + value);
        self.events.push(Event::Transfer(Transfer { from: Some(*from), to: *to, value }));
        Ok(())
    }
}

/// Conservation of value: in every well-formed ledger the stored balances
/// sum to the total supply.  `new` establishes well-formedness and every
/// mutating operation preserves it, so the sum is `total_supply` after
/// any sequence of operations, successful or failed.
pub proof fn lemma_conservation(l: Erc20)
    requires
        l.wf(),
    ensures
        balances::total(l.balances@) == l.total_supply as int,
{
}

/// A corollary of conservation: no single account can hold more than the
/// total supply.
pub proof fn lemma_balance_le_supply(l: Erc20, a: AccountId)
    requires
        l.wf(),
    ensures
        l.balance_spec(a) <= l.total_supply,
{
    balances::lemma_lookup_le_total(l.balances@, a);
}

/// Idempotent failure: `transfer` rejects a caller holding less than
/// `value` with `InsufficientBalance`, and its contract guarantees the
/// failed call leaves the ledger exactly as it was (`post == pre`).  The
/// unchanged state therefore still satisfies the same failure condition,
/// so repeating the call yields the same error and, again, no change.
pub proof fn lemma_failed_transfer_idempotent(
    pre: Erc20,
    post: Erc20,
    caller: AccountId,
    value: Balance,
)
    requires
        pre.balance_spec(caller) < value,
        post == pre,
    ensures
        pre.transfer_outcome(caller, value) == Err::<(), Error>(Error::InsufficientBalance),
        post.transfer_outcome(caller, value) == pre.transfer_outcome(caller, value),
        post.balance_spec(caller) < value,
{
}

} // verus!
