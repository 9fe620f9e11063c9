//! The balance store: a sparse association list from account to amount.
//!
//! An absent entry means balance 0.  The store is kept with pairwise
//! distinct keys, so each account has at most one entry, and the sum of
//! all stored amounts is the value the whole ledger holds.

use vstd::prelude::*;

use crate::account::AccountId;
use crate::account::Balance;

verus! {

/// The amount recorded for `a`: the value of the first entry keyed by `a`,
/// or 0 when no entry carries that key.
pub open spec fn lookup(s: Seq<(AccountId, Balance)>, a: AccountId) -> Balance
    decreases s.len(),
{
    if s.len() == 0 {
        0
    } else if s[0].0 == a {
        s[0].1
    } else {
        lookup(s.drop_first(), a)
    }
}

/// Whether some entry is keyed by `a`.
pub open spec fn has_key(s: Seq<(AccountId, Balance)>, a: AccountId) -> bool {
    exists|i: int| 0 <= i < s.len() && s[i].0 == a
}

/// Whether the keys are pairwise distinct.
pub open spec fn unique_keys(s: Seq<(AccountId, Balance)>) -> bool {
    forall|i: int, j: int| 0 <= i < j < s.len() ==> s[i].0 != s[j].0
}

/// The sum of all stored amounts.
pub open spec fn total(s: Seq<(AccountId, Balance)>) -> int
    decreases s.len(),
{
    if s.len() == 0 {
        0
    } else {
        s[0].1 + total(s.drop_first())
    }
}

/// An account without an entry is recorded as 0.
pub proof fn lemma_lookup_absent(s: Seq<(AccountId, Balance)>, a: AccountId)
    requires
        !has_key(s, a),
    ensures
        lookup(s, a) == 0,
    decreases s.len(),
{
    if s.len() > 0 {
        assert(s[0].0 != a);
        assert(forall|i: int| 0 <= i < s.drop_first().len() ==> #[trigger] s.drop_first()[i] == s[
            i + 1
        ]);
        lemma_lookup_absent(s.drop_first(), a);
    }
}

/// With distinct keys, the entry at any index is the one `lookup` finds.
pub proof fn lemma_lookup_at(s: Seq<(AccountId, Balance)>, j: int)
    requires
        unique_keys(s),
        0 <= j < s.len(),
    ensures
        lookup(s, s[j].0) == s[j].1,
    decreases j,
{
    if j > 0 {
        assert(s[0].0 != s[j].0);
        let t = s.drop_first();
        assert(forall|i: int| 0 <= i < t.len() ==> #[trigger] t[i] == s[i + 1]);
        lemma_lookup_at(t, j - 1);
    }
}

/// Overwriting the entry at index `j` (keeping its key) changes exactly
/// that key's recorded amount.
pub proof fn lemma_lookup_update(
    s: Seq<(AccountId, Balance)>,
    j: int,
    v: Balance,
    b: AccountId,
)
    requires
        unique_keys(s),
        0 <= j < s.len(),
    ensures
        lookup(s.update(j, (s[j].0, v)), b) == if b == s[j].0 {
            v
        } else {
            lookup(s, b)
        },
    decreases j,
{
    let a = s[j].0;
    let u = s.update(j, (a, v));
    if j == 0 {
        assert(u.drop_first() =~= s.drop_first());
        if b != a {
            assert(lookup(u, b) == lookup(u.drop_first(), b));
        }
    } else {
        assert(s[0].0 != a);
        assert(u[0] == s[0]);
        let t = s.drop_first();
        assert(forall|i: int| 0 <= i < t.len() ==> #[trigger] t[i] == s[i + 1]);
        assert(u.drop_first() =~= t.update(j - 1, (t[j - 1].0, v)));
        lemma_lookup_update(t, j - 1, v, b);
    }
}

/// Overwriting the entry at index `j` moves the sum by the difference of
/// the new and old amounts.
pub proof fn lemma_total_update(s: Seq<(AccountId, Balance)>, j: int, p: (AccountId, Balance))
    requires
        0 <= j < s.len(),
    ensures
        total(s.update(j, p)) == total(s) - s[j].1 + p.1,
    decreases j,
{
    let u = s.update(j, p);
    if j == 0 {
        assert(u.drop_first() =~= s.drop_first());
    } else {
        assert(u[0] == s[0]);
        let t = s.drop_first();
        assert(u.drop_first() =~= t.update(j - 1, p));
        lemma_total_update(t, j - 1, p);
    }
}

/// Appending an entry under a fresh key records its amount for that key
/// and leaves every other key's amount as it was.
pub proof fn lemma_lookup_push(
    s: Seq<(AccountId, Balance)>,
    a: AccountId,
    v: Balance,
    b: AccountId,
)
    requires
        !has_key(s, a),
    ensures
        lookup(s.push((a, v)), b) == if b == a {
            v
        } else {
            lookup(s, b)
        },
    decreases s.len(),
{
    let u = s.push((a, v));
    if s.len() == 0 {
        reveal_with_fuel(lookup, 2);
        assert(u[0] == (a, v));
        assert(u.drop_first() =~= Seq::<(AccountId, Balance)>::empty());
    } else {
        assert(s[0].0 != a);
        assert(u[0] == s[0]);
        let t = s.drop_first();
        assert(forall|i: int| 0 <= i < t.len() ==> #[trigger] t[i] == s[i + 1]);
        assert(u.drop_first() =~= t.push((a, v)));
        lemma_lookup_push(t, a, v, b);
    }
}

/// Appending an entry adds its amount to the sum.
pub proof fn lemma_total_push(s: Seq<(AccountId, Balance)>, p: (AccountId, Balance))
    ensures
        total(s.push(p)) == total(s) + p.1,
    decreases s.len(),
{
    let u = s.push(p);
    if s.len() == 0 {
        reveal_with_fuel(total, 2);
        assert(u[0] == p);
        assert(u.drop_first() =~= Seq::<(AccountId, Balance)>::empty());
    } else {
        assert(u[0] == s[0]);
        assert(u.drop_first() =~= s.drop_first().push(p));
        lemma_total_push(s.drop_first(), p);
    }
}

/// Amounts are unsigned, so no single entry exceeds the sum of them all.
pub proof fn lemma_lookup_le_total(s: Seq<(AccountId, Balance)>, a: AccountId)
    ensures
        0 <= total(s),
        lookup(s, a) <= total(s),
    decreases s.len(),
{
    if s.len() > 0 {
        lemma_lookup_le_total(s.drop_first(), a);
    }
}

/// Reads the amount recorded for `a`, 0 when `a` has no entry.
pub fn get(v: &Vec<(AccountId, Balance)>, a: AccountId) -> (r: Balance)
    ensures
        r == lookup(v@, a),
{
    let n = v.len();
    let mut i: usize = 0;
    proof {
        assert(v@.subrange(0int, n as int) =~= v@);
    }
    while i < n
        invariant
            0 <= i <= n,
            n == v@.len(),
            lookup(v@, a) == lookup(v@.subrange(i as int, n as int), a),
        decreases n - i,
    {
        let ghost tail = v@.subrange(i as int, n as int);
        if v[i].0 == a {
            proof {
                assert(tail[0] == v@[i as int]);
            }
            return v[i].1;
        }
        proof {
            assert(tail[0] == v@[i as int]);
            assert(tail.drop_first() =~= v@.subrange(i as int + 1, n as int));
        }
        i = i + 1;
    }
    proof {
        assert(v@.subrange(n as int, n as int).len() == 0);
    }
    0
}

/// Records amount `val` for `a`, overwriting `a`'s entry or appending one.
/// Every other key's amount is untouched, and the sum moves by exactly the
/// difference between the new amount and the one it replaces.
pub fn put(v: &mut Vec<(AccountId, Balance)>, a: AccountId, val: Balance)
    requires
        unique_keys(old(v)@),
    ensures
        unique_keys(final(v)@),
        forall|b: AccountId| lookup(final(v)@, b) == if b == a {
            val
        } else {
            lookup(old(v)@, b)
        },
        total(final(v)@) == total(old(v)@) - lookup(old(v)@, a) + val,
{
    let ghost s0 = v@;
    let n = v.len();
    let mut i: usize = 0;
    while i < n
        invariant
            0 <= i <= n,
            n == v@.len(),
            v@ == s0,
            s0 == old(v)@,
            unique_keys(s0),
            forall|k: int| 0 <= k < i ==> s0[k].0 != a,
        decreases n - i,
    {
        if v[i].0 == a {
            v[i] = (a, val);
            proof {
                assert(v@ =~= s0.update(i as int, (s0[i as int].0, val)));
                lemma_lookup_at(s0, i as int);
                lemma_total_update(s0, i as int, (a, val));
                assert forall|b: AccountId| lookup(v@, b) == if b == a {
                    val
                } else {
                    lookup(s0, b)
                } by {
                    lemma_lookup_update(s0, i as int, val, b);
                }
                assert forall|p: int, q: int| 0 <= p < q < v@.len() implies v@[p].0 != v@[q].0 by {
                    assert(v@[p].0 == s0[p].0);
                    assert(v@[q].0 == s0[q].0);
                }
            }
            return ;
        }
        i = i + 1;
    }
    proof {
        assert(!has_key(s0, a));
        lemma_lookup_absent(s0, a);
    }
    v.push((a, val));
    proof {
        assert(v@ == s0.push((a, val)));
        lemma_total_push(s0, (a, val));
        assert forall|b: AccountId| lookup(v@, b) == if b == a {
            val
        } else {
            lookup(s0, b)
        } by {
            lemma_lookup_push(s0, a, val, b);
        }
        assert forall|p: int, q: int| 0 <= p < q < v@.len() implies v@[p].0 != v@[q].0 by {
            if q < s0.len() {
                assert(v@[p].0 == s0[p].0);
                assert(v@[q].0 == s0[q].0);
            } else {
                assert(v@[q] == (a, val));
                assert(v@[p].0 == s0[p].0);
                assert(!(s0[p].0 == a));
            }
        }
    }
}

} // verus!
