//! The allowance store: a sparse association list from an (owner, spender)
//! pair to the amount the spender may still move on the owner's behalf.
//!
//! An absent entry means allowance 0.  The store is kept with pairwise
//! distinct key pairs, so each (owner, spender) pair has at most one entry.

use vstd::prelude::*;

use crate::account::AccountId;
use crate::account::Balance;

verus! {

/// The allowance recorded for `(o, p)`: the value of the first entry keyed
/// by that pair, or 0 when no entry carries it.
pub open spec fn lookup(s: Seq<(AccountId, AccountId, Balance)>, o: AccountId, p: AccountId) -> Balance
    decreases s.len(),
{
    if s.len() == 0 {
        0
    } else if s[0].0 == o && s[0].1 == p {
        s[0].2
    } else {
        lookup(s.drop_first(), o, p)
    }
}

/// Whether some entry is keyed by `(o, p)`.
pub open spec fn has_key(s: Seq<(AccountId, AccountId, Balance)>, o: AccountId, p: AccountId) -> bool {
    exists|i: int| 0 <= i < s.len() && s[i].0 == o && s[i].1 == p
}

/// Whether the key pairs are pairwise distinct.
pub open spec fn unique_keys(s: Seq<(AccountId, AccountId, Balance)>) -> bool {
    forall|i: int, j: int|
        0 <= i < j < s.len() ==> !(#[trigger] s[i].0 == #[trigger] s[j].0 && s[i].1 == s[j].1)
}

/// A pair without an entry is recorded as 0.
pub proof fn lemma_lookup_absent(s: Seq<(AccountId, AccountId, Balance)>, o: AccountId, p: AccountId)
    requires
        !has_key(s, o, p),
    ensures
        lookup(s, o, p) == 0,
    decreases s.len(),
{
    if s.len() > 0 {
        assert(!(s[0].0 == o && s[0].1 == p));
        let t = s.drop_first();
        assert(forall|i: int| 0 <= i < t.len() ==> #[trigger] t[i] == s[i + 1]);
        lemma_lookup_absent(t, o, p);
    }
}

/// Overwriting the entry at index `j` (keeping its key pair) changes
/// exactly that pair's recorded allowance.
pub proof fn lemma_lookup_update(
    s: Seq<(AccountId, AccountId, Balance)>,
    j: int,
    v: Balance,
    bo: AccountId,
    bp: AccountId,
)
    requires
        unique_keys(s),
        0 <= j < s.len(),
    ensures
        lookup(s.update(j, (s[j].0, s[j].1, v)), bo, bp) == if bo == s[j].0 && bp == s[j].1 {
            v
        } else {
            lookup(s, bo, bp)
        },
    decreases j,
{
    let u = s.update(j, (s[j].0, s[j].1, v));
    if j == 0 {
        assert(u.drop_first() =~= s.drop_first());
    } else {
        assert(!(s[0].0 == s[j].0 && s[0].1 == s[j].1));
        assert(u[0] == s[0]);
        let t = s.drop_first();
        assert(forall|i: int| 0 <= i < t.len() ==> #[trigger] t[i] == s[i + 1]);
        assert(u.drop_first() =~= t.update(j - 1, (t[j - 1].0, t[j - 1].1, v)));
        lemma_lookup_update(t, j - 1, v, bo, bp);
    }
}

/// Appending an entry under a fresh key pair records its allowance for
/// that pair and leaves every other pair's allowance as it was.
pub proof fn lemma_lookup_push(
    s: Seq<(AccountId, AccountId, Balance)>,
    o: AccountId,
    p: AccountId,
    v: Balance,
    bo: AccountId,
    bp: AccountId,
)
    requires
        !has_key(s, o, p),
    ensures
        lookup(s.push((o, p, v)), bo, bp) == if bo == o && bp == p {
            v
        } else {
            lookup(s, bo, bp)
        },
    decreases s.len(),
{
    let u = s.push((o, p, v));
    if s.len() == 0 {
        reveal_with_fuel(lookup, 2);
        assert(u[0] == (o, p, v));
        assert(u.drop_first() =~= Seq::<(AccountId, AccountId, Balance)>::empty());
    } else {
        assert(!(s[0].0 == o && s[0].1 == p));
        assert(u[0] == s[0]);
        let t = s.drop_first();
        assert(forall|i: int| 0 <= i < t.len() ==> #[trigger] t[i] == s[i + 1]);
        assert(u.drop_first() =~= t.push((o, p, v)));
        lemma_lookup_push(t, o, p, v, bo, bp);
    }
}

/// Reads the allowance recorded for `(o, p)`, 0 when the pair has no entry.
pub fn get(v: &Vec<(AccountId, AccountId, Balance)>, o: AccountId, p: AccountId) -> (r: Balance)
    ensures
        r == lookup(v@, o, p),
{
    let n = v.len();
    let mut i: usize = 0;
    proof {
        assert(v@.subrange(0int, n as int) =~= v@);
    }
    while i < n
        invariant
            0 <= i <= n,
            n == v@.len(),
            lookup(v@, o, p) == lookup(v@.subrange(i as int, n as int), o, p),
        decreases n - i,
    {
        let ghost tail = v@.subrange(i as int, n as int);
        if v[i].0 == o && v[i].1 == p {
            proof {
                assert(tail[0] == v@[i as int]);
            }
            return v[i].2;
        }
        proof {
            assert(tail[0] == v@[i as int]);
            assert(tail.drop_first() =~= v@.subrange(i as int + 1, n as int));
        }
        i = i + 1;
    }
    proof {
        assert(v@.subrange(n as int, n as int).len() == 0);
    }
    0
}

/// Records allowance `val` for `(o, p)`, overwriting the pair's entry or
/// appending one.  Every other pair's allowance is untouched.
pub fn put(v: &mut Vec<(AccountId, AccountId, Balance)>, o: AccountId, p: AccountId, val: Balance)
    requires
        unique_keys(old(v)@),
    ensures
        unique_keys(final(v)@),
        forall|bo: AccountId, bp: AccountId| lookup(final(v)@, bo, bp) == if bo == o && bp == p {
            val
        } else {
            lookup(old(v)@, bo, bp)
        },
{
    let ghost s0 = v@;
    let n = v.len();
    let mut i: usize = 0;
    while i < n
        invariant
            0 <= i <= n,
            n == v@.len(),
            v@ == s0,
            s0 == old(v)@,
            unique_keys(s0),
            forall|k: int| 0 <= k < i ==> !(#[trigger] s0[k].0 == o && s0[k].1 == p),
        decreases n - i,
    {
        if v[i].0 == o && v[i].1 == p {
            v[i] = (o, p, val);
            proof {
                assert(v@ =~= s0.update(i as int, (s0[i as int].0, s0[i as int].1, val)));
                assert forall|bo: AccountId, bp: AccountId| lookup(v@, bo, bp) == if bo == o && bp
                    == p {
                    val
                } else {
                    lookup(s0, bo, bp)
                } by {
                    lemma_lookup_update(s0, i as int, val, bo, bp);
                }
                assert forall|x: int, y: int| 0 <= x < y < v@.len() implies !(#[trigger] v@[x].0
                    == #[trigger] v@[y].0 && v@[x].1 == v@[y].1) by {
                    assert(v@[x].0 == s0[x].0 && v@[x].1 == s0[x].1);
                    assert(v@[y].0 == s0[y].0 && v@[y].1 == s0[y].1);
                }
            }
            return ;
        }
        i = i + 1;
    }
    proof {
        assert(!has_key(s0, o, p));
        lemma_lookup_absent(s0, o, p);
    }
    v.push((o, p, val));
    proof {
        assert(v@ == s0.push((o, p, val)));
        assert forall|bo: AccountId, bp: AccountId| lookup(v@, bo, bp) == if bo == o && bp == p {
            val
        } else {
            lookup(s0, bo, bp)
        } by {
            lemma_lookup_push(s0, o, p, val, bo, bp);
        }
        assert forall|x: int, y: int| 0 <= x < y < v@.len() implies !(#[trigger] v@[x].0
            == #[trigger] v@[y].0 && v@[x].1 == v@[y].1) by {
            if y < s0.len() {
                assert(v@[x].0 == s0[x].0 && v@[x].1 == s0[x].1);
                assert(v@[y].0 == s0[y].0 && v@[y].1 == s0[y].1);
            } else {
                assert(v@[y] == (o, p, val));
                assert(v@[x].0 == s0[x].0 && v@[x].1 == s0[x].1);
                assert(!(s0[x].0 == o && s0[x].1 == p));
            }
        }
    }
}

} // verus!
