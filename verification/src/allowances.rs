//! An executable map from an (account, spender) pair to a remaining
//! allowance, kept as an association list with pairwise-distinct key pairs.
//! An absent pair reads as zero.

use vstd::prelude::*;

verus! {

/// Allowance read for the pair `(o, s)`: the first matching entry, zero if none.
pub open spec fn grants_read(s: Seq<(u128, u128, u128)>, o: u128, sp: u128) -> u128
    decreases s.len(),
{
    if s.len() == 0 {
        0
    } else if s[0].0 == o && s[0].1 == sp {
        s[0].2
    } else {
        grants_read(s.drop_first(), o, sp)
    }
}

pub open spec fn grants_have(s: Seq<(u128, u128, u128)>, o: u128, sp: u128) -> bool {
    exists|i: int| 0 <= i < s.len() && s[i].0 == o && s[i].1 == sp
}

/// With distinct key pairs, the entry at any index for `(o, sp)` is the one read.
pub proof fn lemma_grant_at(s: Seq<(u128, u128, u128)>, i: int)
    requires
        forall|p: int, q: int|
            0 <= p < q < s.len() ==> !(s[p].0 == s[q].0 && s[p].1 == s[q].1),
        0 <= i < s.len(),
    ensures
        grants_read(s, s[i].0, s[i].1) == s[i].2,
    decreases s.len(),
{
    if i > 0 {
        lemma_grant_at(s.drop_first(), i - 1);
    }
}

pub proof fn lemma_grant_absent(s: Seq<(u128, u128, u128)>, o: u128, sp: u128)
    requires
        !grants_have(s, o, sp),
    ensures
        grants_read(s, o, sp) == 0,
    decreases s.len(),
{
    if s.len() > 0 {
        assert(forall|i: int| 0 <= i < s.drop_first().len() ==> s.drop_first()[i] == s[i + 1]);
        lemma_grant_absent(s.drop_first(), o, sp);
    }
}

/// Replacing the amount at index `i` changes only the reading of its own pair.
pub proof fn lemma_grant_update(s: Seq<(u128, u128, u128)>, i: int, v: u128, o: u128, sp: u128)
    requires
        0 <= i < s.len(),
        !(s[i].0 == o && s[i].1 == sp),
    ensures
        grants_read(s.update(i, (s[i].0, s[i].1, v)), o, sp) == grants_read(s, o, sp),
    decreases s.len(),
{
    let t = s.update(i, (s[i].0, s[i].1, v));
    if i == 0 {
        assert(t.drop_first() =~= s.drop_first());
    } else {
        assert(t.drop_first() =~= s.drop_first().update(i - 1, (s[i].0, s[i].1, v)));
        if !(s[0].0 == o && s[0].1 == sp) {
            lemma_grant_update(s.drop_first(), i - 1, v, o, sp);
        }
    }
}

pub proof fn lemma_grant_push(s: Seq<(u128, u128, u128)>, e: (u128, u128, u128), o: u128, sp: u128)
    requires
        !grants_have(s, e.0, e.1),
    ensures
        o == e.0 && sp == e.1 ==> grants_read(s.push(e), o, sp) == e.2,
        !(o == e.0 && sp == e.1) ==> grants_read(s.push(e), o, sp) == grants_read(s, o, sp),
    decreases s.len(),
{
    if s.len() == 0 {
        assert(s.push(e).drop_first() =~= s);
    } else {
        assert(s.push(e).drop_first() =~= s.drop_first().push(e));
        assert(forall|i: int| 0 <= i < s.drop_first().len() ==> s.drop_first()[i] == s[i + 1]);
        lemma_grant_push(s.drop_first(), e, o, sp);
    }
}

/// Executable allowance map. A pair that was never approved holds zero.
pub struct AllowanceMap {
    pub entries: Vec<(u128, u128, u128)>,
}

impl AllowanceMap {
    /// Key pairs are pairwise distinct.
    pub open spec fn wf(self) -> bool {
        forall|p: int, q: int|
            0 <= p < q < self.entries@.len() ==> !(self.entries@[p].0 == self.entries@[q].0
                && self.entries@[p].1 == self.entries@[q].1)
    }

    /// Remaining allowance granted by `o` to spender `sp` (zero when absent).
    pub open spec fn read(self, o: u128, sp: u128) -> u128 {
        grants_read(self.entries@, o, sp)
    }

    pub fn empty() -> (r: AllowanceMap)
        ensures
            r.wf(),
            forall|o: u128, sp: u128| r.read(o, sp) == 0,
    {
        AllowanceMap { entries: Vec::new() }
    }

    fn find(&self, o: u128, sp: u128) -> (r: Option<usize>)
        requires
            self.wf(),
        ensures
            match r {
                Some(i) => i < self.entries@.len() && self.entries@[i as int].0 == o
                    && self.entries@[i as int].1 == sp && self.entries@[i as int].2 == self.read(
                    o,
                    sp,
                ),
                None => !grants_have(self.entries@, o, sp),
            },
    {
        let n = self.entries.len();
        let mut i: usize = 0;
        while i < n
            invariant
                i <= n,
                n == self.entries@.len(),
                self.wf(),
                forall|j: int|
                    0 <= j < i ==> !(self.entries@[j].0 == o && self.entries@[j].1 == sp),
            decreases n - i,
        {
            let e = self.entries[i];
            if e.0 == o && e.1 == sp {
                proof {
                    lemma_grant_at(self.entries@, i as int);
                }
                return Some(i);
            }
            i += 1;
        }
        None
    }

    pub fn get(&self, o: u128, sp: u128) -> (r: u128)
        requires
            self.wf(),
        ensures
            r == self.read(o, sp),
    {
        match self.find(o, sp) {
            Some(i) => self.entries[i].2,
            None => {
                proof {
                    lemma_grant_absent(self.entries@, o, sp);
                }
                0
            },
        }
    }

    /// Writes `v` as the allowance of pair `(o, sp)`.
    pub fn set(&mut self, o: u128, sp: u128, v: u128)
        requires
            old(self).wf(),
        ensures
            final(self).wf(),
            final(self).read(o, sp) == v,
            forall|x: u128, y: u128|
                !(x == o && y == sp) ==> final(self).read(x, y) == old(self).read(x, y),
    {
        let ghost s = self.entries@;
        match self.find(o, sp) {
            Some(i) => {
                proof {
                    assert forall|x: u128, y: u128| !(x == o && y == sp) implies grants_read(
                        s.update(i as int, (o, sp, v)),
                        x,
                        y,
                    ) == grants_read(s, x, y) by {
                        lemma_grant_update(s, i as int, v, x, y);
                    }
                    lemma_grant_at(s.update(i as int, (o, sp, v)), i as int);
                }
                let slot = &mut self.entries[i];
                *slot = (o, sp, v);
            },
            None => {
                proof {
                    assert forall|x: u128, y: u128| true implies (grants_read(
                        s.push((o, sp, v)),
                        x,
                        y,
                    ) == if x == o && y == sp {
                        v
                    } else {
                        grants_read(s, x, y)
                    }) by {
                        lemma_grant_push(s, (o, sp, v), x, y);
                    }
                    assert(s.push((o, sp, v))[s.len() as int].0 == o);
                }
                self.entries.push((o, sp, v));
            },
        }
    }
}

} // verus!
