//! An executable map from account identifier to amount, kept as an
//! association list with pairwise-distinct keys. An absent key reads as zero.
//! The module also defines the running total of all stored amounts, which the
//! ledger uses to tie the circulating supply to the account balances.

use vstd::prelude::*;

verus! {

/// Value read for key `k`: the amount at the first entry for `k`, zero if none.
pub open spec fn entries_read(s: Seq<(u128, u128)>, k: u128) -> u128
    decreases s.len(),
{
    if s.len() == 0 {
        0
    } else if s[0].0 == k {
        s[0].1
    } else {
        entries_read(s.drop_first(), k)
    }
}

/// Whether some entry carries key `k`.
pub open spec fn entries_have(s: Seq<(u128, u128)>, k: u128) -> bool {
    exists|i: int| 0 <= i < s.len() && s[i].0 == k
}

/// Sum of all stored amounts.
pub open spec fn entries_total(s: Seq<(u128, u128)>) -> int
    decreases s.len(),
{
    if s.len() == 0 {
        0
    } else {
        s[0].1 + entries_total(s.drop_first())
    }
}

pub proof fn lemma_total_nonneg(s: Seq<(u128, u128)>)
    ensures
        0 <= entries_total(s),
    decreases s.len(),
{
    if s.len() > 0 {
        lemma_total_nonneg(s.drop_first());
    }
}

/// Any single value is at most the total.
pub proof fn lemma_read_le_total(s: Seq<(u128, u128)>, k: u128)
    ensures
        entries_read(s, k) <= entries_total(s),
    decreases s.len(),
{
    if s.len() > 0 {
        lemma_read_le_total(s.drop_first(), k);
        lemma_total_nonneg(s.drop_first());
    }
}

/// With distinct keys, the entry at any index carrying `k` is the one read.
pub proof fn lemma_read_at(s: Seq<(u128, u128)>, i: int)
    requires
        forall|p: int, q: int| 0 <= p < q < s.len() ==> s[p].0 != s[q].0,
        0 <= i < s.len(),
    ensures
        entries_read(s, s[i].0) == s[i].1,
    decreases s.len(),
{
    if i > 0 {
        lemma_read_at(s.drop_first(), i - 1);
    }
}

/// A key carried by no entry reads as zero.
pub proof fn lemma_read_absent(s: Seq<(u128, u128)>, k: u128)
    requires
        !entries_have(s, k),
    ensures
        entries_read(s, k) == 0,
    decreases s.len(),
{
    if s.len() > 0 {
        assert(forall|i: int| 0 <= i < s.drop_first().len() ==> s.drop_first()[i] == s[i + 1]);
        lemma_read_absent(s.drop_first(), k);
    }
}

/// Replacing the amount at index `i` moves the total by the difference.
pub proof fn lemma_total_update(s: Seq<(u128, u128)>, i: int, v: u128)
    requires
        0 <= i < s.len(),
    ensures
        entries_total(s.update(i, (s[i].0, v))) == entries_total(s) + v - s[i].1,
    decreases s.len(),
{
    let t = s.update(i, (s[i].0, v));
    if i == 0 {
        assert(t.drop_first() =~= s.drop_first());
    } else {
        assert(t.drop_first() =~= s.drop_first().update(i - 1, (s[i].0, v)));
        lemma_total_update(s.drop_first(), i - 1, v);
    }
}

/// Replacing the amount at index `i` changes only the reading of its key.
pub proof fn lemma_read_update(s: Seq<(u128, u128)>, i: int, v: u128, k: u128)
    requires
        0 <= i < s.len(),
        s[i].0 != k,
    ensures
        entries_read(s.update(i, (s[i].0, v)), k) == entries_read(s, k),
    decreases s.len(),
{
    let t = s.update(i, (s[i].0, v));
    if i == 0 {
        assert(t.drop_first() =~= s.drop_first());
    } else {
        assert(t.drop_first() =~= s.drop_first().update(i - 1, (s[i].0, v)));
        if s[0].0 != k {
            lemma_read_update(s.drop_first(), i - 1, v, k);
        }
    }
}

/// Appending an entry adds its amount to the total.
pub proof fn lemma_total_push(s: Seq<(u128, u128)>, e: (u128, u128))
    ensures
        entries_total(s.push(e)) == entries_total(s) + e.1,
    decreases s.len(),
{
    if s.len() == 0 {
        assert(s.push(e).drop_first() =~= s);
    } else {
        assert(s.push(e).drop_first() =~= s.drop_first().push(e));
        lemma_total_push(s.drop_first(), e);
    }
}

/// Appending an entry for a fresh key leaves other keys' readings unchanged
/// and makes the fresh key read the appended amount.
pub proof fn lemma_read_push(s: Seq<(u128, u128)>, e: (u128, u128), k: u128)
    requires
        !entries_have(s, e.0),
    ensures
        k == e.0 ==> entries_read(s.push(e), k) == e.1,
        k != e.0 ==> entries_read(s.push(e), k) == entries_read(s, k),
    decreases s.len(),
{
    if s.len() == 0 {
        assert(s.push(e).drop_first() =~= s);
    } else {
        assert(s.push(e).drop_first() =~= s.drop_first().push(e));
        assert(forall|i: int| 0 <= i < s.drop_first().len() ==> s.drop_first()[i] == s[i + 1]);
        lemma_read_push(s.drop_first(), e, k);
    }
}

/// Removing the entry at index `i` subtracts its amount from the total.
pub proof fn lemma_total_remove(s: Seq<(u128, u128)>, i: int)
    requires
        0 <= i < s.len(),
    ensures
        entries_total(s.remove(i)) == entries_total(s) - s[i].1,
    decreases s.len(),
{
    if i == 0 {
        assert(s.remove(0) =~= s.drop_first());
    } else {
        assert(s.remove(i).drop_first() =~= s.drop_first().remove(i - 1));
        lemma_total_remove(s.drop_first(), i - 1);
    }
}

/// Removing the entry at index `i` leaves the readings of other keys unchanged.
pub proof fn lemma_read_remove(s: Seq<(u128, u128)>, i: int, k: u128)
    requires
        0 <= i < s.len(),
        s[i].0 != k,
    ensures
        entries_read(s.remove(i), k) == entries_read(s, k),
    decreases s.len(),
{
    if i == 0 {
        assert(s.remove(0) =~= s.drop_first());
    } else {
        assert(s.remove(i).drop_first() =~= s.drop_first().remove(i - 1));
        if s[0].0 != k {
            lemma_read_remove(s.drop_first(), i - 1, k);
        }
    }
}

/// Executable amount map. An account that was never written holds zero.
pub struct AmountMap {
    pub entries: Vec<(u128, u128)>,
}

impl AmountMap {
    /// Keys are pairwise distinct.
    pub open spec fn wf(self) -> bool {
        forall|p: int, q: int|
            0 <= p < q < self.entries@.len() ==> self.entries@[p].0 != self.entries@[q].0
    }

    /// Amount held under key `k` (zero when absent).
    pub open spec fn read(self, k: u128) -> u128 {
        entries_read(self.entries@, k)
    }

    /// Whether key `k` was ever written (and not removed).
    pub open spec fn has(self, k: u128) -> bool {
        entries_have(self.entries@, k)
    }

    /// Sum of all held amounts.
    pub open spec fn total(self) -> int {
        entries_total(self.entries@)
    }

    pub fn empty() -> (r: AmountMap)
        ensures
            r.wf(),
            r.total() == 0,
            forall|k: u128| !r.has(k) && r.read(k) == 0,
    {
        AmountMap { entries: Vec::new() }
    }

    /// Index of the entry for `k`, if present.
    fn find(&self, k: u128) -> (r: Option<usize>)
        requires
            self.wf(),
        ensures
            match r {
                Some(i) => i < self.entries@.len() && self.entries@[i as int].0 == k
                    && self.has(k) && self.entries@[i as int].1 == self.read(k),
                None => !self.has(k),
            },
    {
        let n = self.entries.len();
        let mut i: usize = 0;
        while i < n
            invariant
                i <= n,
                n == self.entries@.len(),
                self.wf(),
                forall|j: int| 0 <= j < i ==> self.entries@[j].0 != k,
            decreases n - i,
        {
            if self.entries[i].0 == k {
                proof {
                    lemma_read_at(self.entries@, i as int);
                }
                return Some(i);
            }
            i += 1;
        }
        None
    }

    pub fn get(&self, k: u128) -> (r: u128)
        requires
            self.wf(),
        ensures
            r == self.read(k),
    {
        match self.find(k) {
            Some(i) => self.entries[i].1,
            None => {
                proof {
                    lemma_read_absent(self.entries@, k);
                }
                0
            },
        }
    }

    pub fn contains(&self, k: u128) -> (r: bool)
        requires
            self.wf(),
        ensures
            r == self.has(k),
    {
        self.find(k).is_some()
    }

    /// Writes `v` under `k`, inserting the key if it is absent.
    pub fn set(&mut self, k: u128, v: u128)
        requires
            old(self).wf(),
        ensures
            final(self).wf(),
            final(self).read(k) == v,
            final(self).has(k),
            forall|x: u128| x != k ==> final(self).read(x) == old(self).read(x),
            forall|x: u128| x != k ==> final(self).has(x) == old(self).has(x),
            final(self).total() == old(self).total() + v - old(self).read(k),
    {
        let ghost s = self.entries@;
        match self.find(k) {
            Some(i) => {
                proof {
                    lemma_total_update(s, i as int, v);
                    assert forall|x: u128| x != k implies entries_read(
                        s.update(i as int, (k, v)),
                        x,
                    ) == entries_read(s, x) by {
                        lemma_read_update(s, i as int, v, x);
                    }
                    lemma_read_at(s.update(i as int, (k, v)), i as int);
                    let t = s.update(i as int, (k, v));
                    assert forall|x: u128| x != k implies entries_have(t, x) == entries_have(
                        s,
                        x,
                    ) by {
                        if entries_have(s, x) {
                            let j = choose|j: int| 0 <= j < s.len() && s[j].0 == x;
                            assert(t[j].0 == x);
                        }
                        if entries_have(t, x) {
                            let j = choose|j: int| 0 <= j < t.len() && t[j].0 == x;
                            assert(s[j].0 == x);
                        }
                    }
                }
                let slot = &mut self.entries[i];
                *slot = (k, v);
            },
            None => {
                proof {
                    lemma_total_push(s, (k, v));
                    lemma_read_absent(s, k);
                    assert forall|x: u128| true implies (entries_read(s.push((k, v)), x) == if x
                        == k {
                        v
                    } else {
                        entries_read(s, x)
                    }) by {
                        lemma_read_push(s, (k, v), x);
                    }
                    assert(entries_have(s.push((k, v)), k)) by {
                        assert(s.push((k, v))[s.len() as int].0 == k);
                    }
                    let t = s.push((k, v));
                    assert forall|x: u128| x != k implies entries_have(t, x) == entries_have(
                        s,
                        x,
                    ) by {
                        if entries_have(s, x) {
                            let j = choose|j: int| 0 <= j < s.len() && s[j].0 == x;
                            assert(t[j].0 == x);
                        }
                        if entries_have(t, x) {
                            let j = choose|j: int| 0 <= j < t.len() && t[j].0 == x;
                            assert(s[j].0 == x);
                        }
                    }
                }
                self.entries.push((k, v));
            },
        }
    }

    /// Removes the entry for `k`, if any; the key then reads as zero.
    pub fn take_out(&mut self, k: u128) -> (r: u128)
        requires
            old(self).wf(),
        ensures
            final(self).wf(),
            r == old(self).read(k),
            !final(self).has(k),
            final(self).read(k) == 0,
            forall|x: u128| x != k ==> final(self).read(x) == old(self).read(x),
            forall|x: u128| x != k ==> final(self).has(x) == old(self).has(x),
            final(self).total() == old(self).total() - old(self).read(k),
    {
        let ghost s = self.entries@;
        match self.find(k) {
            Some(i) => {
                proof {
                    lemma_total_remove(s, i as int);
                    assert forall|x: u128| x != k implies entries_read(s.remove(i as int), x)
                        == entries_read(s, x) by {
                        lemma_read_remove(s, i as int, x);
                    }
                    let t = s.remove(i as int);
                    assert(forall|j: int|
                        0 <= j < t.len() ==> t[j] == (if j < i as int {
                            s[j]
                        } else {
                            s[j + 1]
                        }));
                    assert(!entries_have(t, k));
                    lemma_read_absent(t, k);
                    assert forall|x: u128| x != k implies entries_have(t, x) == entries_have(
                        s,
                        x,
                    ) by {
                        if entries_have(s, x) {
                            let j = choose|j: int| 0 <= j < s.len() && s[j].0 == x;
                            if j < i as int {
                                assert(t[j].0 == x);
                            } else {
                                assert(t[j - 1].0 == x);
                            }
                        }
                        if entries_have(t, x) {
                            let j = choose|j: int| 0 <= j < t.len() && t[j].0 == x;
                            if j < i as int {
                                assert(s[j].0 == x);
                            } else {
                                assert(s[j + 1].0 == x);
                            }
                        }
                    }
                }
                let e = self.entries.remove(i);
                e.1
            },
            None => {
                proof {
                    lemma_read_absent(s, k);
                }
                0
            },
        }
    }
}

} // verus!
