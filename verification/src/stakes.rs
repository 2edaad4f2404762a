//! Stakeholder records and the vesting arithmetic. A record is keyed by the
//! pair (address, pool); its share is fixed at registration and the record is
//! never deleted. Each vesting period pays the floor of `share / vests`,
//! except the final installment, which also carries the division remainder so
//! that the cumulative amount paid reaches the share exactly.

use vstd::prelude::*;
use vstd::arithmetic::div_mod::{lemma_fundamental_div_mod, lemma_mod_bound, lemma_div_pos_is_pos};
use vstd::arithmetic::mul::{lemma_mul_inequality, lemma_mul_is_distributive_add_other_way};
use crate::pools::{POOL_COUNT, pool_vests};

verus! {

/// One stakeholder record for one pool.
#[derive(Clone, Copy, Debug, PartialEq, Eq, Structural)]
pub struct Stake {
    /// Pool the share vests from.
    pub pool: u8,
    /// Total amount the stakeholder is entitled to, in base units.
    pub share: u128,
    /// Amount paid out so far, in base units.
    pub paid: u128,
    /// Number of installments taken so far.
    pub periods_paid: u64,
    /// Set at registration and never cleared.
    pub registered: bool,
}

/// Amount of installment `n` (counting from zero) of a share vested over
/// `vest` periods: the floored quotient, plus the remainder on the final one.
pub open spec fn stake_installment(share: u128, vest: u64, n: u64) -> int {
    if n + 1 == vest {
        share as int / vest as int + share as int % vest as int
    } else {
        share as int / vest as int
    }
}

/// Cumulative amount paid after `n` installments of a share vested over
/// `vest` periods.
pub open spec fn stake_paid_after(share: u128, vest: u64, n: u64) -> int {
    if n == vest {
        share as int
    } else {
        n as int * (share as int / vest as int)
    }
}

/// Taking one more installment moves the cumulative amount paid from
/// `stake_paid_after(.., n)` to `stake_paid_after(.., n + 1)`, and the
/// cumulative amount never exceeds the share.
pub proof fn lemma_vesting_step(share: u128, vest: u64, n: u64)
    requires
        1 <= vest,
        n < vest,
    ensures
        stake_paid_after(share, vest, n) + stake_installment(share, vest, n) == stake_paid_after(
            share,
            vest,
            (n + 1) as u64,
        ),
        0 <= stake_installment(share, vest, n),
        0 <= stake_paid_after(share, vest, n) <= stake_paid_after(share, vest, (n + 1) as u64)
            <= share,
{
    let s = share as int;
    let v = vest as int;
    let q = s / v;
    let r = s % v;
    lemma_fundamental_div_mod(s, v);
    lemma_mod_bound(s, v);
    lemma_div_pos_is_pos(s, v);
    assert(n as int * q + q == (n as int + 1) * q) by {
        lemma_mul_is_distributive_add_other_way(q, n as int, 1);
    }
    assert(n as int * q <= (n as int + 1) * q) by {
        lemma_mul_inequality(n as int, n as int + 1, q);
    }
    if n + 1 == vest {
        assert((n as int + 1) * q == v * q) by {
            assert(n as int + 1 == v);
        }
        assert(v * q == q * v) by {
            vstd::arithmetic::mul::lemma_mul_is_commutative(v, q);
        }
    } else {
        assert((n as int + 1) * q <= v * q) by {
            lemma_mul_inequality(n as int + 1, v, q);
        }
        assert(v * q == q * v) by {
            vstd::arithmetic::mul::lemma_mul_is_commutative(v, q);
        }
    }
    assert(0 <= n as int * q) by {
        lemma_mul_inequality(0, n as int, q);
    }
}

/// After all `vest` installments the cumulative amount paid is exactly the
/// share: `vest - 1` payments of the floored quotient plus one final payment
/// carrying the remainder.
pub proof fn lemma_vesting_exact(share: u128, vest: u64)
    requires
        1 <= vest,
    ensures
        (vest - 1) * (share as int / vest as int) + (share as int / vest as int + share as int
            % vest as int) == share as int,
{
    let s = share as int;
    let v = vest as int;
    lemma_fundamental_div_mod(s, v);
    assert((v - 1) * (s / v) + (s / v) == v * (s / v)) by {
        lemma_mul_is_distributive_add_other_way(s / v, v - 1, 1);
    }
}

/// A well-formed record: the pool is in the table, the record is marked
/// registered, and the amount paid is exactly the cumulative amount after
/// `periods_paid` installments, never exceeding the share.
pub open spec fn stake_ok(addr: u128, st: Stake) -> bool {
    &&& addr != 0
    &&& (st.pool as int) < POOL_COUNT as int
    &&& st.registered
    &&& st.periods_paid <= pool_vests(st.pool as int)
    &&& st.paid as int == stake_paid_after(st.share, pool_vests(st.pool as int), st.periods_paid)
    &&& st.paid <= st.share
}

/// Record read for `(addr, pool)`: the first matching entry, if any.
pub open spec fn stakes_read(s: Seq<(u128, Stake)>, addr: u128, pool: u8) -> Option<Stake>
    decreases s.len(),
{
    if s.len() == 0 {
        None
    } else if s[0].0 == addr && s[0].1.pool == pool {
        Some(s[0].1)
    } else {
        stakes_read(s.drop_first(), addr, pool)
    }
}

pub open spec fn stakes_have(s: Seq<(u128, Stake)>, addr: u128, pool: u8) -> bool {
    exists|i: int| 0 <= i < s.len() && s[i].0 == addr && s[i].1.pool == pool
}

/// All records of one address, in table order.
pub open spec fn stakes_of(s: Seq<(u128, Stake)>, addr: u128) -> Seq<Stake>
    decreases s.len(),
{
    if s.len() == 0 {
        Seq::empty()
    } else if s[0].0 == addr {
        seq![s[0].1] + stakes_of(s.drop_first(), addr)
    } else {
        stakes_of(s.drop_first(), addr)
    }
}

pub proof fn lemma_stakes_read_at(s: Seq<(u128, Stake)>, i: int)
    requires
        forall|p: int, q: int|
            0 <= p < q < s.len() ==> !(s[p].0 == s[q].0 && s[p].1.pool == s[q].1.pool),
        0 <= i < s.len(),
    ensures
        stakes_read(s, s[i].0, s[i].1.pool) == Some(s[i].1),
    decreases s.len(),
{
    if i > 0 {
        lemma_stakes_read_at(s.drop_first(), i - 1);
    }
}

pub proof fn lemma_stakes_read_absent(s: Seq<(u128, Stake)>, addr: u128, pool: u8)
    requires
        !stakes_have(s, addr, pool),
    ensures
        stakes_read(s, addr, pool) is None,
    decreases s.len(),
{
    if s.len() > 0 {
        assert(forall|i: int| 0 <= i < s.drop_first().len() ==> s.drop_first()[i] == s[i + 1]);
        lemma_stakes_read_absent(s.drop_first(), addr, pool);
    }
}

/// Replacing the record at index `i` with one of the same key changes only
/// that key's reading.
pub proof fn lemma_stakes_read_update(
    s: Seq<(u128, Stake)>,
    i: int,
    st: Stake,
    addr: u128,
    pool: u8,
)
    requires
        0 <= i < s.len(),
        st.pool == s[i].1.pool,
        !(s[i].0 == addr && s[i].1.pool == pool),
    ensures
        stakes_read(s.update(i, (s[i].0, st)), addr, pool) == stakes_read(s, addr, pool),
    decreases s.len(),
{
    let t = s.update(i, (s[i].0, st));
    if i == 0 {
        assert(t.drop_first() =~= s.drop_first());
    } else {
        assert(t.drop_first() =~= s.drop_first().update(i - 1, (s[i].0, st)));
        if !(s[0].0 == addr && s[0].1.pool == pool) {
            lemma_stakes_read_update(s.drop_first(), i - 1, st, addr, pool);
        }
    }
}

pub proof fn lemma_stakes_read_push(s: Seq<(u128, Stake)>, e: (u128, Stake), addr: u128, pool: u8)
    requires
        !stakes_have(s, e.0, e.1.pool),
    ensures
        addr == e.0 && pool == e.1.pool ==> stakes_read(s.push(e), addr, pool) == Some(e.1),
        !(addr == e.0 && pool == e.1.pool) ==> stakes_read(s.push(e), addr, pool) == stakes_read(
            s,
            addr,
            pool,
        ),
    decreases s.len(),
{
    if s.len() == 0 {
        assert(s.push(e).drop_first() =~= s);
    } else {
        assert(s.push(e).drop_first() =~= s.drop_first().push(e));
        assert(forall|i: int| 0 <= i < s.drop_first().len() ==> s.drop_first()[i] == s[i + 1]);
        lemma_stakes_read_push(s.drop_first(), e, addr, pool);
    }
}

/// A record that is read out of a table of well-formed entries is itself
/// well formed.
pub proof fn lemma_stakes_read_ok(s: Seq<(u128, Stake)>, addr: u128, pool: u8)
    requires
        forall|i: int| 0 <= i < s.len() ==> stake_ok(#[trigger] s[i].0, s[i].1),
        stakes_read(s, addr, pool) is Some,
    ensures
        stake_ok(addr, stakes_read(s, addr, pool)->Some_0),
        stakes_read(s, addr, pool)->Some_0.pool == pool,
    decreases s.len(),
{
    if !(s[0].0 == addr && s[0].1.pool == pool) {
        assert(forall|i: int| 0 <= i < s.drop_first().len() ==> s.drop_first()[i] == s[i + 1]);
        lemma_stakes_read_ok(s.drop_first(), addr, pool);
    }
}

/// The stakeholder registry.
pub struct StakeTable {
    pub entries: Vec<(u128, Stake)>,
}

impl StakeTable {
    /// Key pairs are distinct and every record is well formed.
    pub open spec fn wf(self) -> bool {
        &&& forall|p: int, q: int|
            0 <= p < q < self.entries@.len() ==> !(self.entries@[p].0 == self.entries@[q].0
                && self.entries@[p].1.pool == self.entries@[q].1.pool)
        &&& forall|i: int|
            0 <= i < self.entries@.len() ==> stake_ok(
                #[trigger] self.entries@[i].0,
                self.entries@[i].1,
            )
    }

    /// Record of `(addr, pool)`, if registered.
    pub open spec fn read(self, addr: u128, pool: u8) -> Option<Stake> {
        stakes_read(self.entries@, addr, pool)
    }

    pub open spec fn has(self, addr: u128, pool: u8) -> bool {
        stakes_have(self.entries@, addr, pool)
    }

    /// All records of one address, in registration order.
    pub open spec fn of_address(self, addr: u128) -> Seq<Stake> {
        stakes_of(self.entries@, addr)
    }

    pub fn empty() -> (r: StakeTable)
        ensures
            r.wf(),
            r.entries@.len() == 0,
            forall|a: u128, p: u8| r.read(a, p) is None && !r.has(a, p),
            forall|a: u128| r.of_address(a) =~= Seq::<Stake>::empty(),
    {
        StakeTable { entries: Vec::new() }
    }

    /// Index of the record for `(addr, pool)`, if present.
    pub fn find(&self, addr: u128, pool: u8) -> (r: Option<usize>)
        requires
            self.wf(),
        ensures
            match r {
                Some(i) => i < self.entries@.len() && self.entries@[i as int].0 == addr
                    && self.entries@[i as int].1.pool == pool && self.read(addr, pool) == Some(
                    self.entries@[i as int].1,
                ) && self.has(addr, pool),
                None => self.read(addr, pool) is None && !self.has(addr, pool),
            },
    {
        let n = self.entries.len();
        let mut i: usize = 0;
        while i < n
            invariant
                i <= n,
                n == self.entries@.len(),
                self.wf(),
                forall|j: int|
                    0 <= j < i ==> !(self.entries@[j].0 == addr && self.entries@[j].1.pool
                        == pool),
            decreases n - i,
        {
            let e = &self.entries[i];
            if e.0 == addr && e.1.pool == pool {
                proof {
                    lemma_stakes_read_at(self.entries@, i as int);
                }
                return Some(i);
            }
            i += 1;
        }
        proof {
            lemma_stakes_read_absent(self.entries@, addr, pool);
        }
        None
    }

    /// Registers a fresh record with nothing paid yet.
    pub fn register(&mut self, addr: u128, pool: u8, share: u128)
        requires
            old(self).wf(),
            addr != 0,
            (pool as int) < POOL_COUNT as int,
            !old(self).has(addr, pool),
        ensures
            final(self).wf(),
            final(self).read(addr, pool) == Some(
                Stake { pool, share, paid: 0, periods_paid: 0, registered: true },
            ),
            final(self).has(addr, pool),
            forall|a: u128, p: u8|
                !(a == addr && p == pool) ==> final(self).read(a, p) == old(self).read(a, p)
                    && final(self).has(a, p) == old(self).has(a, p),
    {
        let st = Stake { pool, share, paid: 0, periods_paid: 0, registered: true };
        proof {
            let s = self.entries@;
            let e = (addr, st);
            assert(stake_ok(addr, st)) by {
                assert(stake_paid_after(share, pool_vests(pool as int), 0) == 0) by {
                    vstd::arithmetic::mul::lemma_mul_basics(
                        share as int / pool_vests(pool as int) as int,
                    );
                }
            }
            assert forall|a: u128, p: u8| true implies (stakes_read(s.push(e), a, p) == if a
                == addr && p == pool {
                Some(st)
            } else {
                stakes_read(s, a, p)
            }) by {
                lemma_stakes_read_push(s, e, a, p);
            }
            let t = s.push(e);
            assert(t[s.len() as int].0 == addr && t[s.len() as int].1.pool == pool);
            assert forall|a: u128, p: u8| !(a == addr && p == pool) implies stakes_have(t, a, p)
                == stakes_have(s, a, p) by {
                if stakes_have(s, a, p) {
                    let j = choose|j: int| 0 <= j < s.len() && s[j].0 == a && s[j].1.pool == p;
                    assert(t[j].0 == a && t[j].1.pool == p);
                }
                if stakes_have(t, a, p) {
                    let j = choose|j: int| 0 <= j < t.len() && t[j].0 == a && t[j].1.pool == p;
                    assert(s[j].0 == a && s[j].1.pool == p);
                }
            }
        }
        self.entries.push((addr, st));
    }

    /// Replaces the record at index `i` (same address and pool) after a payout.
    pub fn put(&mut self, i: usize, st: Stake)
        requires
            old(self).wf(),
            (i as int) < old(self).entries@.len(),
            st.pool == old(self).entries@[i as int].1.pool,
            stake_ok(old(self).entries@[i as int].0, st),
        ensures
            final(self).wf(),
            final(self).read(old(self).entries@[i as int].0, st.pool) == Some(st),
            forall|a: u128, p: u8|
                !(a == old(self).entries@[i as int].0 && p == st.pool) ==> final(self).read(a, p)
                    == old(self).read(a, p),
            forall|a: u128, p: u8| final(self).has(a, p) == old(self).has(a, p),
    {
        let ghost s = self.entries@;
        let ghost addr = self.entries@[i as int].0;
        proof {
            let t = s.update(i as int, (addr, st));
            assert forall|a: u128, p: u8| !(a == addr && p == st.pool) implies stakes_read(
                t,
                a,
                p,
            ) == stakes_read(s, a, p) by {
                lemma_stakes_read_update(s, i as int, st, a, p);
            }
            lemma_stakes_read_at(t, i as int);
            assert forall|a: u128, p: u8| true implies stakes_have(t, a, p) == stakes_have(
                s,
                a,
                p,
            ) by {
                if stakes_have(s, a, p) {
                    let j = choose|j: int| 0 <= j < s.len() && s[j].0 == a && s[j].1.pool == p;
                    assert(t[j].0 == a && t[j].1.pool == p);
                }
                if stakes_have(t, a, p) {
                    let j = choose|j: int| 0 <= j < t.len() && t[j].0 == a && t[j].1.pool == p;
                    assert(s[j].0 == a && s[j].1.pool == p);
                }
            }
        }
        let slot = &mut self.entries[i];
        let who = slot.0;
        *slot = (who, st);
    }

    /// All records of one address, cloned out in registration order.
    pub fn collect_for(&self, addr: u128) -> (r: Vec<Stake>)
        requires
            self.wf(),
        ensures
            r@ == self.of_address(addr),
    {
        let n = self.entries.len();
        let mut out: Vec<Stake> = Vec::new();
        let mut i: usize = 0;
        proof {
            assert(self.entries@.subrange(0, n as int) =~= self.entries@);
        }
        while i < n
            invariant
                i <= n,
                n == self.entries@.len(),
                self.wf(),
                stakes_of(self.entries@, addr) =~= out@ + stakes_of(
                    self.entries@.subrange(i as int, n as int),
                    addr,
                ),
            decreases n - i,
        {
            let ghost tail = self.entries@.subrange(i as int, n as int);
            proof {
                assert(tail.drop_first() =~= self.entries@.subrange(i as int + 1, n as int));
                assert(tail[0] == self.entries@[i as int]);
            }
            let ghost out0 = out@;
            let e = &self.entries[i];
            if e.0 == addr {
                out.push(e.1);
                proof {
                    let rest = stakes_of(self.entries@.subrange(i as int + 1, n as int), addr);
                    assert(out0 + (seq![self.entries@[i as int].1] + rest) =~= out@ + rest);
                }
            }
            i += 1;
        }
        proof {
            assert(self.entries@.subrange(n as int, n as int) =~= Seq::<(u128, Stake)>::empty());
            assert(out@ + Seq::<Stake>::empty() =~= out@);
        }
        out
    }
}

} // verus!
