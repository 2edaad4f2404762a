//! Stakeholder registration and the vesting payout state machine.
//!
//! Each successful `distribute_tokens` call pays exactly one installment:
//! the floored per-period amount, or that amount plus the division remainder
//! on the final installment, so that the cumulative amount paid reaches the
//! share exactly. At most one installment may be taken per elapsed period; a
//! stakeholder who skipped periods may catch up with repeated calls.

use vstd::prelude::*;
use crate::balances::{lemma_read_le_total, lemma_total_nonneg};
use crate::contract::IlockMvp;
use crate::errors::Error;
use crate::pools::{lemma_pool_table, pool_cliffs, pool_params, pool_vests, POOL_COUNT, SUPPLY_CAP};
use crate::stakes::{lemma_vesting_step, stake_installment, Stake};

verus! {

impl IlockMvp {
    /// How a disbursement of `amount` from pool `pool` to `recipient` relates
    /// the new state to the old, on everything but the stakeholder registry
    /// and the reward counters: the pool is debited, the release is recorded,
    /// and — unless the recipient is the owner, whose reserve the amount then
    /// simply re-enters — the reserve shrinks while the recipient's balance
    /// and the circulating supply grow.
    pub open spec fn disburse_effects(
        pre: IlockMvp,
        post: IlockMvp,
        pool: u8,
        recipient: u128,
        amount: u128,
    ) -> bool {
        &&& post.owner == pre.owner
        &&& post.allowances == pre.allowances
        &&& post.multisig == pre.multisig
        &&& post.paused == pre.paused
        &&& post.recovered == pre.recovered
        &&& post.pool_balances@ == pre.pool_balances@.update(
            pool as int,
            (pre.pool_balance_spec(pool as int) - amount) as u128,
        )
        &&& post.dispensed@ == pre.dispensed@.update(
            pool as int,
            pre.dispensed@[pool as int] + amount,
        )
        &&& if recipient == pre.owner {
            &&& post.balances == pre.balances
            &&& post.owner_balance == pre.owner_balance
            &&& post.supply == pre.supply
        } else {
            &&& post.balance_spec(recipient) as int == pre.balance_spec(recipient) + amount
            &&& post.owner_balance as int == pre.owner_balance - amount
            &&& (forall|a: u128|
                a != recipient && a != pre.owner ==> post.balance_spec(a) == pre.balance_spec(a))
            &&& post.supply as int == pre.supply + amount
        }
    }

    /// Releases `amount` base units from pool `pool` into `recipient`'s
    /// balance. Callers have already validated everything.
    pub(crate) fn release_from_pool(&mut self, pool: u8, recipient: u128, amount: u128)
        requires
            old(self).wf(),
            (pool as int) < POOL_COUNT as int,
            recipient != 0,
            amount <= old(self).pool_balance_spec(pool as int),
            recipient != old(self).owner ==> old(self).supply as int + amount <= SUPPLY_CAP as int,
        ensures
            final(self).wf(),
            IlockMvp::disburse_effects(*old(self), *final(self), pool, recipient, amount),
            final(self).stakes == old(self).stakes,
            final(self).total_rewarded == old(self).total_rewarded,
            final(self).rewarded_by_account == old(self).rewarded_by_account,
    {
        let pb = self.pool_balances[pool as usize];
        let slot = &mut self.pool_balances[pool as usize];
        *slot = pb - amount;
        self.dispensed = Ghost(
            self.dispensed@.update(pool as int, self.dispensed@[pool as int] + amount),
        );
        if recipient != self.owner {
            proof {
                lemma_read_le_total(self.balances.entries@, recipient);
                lemma_total_nonneg(self.balances.entries@);
            }
            let rb = self.balances.get(recipient);
            self.balances.set(recipient, rb + amount);
            self.owner_balance = self.owner_balance - amount;
            self.supply = self.supply + amount;
        }
    }

    /// The rejection, if any, that `register_stakeholder` reports.
    pub open spec fn register_decision(self, caller: u128, stakeholder: u128, pool: u8) -> Option<
        Error,
    > {
        if caller != self.owner {
            Some(Error::CallerNotOwner)
        } else if (pool as int) >= POOL_COUNT as int {
            Some(Error::InvalidPool)
        } else if stakeholder == 0 {
            Some(Error::ZeroAddress)
        } else if self.stakes.has(stakeholder, pool) {
            Some(Error::StakeholderAlreadyRegistered)
        } else {
            None
        }
    }

    /// Relation of a successful registration: a fresh record with nothing
    /// paid, and nothing else changes.
    pub open spec fn register_transition(
        pre: IlockMvp,
        post: IlockMvp,
        stakeholder: u128,
        share: u128,
        pool: u8,
    ) -> bool {
        &&& post.stake_spec(stakeholder, pool) == Some(
            Stake { pool, share, paid: 0, periods_paid: 0, registered: true },
        )
        &&& (forall|a: u128, p: u8|
            !(a == stakeholder && p == pool) ==> post.stake_spec(a, p) == pre.stake_spec(a, p))
        &&& post.owner == pre.owner
        &&& post.owner_balance == pre.owner_balance
        &&& post.supply == pre.supply
        &&& post.balances == pre.balances
        &&& post.allowances == pre.allowances
        &&& post.pool_balances == pre.pool_balances
        &&& post.dispensed == pre.dispensed
        &&& post.recovered == pre.recovered
        &&& post.total_rewarded == pre.total_rewarded
        &&& post.rewarded_by_account == pre.rewarded_by_account
        &&& post.multisig == pre.multisig
        &&& post.paused == pre.paused
    }

    /// Registers `stakeholder` for a share vesting from pool `pool`. Only the
    /// owner may register; one record per address and pool. The share is
    /// fixed here and never mutated afterwards. `flag` selects nothing in the
    /// accounting core and is accepted for interface compatibility.
    pub fn register_stakeholder(
        &mut self,
        caller: u128,
        stakeholder: u128,
        share: u128,
        pool: u8,
        flag: bool,
    ) -> (r: Result<(), Error>)
        requires
            old(self).wf(),
        ensures
            final(self).wf(),
            match r {
                Ok(()) => old(self).register_decision(caller, stakeholder, pool) is None
                    && IlockMvp::register_transition(
                    *old(self),
                    *final(self),
                    stakeholder,
                    share,
                    pool,
                ),
                Err(e) => old(self).register_decision(caller, stakeholder, pool) == Some(e)
                    && *final(self) == *old(self),
            },
    {
        let _ = flag;
        if caller != self.owner {
            return Err(Error::CallerNotOwner);
        }
        if (pool as usize) >= POOL_COUNT {
            return Err(Error::InvalidPool);
        }
        if stakeholder == 0 {
            return Err(Error::ZeroAddress);
        }
        if self.stakes.find(stakeholder, pool).is_some() {
            return Err(Error::StakeholderAlreadyRegistered);
        }
        self.stakes.register(stakeholder, pool, share);
        Ok(())
    }

    /// The installment due next for stakeholder record `st`.
    pub open spec fn installment_due(st: Stake) -> int {
        stake_installment(st.share, pool_vests(st.pool as int), st.periods_paid)
    }

    /// The rejection, if any, that `distribute_tokens` reports at period
    /// `period`.
    pub open spec fn distribute_decision(
        self,
        caller: u128,
        stakeholder: u128,
        pool: u8,
        period: u64,
    ) -> Option<Error> {
        if caller != self.owner {
            Some(Error::CallerNotOwner)
        } else if (pool as int) >= POOL_COUNT as int {
            Some(Error::InvalidPool)
        } else if self.stake_spec(stakeholder, pool) is None {
            Some(Error::StakeholderNotFound)
        } else {
            let st = self.stake_spec(stakeholder, pool)->Some_0;
            if period < pool_cliffs(pool as int) {
                Some(Error::CliffNotPassed)
            } else if st.paid == st.share {
                Some(Error::StakeholderSharePaid)
            } else if st.periods_paid as int > period as int - pool_cliffs(pool as int) as int {
                Some(Error::PayoutTooEarly)
            } else if IlockMvp::installment_due(st) > self.pool_balance_spec(pool as int) as int {
                Some(Error::Overflow)
            } else if stakeholder != self.owner && self.supply as int + IlockMvp::installment_due(
                st,
            ) > SUPPLY_CAP as int {
                Some(Error::Overflow)
            } else {
                None
            }
        }
    }

    /// Relation of a successful payout: the record gains one installment and
    /// exactly that amount moves from the pool into the stakeholder's
    /// balance.
    pub open spec fn distribute_transition(
        pre: IlockMvp,
        post: IlockMvp,
        stakeholder: u128,
        pool: u8,
    ) -> bool {
        let st = pre.stake_spec(stakeholder, pool)->Some_0;
        let pay = IlockMvp::installment_due(st);
        &&& post.stake_spec(stakeholder, pool) == Some(
            Stake {
                pool,
                share: st.share,
                paid: (st.paid + pay) as u128,
                periods_paid: (st.periods_paid + 1) as u64,
                registered: true,
            },
        )
        &&& (forall|a: u128, p: u8|
            !(a == stakeholder && p == pool) ==> post.stake_spec(a, p) == pre.stake_spec(a, p))
        &&& IlockMvp::disburse_effects(pre, post, pool, stakeholder, pay as u128)
        &&& post.total_rewarded == pre.total_rewarded
        &&& post.rewarded_by_account == pre.rewarded_by_account
    }

    /// Pays the next vesting installment of `(stakeholder, pool)` out of the
    /// pool, provided the cliff has passed, the share is not fully paid, and
    /// no installment was already taken for the current period. Only the
    /// owner may distribute. A failing checked subtraction on the pool or a
    /// release that would breach the supply cap is reported as `Overflow`
    /// before anything changes.
    pub fn distribute_tokens(
        &mut self,
        caller: u128,
        stakeholder: u128,
        pool: u8,
        period: u64,
    ) -> (r: Result<(), Error>)
        requires
            old(self).wf(),
        ensures
            final(self).wf(),
            match r {
                Ok(()) => old(self).distribute_decision(caller, stakeholder, pool, period) is None
                    && IlockMvp::distribute_transition(*old(self), *final(self), stakeholder, pool),
                Err(e) => old(self).distribute_decision(caller, stakeholder, pool, period) == Some(
                    e,
                ) && *final(self) == *old(self),
            },
    {
        if caller != self.owner {
            return Err(Error::CallerNotOwner);
        }
        if (pool as usize) >= POOL_COUNT {
            return Err(Error::InvalidPool);
        }
        let idx = match self.stakes.find(stakeholder, pool) {
            Some(i) => i,
            None => {
                return Err(Error::StakeholderNotFound);
            },
        };
        let st = self.stakes.entries[idx].1;
        let params = pool_params(pool);
        proof {
            lemma_pool_table(pool as int);
        }
        if period < params.cliffs {
            return Err(Error::CliffNotPassed);
        }
        if st.paid == st.share {
            return Err(Error::StakeholderSharePaid);
        }
        if st.periods_paid > period - params.cliffs {
            return Err(Error::PayoutTooEarly);
        }
        proof {
            // the record is not fully paid, so an installment remains
            if st.periods_paid == params.vests {
                assert(st.paid == st.share);
            }
            lemma_vesting_step(st.share, params.vests, st.periods_paid);
        }
        let base = st.share / (params.vests as u128);
        let payout = if st.periods_paid + 1 == params.vests {
            base + st.share % (params.vests as u128)
        } else {
            base
        };
        if payout > self.pool_balances[pool as usize] {
            return Err(Error::Overflow);
        }
        if stakeholder != self.owner && payout > SUPPLY_CAP - self.supply {
            return Err(Error::Overflow);
        }
        let new_st = Stake {
            pool,
            share: st.share,
            paid: st.paid + payout,
            periods_paid: st.periods_paid + 1,
            registered: true,
        };
        self.stakes.put(idx, new_st);
        self.release_from_pool(pool, stakeholder, payout);
        Ok(())
    }
}

} // verus!
