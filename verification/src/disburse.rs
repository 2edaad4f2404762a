//! Direct pool disbursement and interlocker rewards.
//!
//! `payout_tokens` releases an immediate, non-vested amount from one of the
//! instantly-spendable pools, selected by name. `reward_interlocker` pays an
//! incentive out of the rewards pool and keeps two running totals, one global
//! and one per recipient. All arithmetic is checked; a failing operation
//! leaves the state untouched.

use vstd::prelude::*;
use crate::contract::IlockMvp;
use crate::errors::Error;
use crate::pools::{parse_payout_pool, payout_pool_of_name, POOL_COUNT, REWARDS, SUPPLY_CAP};

verus! {

impl IlockMvp {
    /// The rejection, if any, that `payout_tokens` reports.
    pub open spec fn payout_decision(
        self,
        caller: u128,
        recipient: u128,
        amount: u128,
        name: Seq<char>,
    ) -> Option<Error> {
        if caller != self.owner {
            Some(Error::CallerNotOwner)
        } else if payout_pool_of_name(name) is None {
            Some(Error::InvalidPool)
        } else {
            let pool = payout_pool_of_name(name)->Some_0;
            if recipient == 0 {
                Some(Error::ZeroAddress)
            } else if amount > self.pool_balance_spec(pool as int) {
                Some(Error::PaymentTooLarge)
            } else if recipient != self.owner && self.supply as int + amount > SUPPLY_CAP as int {
                Some(Error::Overflow)
            } else {
                None
            }
        }
    }

    /// Relation of a successful direct payout: a plain disbursement from the
    /// named pool.
    pub open spec fn payout_transition(
        pre: IlockMvp,
        post: IlockMvp,
        recipient: u128,
        amount: u128,
        name: Seq<char>,
    ) -> bool {
        let pool = payout_pool_of_name(name)->Some_0;
        &&& IlockMvp::disburse_effects(pre, post, pool, recipient, amount)
        &&& post.stakes == pre.stakes
        &&& post.total_rewarded == pre.total_rewarded
        &&& post.rewarded_by_account == pre.rewarded_by_account
    }

    /// Immediately disburses `amount` from the pool named `pool_name` into
    /// `recipient`'s balance. Only the owner may pay out, and only the
    /// partner, community and public pools can be named. On success the host
    /// should notify a Transfer of `(owner, recipient, amount)`.
    pub fn payout_tokens(
        &mut self,
        caller: u128,
        recipient: u128,
        amount: u128,
        pool_name: &str,
    ) -> (r: Result<(), Error>)
        requires
            old(self).wf(),
        ensures
            final(self).wf(),
            match r {
                Ok(()) => old(self).payout_decision(caller, recipient, amount, pool_name@) is None
                    && IlockMvp::payout_transition(
                    *old(self),
                    *final(self),
                    recipient,
                    amount,
                    pool_name@,
                ),
                Err(e) => old(self).payout_decision(caller, recipient, amount, pool_name@) == Some(
                    e,
                ) && *final(self) == *old(self),
            },
    {
        if caller != self.owner {
            return Err(Error::CallerNotOwner);
        }
        let pool = match parse_payout_pool(pool_name) {
            Some(p) => p,
            None => {
                return Err(Error::InvalidPool);
            },
        };
        if recipient == 0 {
            return Err(Error::ZeroAddress);
        }
        if amount > self.pool_balances[pool as usize] {
            return Err(Error::PaymentTooLarge);
        }
        if recipient != self.owner && amount > SUPPLY_CAP - self.supply {
            return Err(Error::Overflow);
        }
        self.release_from_pool(pool, recipient, amount);
        Ok(())
    }

    /// The rejection, if any, that `reward_interlocker` reports.
    pub open spec fn reward_decision(self, caller: u128, amount: u128, interlocker: u128) -> Option<
        Error,
    > {
        if caller != self.owner {
            Some(Error::CallerNotOwner)
        } else if interlocker == 0 {
            Some(Error::ZeroAddress)
        } else if amount > self.pool_balance_spec(REWARDS as int) {
            Some(Error::PaymentTooLarge)
        } else if self.total_rewarded as int + amount > u128::MAX as int {
            Some(Error::Overflow)
        } else if self.rewarded_by_account.read(interlocker) as int + amount > u128::MAX as int {
            Some(Error::Overflow)
        } else if interlocker != self.owner && self.supply as int + amount > SUPPLY_CAP as int {
            Some(Error::Overflow)
        } else {
            None
        }
    }

    /// Relation of a successful reward: a disbursement from the rewards pool
    /// and both running totals grow by exactly the amount.
    pub open spec fn reward_transition(
        pre: IlockMvp,
        post: IlockMvp,
        amount: u128,
        interlocker: u128,
    ) -> bool {
        &&& IlockMvp::disburse_effects(pre, post, REWARDS, interlocker, amount)
        &&& post.stakes == pre.stakes
        &&& post.total_rewarded as int == pre.total_rewarded as int + amount
        &&& post.rewarded_by_account.read(interlocker) as int == pre.rewarded_by_account.read(
            interlocker,
        ) as int + amount
        &&& (forall|a: u128|
            a != interlocker ==> post.rewarded_by_account.read(a)
                == pre.rewarded_by_account.read(a))
    }

    /// Rewards `interlocker` with `amount` from the rewards pool, updating
    /// the global and per-recipient running totals, and returns the
    /// recipient's new total. Only the owner may reward. On success the host
    /// should notify a Reward of `(interlocker, amount)`.
    pub fn reward_interlocker(&mut self, caller: u128, amount: u128, interlocker: u128) -> (r:
        Result<u128, Error>)
        requires
            old(self).wf(),
        ensures
            final(self).wf(),
            match r {
                Ok(v) => old(self).reward_decision(caller, amount, interlocker) is None
                    && IlockMvp::reward_transition(*old(self), *final(self), amount, interlocker)
                    && v == final(self).rewarded_by_account.read(interlocker),
                Err(e) => old(self).reward_decision(caller, amount, interlocker) == Some(e)
                    && *final(self) == *old(self),
            },
    {
        if caller != self.owner {
            return Err(Error::CallerNotOwner);
        }
        if interlocker == 0 {
            return Err(Error::ZeroAddress);
        }
        if amount > self.pool_balances[REWARDS as usize] {
            return Err(Error::PaymentTooLarge);
        }
        if amount > u128::MAX - self.total_rewarded {
            return Err(Error::Overflow);
        }
        let rewarded = self.rewarded_by_account.get(interlocker);
        if amount > u128::MAX - rewarded {
            return Err(Error::Overflow);
        }
        if interlocker != self.owner && amount > SUPPLY_CAP - self.supply {
            return Err(Error::Overflow);
        }
        self.total_rewarded = self.total_rewarded + amount;
        self.rewarded_by_account.set(interlocker, rewarded + amount);
        self.release_from_pool(REWARDS, interlocker, amount);
        Ok(rewarded + amount)
    }
}

} // verus!
