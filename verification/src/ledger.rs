//! Ledger operations: transfer, delegated transfer and approval.
//!
//! Transfers are coupled to the supply and the rewards pool: a transfer out
//! of the owner emits tokens into circulation, a transfer into the owner
//! retires them and replenishes the rewards pool by the same amount. A
//! self-transfer moves nothing. Checks precede every effect, so a failing
//! operation leaves the state untouched.
//!
//! When several rejections apply at once they are reported in this order:
//! zero addresses first, then the allowance (for delegated transfers), then
//! the sender's balance, then checked-arithmetic failures.

use vstd::prelude::*;
use crate::balances::{lemma_read_le_total, lemma_total_nonneg};
use crate::contract::IlockMvp;
use crate::errors::Error;
use crate::pools::REWARDS;

verus! {

impl IlockMvp {
    /// The rejection, if any, that `transfer` reports.
    pub open spec fn transfer_decision(self, from: u128, to: u128, amount: u128) -> Option<
        Error,
    > {
        if from == 0 || to == 0 {
            Some(Error::ZeroAddress)
        } else if amount > self.balance_spec(from) {
            Some(Error::InsufficientBalance)
        } else if from != to && to == self.owner && from != self.owner && self.pool_balance_spec(
            REWARDS as int,
        ) + amount > u128::MAX {
            Some(Error::Overflow)
        } else {
            None
        }
    }

    /// How a successful movement of `amount` from `from` to `to` relates the
    /// new state to the old, on everything but the allowances: balances move,
    /// emission raises the supply, retirement lowers it and replenishes the
    /// rewards pool, and nothing else changes.
    pub open spec fn move_transition(
        pre: IlockMvp,
        post: IlockMvp,
        from: u128,
        to: u128,
        amount: u128,
    ) -> bool {
        &&& post.owner == pre.owner
        &&& post.stakes == pre.stakes
        &&& post.total_rewarded == pre.total_rewarded
        &&& post.rewarded_by_account == pre.rewarded_by_account
        &&& post.multisig == pre.multisig
        &&& post.paused == pre.paused
        &&& post.dispensed@ == pre.dispensed@
        &&& if from == to {
            &&& post.balances == pre.balances
            &&& post.owner_balance == pre.owner_balance
            &&& post.supply == pre.supply
            &&& post.pool_balances == pre.pool_balances
            &&& post.recovered == pre.recovered
        } else {
            &&& (forall|a: u128|
                a != from && a != to ==> post.balance_spec(a) == pre.balance_spec(a))
            &&& post.balance_spec(from) as int == pre.balance_spec(from) - amount
            &&& post.balance_spec(to) as int == pre.balance_spec(to) + amount
            &&& post.supply as int == pre.supply as int + (if from == pre.owner {
                amount as int
            } else {
                0int
            }) - (if to == pre.owner {
                amount as int
            } else {
                0int
            })
            &&& post.pool_balances@ == (if to == pre.owner && from != pre.owner {
                pre.pool_balances@.update(
                    REWARDS as int,
                    (pre.pool_balance_spec(REWARDS as int) + amount) as u128,
                )
            } else {
                pre.pool_balances@
            })
            &&& post.recovered@ == pre.recovered@ + (if to == pre.owner && from != pre.owner {
                amount as int
            } else {
                0int
            })
        }
    }

    /// Relation of a successful `transfer`: a movement that touches no
    /// allowance.
    pub open spec fn transfer_transition(
        pre: IlockMvp,
        post: IlockMvp,
        from: u128,
        to: u128,
        amount: u128,
    ) -> bool {
        &&& IlockMvp::move_transition(pre, post, from, to, amount)
        &&& post.allowances == pre.allowances
    }

    /// Moves `amount` from `from` to `to` with the supply and rewards-pool
    /// coupling. Callers have already validated everything.
    fn apply_move(&mut self, from: u128, to: u128, amount: u128)
        requires
            old(self).wf(),
            from != 0,
            to != 0,
            from != to,
            amount <= old(self).balance_spec(from),
            to == old(self).owner && from != old(self).owner ==> old(self).pool_balance_spec(
                REWARDS as int,
            ) + amount <= u128::MAX,
        ensures
            final(self).wf(),
            IlockMvp::move_transition(*old(self), *final(self), from, to, amount),
            final(self).allowances == old(self).allowances,
    {
        proof {
            lemma_total_nonneg(self.balances.entries@);
        }
        if from == self.owner {
            // emission: the reserve shrinks, circulation grows
            proof {
                lemma_read_le_total(self.balances.entries@, to);
            }
            let tb = self.balances.get(to);
            self.balances.set(to, tb + amount);
            self.owner_balance = self.owner_balance - amount;
            self.supply = self.supply + amount;
        } else if to == self.owner {
            // retirement: circulation shrinks, the rewards pool is replenished
            proof {
                lemma_read_le_total(self.balances.entries@, from);
            }
            let fb = self.balances.get(from);
            self.balances.set(from, fb - amount);
            self.owner_balance = self.owner_balance + amount;
            self.supply = self.supply - amount;
            let rp = self.pool_balances[REWARDS as usize];
            let slot = &mut self.pool_balances[REWARDS as usize];
            *slot = rp + amount;
            self.recovered = Ghost(self.recovered@ + amount as int);
        } else {
            proof {
                lemma_read_le_total(self.balances.entries@, from);
            }
            let fb = self.balances.get(from);
            self.balances.set(from, fb - amount);
            proof {
                lemma_read_le_total(self.balances.entries@, to);
                lemma_total_nonneg(self.balances.entries@);
            }
            let tb = self.balances.get(to);
            self.balances.set(to, tb + amount);
        }
    }

    /// Transfers `amount` from the caller to `to`.
    ///
    /// Rejects zero addresses and amounts above the caller's balance; when
    /// the recipient is the owner, the retirement must also fit the rewards
    /// pool counter. On success the host should notify a Transfer of
    /// `(caller, to, amount)`.
    pub fn transfer(&mut self, caller: u128, to: u128, amount: u128) -> (r: Result<(), Error>)
        requires
            old(self).wf(),
        ensures
            final(self).wf(),
            match r {
                Ok(()) => old(self).transfer_decision(caller, to, amount) is None
                    && IlockMvp::transfer_transition(*old(self), *final(self), caller, to, amount),
                Err(e) => old(self).transfer_decision(caller, to, amount) == Some(e)
                    && *final(self) == *old(self),
            },
    {
        if caller == 0 || to == 0 {
            return Err(Error::ZeroAddress);
        }
        let from_bal = self.balance_of(caller);
        if amount > from_bal {
            return Err(Error::InsufficientBalance);
        }
        if caller == to {
            return Ok(());
        }
        if to == self.owner && caller != self.owner {
            let rp = self.pool_balances[REWARDS as usize];
            if rp > u128::MAX - amount {
                return Err(Error::Overflow);
            }
        }
        self.apply_move(caller, to, amount);
        Ok(())
    }

    /// The rejection, if any, that `transfer_from` reports.
    pub open spec fn transfer_from_decision(
        self,
        caller: u128,
        from: u128,
        to: u128,
        amount: u128,
    ) -> Option<Error> {
        if from == 0 || to == 0 {
            Some(Error::ZeroAddress)
        } else if amount > self.allowance_spec(from, caller) {
            Some(Error::InsufficientAllowance)
        } else if amount > self.balance_spec(from) {
            Some(Error::InsufficientBalance)
        } else if from != to && to == self.owner && from != self.owner && self.pool_balance_spec(
            REWARDS as int,
        ) + amount > u128::MAX {
            Some(Error::Overflow)
        } else {
            None
        }
    }

    /// Relation of a successful `transfer_from`: the same movement as a
    /// transfer, and exactly the spent allowance is debited.
    pub open spec fn transfer_from_transition(
        pre: IlockMvp,
        post: IlockMvp,
        caller: u128,
        from: u128,
        to: u128,
        amount: u128,
    ) -> bool {
        &&& IlockMvp::move_transition(pre, post, from, to, amount)
        &&& post.allowance_spec(from, caller) as int == pre.allowance_spec(from, caller) - amount
        &&& (forall|o: u128, sp: u128|
            !(o == from && sp == caller) ==> post.allowance_spec(o, sp) == pre.allowance_spec(
                o,
                sp,
            ))
    }

    /// Transfers `amount` from `from` to `to` on the caller's allowance,
    /// debiting the allowance by exactly `amount`.
    ///
    /// On success the host should notify a Transfer of `(from, to, amount)`
    /// and an Approval carrying the remaining allowance.
    pub fn transfer_from(&mut self, caller: u128, from: u128, to: u128, amount: u128) -> (r:
        Result<(), Error>)
        requires
            old(self).wf(),
        ensures
            final(self).wf(),
            match r {
                Ok(()) => old(self).transfer_from_decision(caller, from, to, amount) is None
                    && IlockMvp::transfer_from_transition(
                    *old(self),
                    *final(self),
                    caller,
                    from,
                    to,
                    amount,
                ),
                Err(e) => old(self).transfer_from_decision(caller, from, to, amount) == Some(e)
                    && *final(self) == *old(self),
            },
    {
        if from == 0 || to == 0 {
            return Err(Error::ZeroAddress);
        }
        let granted = self.allowances.get(from, caller);
        if amount > granted {
            return Err(Error::InsufficientAllowance);
        }
        let from_bal = self.balance_of(from);
        if amount > from_bal {
            return Err(Error::InsufficientBalance);
        }
        if from != to && to == self.owner && from != self.owner {
            let rp = self.pool_balances[REWARDS as usize];
            if rp > u128::MAX - amount {
                return Err(Error::Overflow);
            }
        }
        self.allowances.set(from, caller, granted - amount);
        if from != to {
            self.apply_move(from, to, amount);
        }
        Ok(())
    }

    /// The rejection, if any, that `approve` reports.
    pub open spec fn approve_decision(self, caller: u128, spender: u128) -> Option<Error> {
        if caller == 0 || spender == 0 {
            Some(Error::ZeroAddress)
        } else {
            None
        }
    }

    /// Relation of a successful `approve`: the pair's allowance is replaced
    /// and nothing else changes.
    pub open spec fn approve_transition(
        pre: IlockMvp,
        post: IlockMvp,
        caller: u128,
        spender: u128,
        amount: u128,
    ) -> bool {
        &&& post.allowance_spec(caller, spender) == amount
        &&& (forall|o: u128, sp: u128|
            !(o == caller && sp == spender) ==> post.allowance_spec(o, sp) == pre.allowance_spec(
                o,
                sp,
            ))
        &&& post.owner == pre.owner
        &&& post.owner_balance == pre.owner_balance
        &&& post.supply == pre.supply
        &&& post.balances == pre.balances
        &&& post.pool_balances == pre.pool_balances
        &&& post.dispensed == pre.dispensed
        &&& post.recovered == pre.recovered
        &&& post.stakes == pre.stakes
        &&& post.total_rewarded == pre.total_rewarded
        &&& post.rewarded_by_account == pre.rewarded_by_account
        &&& post.multisig == pre.multisig
        &&& post.paused == pre.paused
    }

    /// Grants `spender` an allowance of exactly `amount` over the caller's
    /// funds, replacing any earlier allowance.
    ///
    /// On success the host should notify an Approval of
    /// `(caller, spender, amount)`.
    pub fn approve(&mut self, caller: u128, spender: u128, amount: u128) -> (r: Result<(), Error>)
        requires
            old(self).wf(),
        ensures
            final(self).wf(),
            match r {
                Ok(()) => old(self).approve_decision(caller, spender) is None
                    && IlockMvp::approve_transition(
                    *old(self),
                    *final(self),
                    caller,
                    spender,
                    amount,
                ),
                Err(e) => old(self).approve_decision(caller, spender) == Some(e) && *final(self)
                    == *old(self),
            },
    {
        if caller == 0 || spender == 0 {
            return Err(Error::ZeroAddress);
        }
        self.allowances.set(caller, spender, amount);
        Ok(())
    }
}

} // verus!
