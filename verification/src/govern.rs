//! The multisig coordination protocol and the privileged mutations it gates.
//!
//! One transaction slot is shared by all signatories. A signatory orders a
//! transaction for a named privileged function — ordering counts as the first
//! signature — and the other signatories sign it while its time window is
//! open. Once the signature count reaches the threshold, any signatory may
//! run the privileged operation, which re-validates the quorum, applies its
//! mutation, and consumes the slot. A stale transaction cannot be re-ordered
//! by its own orderer, so a single jammed or corrupted signatory can never
//! monopolize the slot.

use vstd::prelude::*;
use crate::contract::IlockMvp;
use crate::errors::Error;
use crate::multisig::{
    ms_function_of_name, parse_ms_function, Signature, THRESHOLD_MIN, TIME_LIMIT_MIN,
};

verus! {

impl IlockMvp {
    /// Everything outside the multisig state and the pause flag is untouched.
    pub open spec fn ledger_unchanged(pre: IlockMvp, post: IlockMvp) -> bool {
        &&& post.owner == pre.owner
        &&& post.owner_balance == pre.owner_balance
        &&& post.supply == pre.supply
        &&& post.balances == pre.balances
        &&& post.allowances == pre.allowances
        &&& post.pool_balances == pre.pool_balances
        &&& post.dispensed == pre.dispensed
        &&& post.recovered == pre.recovered
        &&& post.stakes == pre.stakes
        &&& post.total_rewarded == pre.total_rewarded
        &&& post.rewarded_by_account == pre.rewarded_by_account
    }

    /// The signatory set, threshold and time limit are untouched.
    pub open spec fn sig_config_unchanged(pre: IlockMvp, post: IlockMvp) -> bool {
        &&& post.multisig.signatories == pre.multisig.signatories
        &&& post.multisig.threshold == pre.multisig.threshold
        &&& post.multisig.timelimit == pre.multisig.timelimit
    }

    /// The transaction slot was consumed: no orderer, no signatures, time
    /// zeroed (and therefore stale until the next order).
    pub open spec fn tx_reset(pre: IlockMvp, post: IlockMvp) -> bool {
        &&& post.multisig.tx.orderer == 0
        &&& post.multisig.tx.time == 0
        &&& post.multisig.tx.signatures@.len() == 0
        &&& post.multisig.tx.function == pre.multisig.tx.function
    }

    /// The transaction slot is untouched.
    pub open spec fn tx_unchanged(pre: IlockMvp, post: IlockMvp) -> bool {
        &&& post.multisig.tx.orderer == pre.multisig.tx.orderer
        &&& post.multisig.tx.time == pre.multisig.tx.time
        &&& post.multisig.tx.signatures@ == pre.multisig.tx.signatures@
        &&& post.multisig.tx.function == pre.multisig.tx.function
    }

    /// The rejection, if any, that the quorum check reports at time `now` for
    /// the function named `name`: the caller must be a signatory, the
    /// signature count must reach the threshold, the transaction must still
    /// be within its window, and the name must denote exactly the in-flight
    /// function.
    pub open spec fn multisig_decision(self, caller: u128, now: u64, name: Seq<char>) -> Option<
        Error,
    > {
        if !self.multisig.is_signatory(caller) {
            Some(Error::CallerNotSignatory)
        } else if self.multisig.tx.signatures@.len() < self.multisig.threshold as int {
            Some(Error::NotEnoughSignatures)
        } else if now - self.multisig.tx.time >= self.multisig.timelimit {
            Some(Error::TransactionStale)
        } else if ms_function_of_name(name) is None {
            Some(Error::InvalidFunction)
        } else if ms_function_of_name(name)->Some_0 != self.multisig.tx.function {
            Some(Error::WrongFunction)
        } else {
            None
        }
    }

    /// The quorum check run by every privileged operation. It mutates
    /// nothing itself; the operation that passes it consumes the slot.
    pub fn check_multisig(&self, caller: u128, now: u64, function: &str) -> (r: Result<(), Error>)
        requires
            now >= self.multisig.tx.time,
        ensures
            match r {
                Ok(()) => self.multisig_decision(caller, now, function@) is None,
                Err(e) => self.multisig_decision(caller, now, function@) == Some(e),
            },
    {
        if !self.multisig.check_signatory(caller) {
            return Err(Error::CallerNotSignatory);
        }
        if (self.multisig.tx.signatures.len() as u64) < (self.multisig.threshold as u64) {
            return Err(Error::NotEnoughSignatures);
        }
        if now - self.multisig.tx.time >= self.multisig.timelimit {
            return Err(Error::TransactionStale);
        }
        let f = match parse_ms_function(function) {
            Some(f) => f,
            None => {
                return Err(Error::InvalidFunction);
            },
        };
        if f != self.multisig.tx.function {
            return Err(Error::WrongFunction);
        }
        Ok(())
    }

    /// Consumes the transaction slot after a privileged operation ran.
    fn consume_tx(&mut self)
        ensures
            IlockMvp::tx_reset(*old(self), *final(self)),
            IlockMvp::ledger_unchanged(*old(self), *final(self)),
            IlockMvp::sig_config_unchanged(*old(self), *final(self)),
            final(self).paused == old(self).paused,
    {
        self.multisig.tx.orderer = 0;
        self.multisig.tx.time = 0;
        self.multisig.tx.signatures = Vec::new();
    }

    /// The rejection, if any, that `order_multisigtx` reports.
    pub open spec fn order_decision(self, caller: u128, now: u64, name: Seq<char>) -> Option<
        Error,
    > {
        if !self.multisig.is_signatory(caller) {
            Some(Error::CallerNotSignatory)
        } else if now - self.multisig.tx.time < self.multisig.timelimit {
            Some(Error::TransactionAlreadyOrdered)
        } else if caller == self.multisig.tx.orderer {
            Some(Error::CannotReorder)
        } else if ms_function_of_name(name) is None {
            Some(Error::InvalidFunction)
        } else {
            None
        }
    }

    /// Relation of a successful order: the slot is reset to the caller's
    /// transaction, carrying the caller's own signature as the first one.
    pub open spec fn order_transition(
        pre: IlockMvp,
        post: IlockMvp,
        caller: u128,
        now: u64,
        name: Seq<char>,
    ) -> bool {
        &&& IlockMvp::ledger_unchanged(pre, post)
        &&& IlockMvp::sig_config_unchanged(pre, post)
        &&& post.paused == pre.paused
        &&& post.multisig.tx.orderer == caller
        &&& post.multisig.tx.function == ms_function_of_name(name)->Some_0
        &&& post.multisig.tx.time == now
        &&& post.multisig.tx.signatures@ == seq![Signature { signer: caller, time: now }]
    }

    /// Orders a multisig transaction for the privileged function named
    /// `function`. Only a signatory may order; the slot must be free (its
    /// window elapsed), and the orderer of the stale transaction may not
    /// order the next one.
    pub fn order_multisigtx(&mut self, caller: u128, now: u64, function: &str) -> (r: Result<
        (),
        Error,
    >)
        requires
            old(self).wf(),
            now >= old(self).multisig.tx.time,
        ensures
            final(self).wf(),
            match r {
                Ok(()) => old(self).order_decision(caller, now, function@) is None
                    && IlockMvp::order_transition(*old(self), *final(self), caller, now, function@),
                Err(e) => old(self).order_decision(caller, now, function@) == Some(e) && *final(self) == *old(self),
            },
    {
        if !self.multisig.check_signatory(caller) {
            return Err(Error::CallerNotSignatory);
        }
        if now - self.multisig.tx.time < self.multisig.timelimit {
            return Err(Error::TransactionAlreadyOrdered);
        }
        if caller == self.multisig.tx.orderer {
            return Err(Error::CannotReorder);
        }
        let f = match parse_ms_function(function) {
            Some(f) => f,
            None => {
                return Err(Error::InvalidFunction);
            },
        };
        self.multisig.tx.orderer = caller;
        self.multisig.tx.function = f;
        self.multisig.tx.time = now;
        let mut sigs: Vec<Signature> = Vec::new();
        sigs.push(Signature { signer: caller, time: now });
        self.multisig.tx.signatures = sigs;
        proof {
            assert(self.multisig.tx.signatures@ =~= seq![Signature { signer: caller, time: now }]);
        }
        Ok(())
    }

    /// The rejection, if any, that `sign_multisigtx` reports.
    pub open spec fn sign_decision(self, caller: u128, now: u64, name: Seq<char>) -> Option<
        Error,
    > {
        if !self.multisig.is_signatory(caller) {
            Some(Error::CallerNotSignatory)
        } else if ms_function_of_name(name) is None {
            Some(Error::InvalidFunction)
        } else if ms_function_of_name(name)->Some_0 != self.multisig.tx.function {
            Some(Error::WrongFunction)
        } else if now - self.multisig.tx.time >= self.multisig.timelimit {
            Some(Error::TransactionStale)
        } else if self.multisig.has_signed(caller) {
            Some(Error::AlreadySigned)
        } else if self.multisig.tx.signatures@.len() >= 255 {
            Some(Error::Overflow)
        } else {
            None
        }
    }

    /// Relation of a successful signing: exactly the caller's signature is
    /// appended.
    pub open spec fn sign_transition(
        pre: IlockMvp,
        post: IlockMvp,
        caller: u128,
        now: u64,
    ) -> bool {
        &&& IlockMvp::ledger_unchanged(pre, post)
        &&& IlockMvp::sig_config_unchanged(pre, post)
        &&& post.paused == pre.paused
        &&& post.multisig.tx.orderer == pre.multisig.tx.orderer
        &&& post.multisig.tx.function == pre.multisig.tx.function
        &&& post.multisig.tx.time == pre.multisig.tx.time
        &&& post.multisig.tx.signatures@ == pre.multisig.tx.signatures@.push(
            Signature { signer: caller, time: now },
        )
    }

    /// Signs the in-flight transaction for the privileged function named
    /// `function`. Only a signatory may sign, only for the ordered function,
    /// only within the window, and only once.
    pub fn sign_multisigtx(&mut self, caller: u128, now: u64, function: &str) -> (r: Result<
        (),
        Error,
    >)
        requires
            old(self).wf(),
            now >= old(self).multisig.tx.time,
        ensures
            final(self).wf(),
            match r {
                Ok(()) => old(self).sign_decision(caller, now, function@) is None
                    && IlockMvp::sign_transition(*old(self), *final(self), caller, now),
                Err(e) => old(self).sign_decision(caller, now, function@) == Some(e) && *final(self) == *old(self),
            },
    {
        if !self.multisig.check_signatory(caller) {
            return Err(Error::CallerNotSignatory);
        }
        let f = match parse_ms_function(function) {
            Some(f) => f,
            None => {
                return Err(Error::InvalidFunction);
            },
        };
        if f != self.multisig.tx.function {
            return Err(Error::WrongFunction);
        }
        if now - self.multisig.tx.time >= self.multisig.timelimit {
            return Err(Error::TransactionStale);
        }
        if self.multisig.check_signed(caller) {
            return Err(Error::AlreadySigned);
        }
        if self.multisig.tx.signatures.len() >= 255 {
            return Err(Error::Overflow);
        }
        self.multisig.tx.signatures.push(Signature { signer: caller, time: now });
        Ok(())
    }

    /// The rejection, if any, that `add_signatory` reports.
    pub open spec fn add_signatory_decision(
        self,
        caller: u128,
        now: u64,
        signatory: u128,
        name: Seq<char>,
    ) -> Option<Error> {
        if self.multisig_decision(caller, now, name) is Some {
            self.multisig_decision(caller, now, name)
        } else if signatory == 0 {
            Some(Error::ZeroAddress)
        } else if self.multisig.is_signatory(signatory) {
            Some(Error::AlreadySignatory)
        } else if self.multisig.signatories@.len() >= 255 {
            Some(Error::Overflow)
        } else {
            None
        }
    }

    /// Relation of a successful signatory addition.
    pub open spec fn add_signatory_transition(
        pre: IlockMvp,
        post: IlockMvp,
        signatory: u128,
    ) -> bool {
        &&& IlockMvp::ledger_unchanged(pre, post)
        &&& post.paused == pre.paused
        &&& post.multisig.signatories@ == pre.multisig.signatories@.push(signatory)
        &&& post.multisig.threshold == pre.multisig.threshold
        &&& post.multisig.timelimit == pre.multisig.timelimit
        &&& IlockMvp::tx_reset(pre, post)
    }

    /// Adds `signatory` to the signatory set, gated by the quorum check, and
    /// consumes the transaction.
    pub fn add_signatory(
        &mut self,
        caller: u128,
        now: u64,
        signatory: u128,
        function: &str,
    ) -> (r: Result<(), Error>)
        requires
            old(self).wf(),
            now >= old(self).multisig.tx.time,
        ensures
            final(self).wf(),
            match r {
                Ok(()) => old(self).add_signatory_decision(caller, now, signatory, function@)
                    is None && IlockMvp::add_signatory_transition(
                    *old(self),
                    *final(self),
                    signatory,
                ),
                Err(e) => old(self).add_signatory_decision(caller, now, signatory, function@)
                    == Some(e) && *final(self) == *old(self),
            },
    {
        if let Err(e) = self.check_multisig(caller, now, function) {
            return Err(e);
        }
        if signatory == 0 {
            return Err(Error::ZeroAddress);
        }
        if self.multisig.check_signatory(signatory) {
            return Err(Error::AlreadySignatory);
        }
        if self.multisig.signatories.len() >= 255 {
            return Err(Error::Overflow);
        }
        let ghost pre_sigs = self.multisig.signatories@;
        self.multisig.signatories.push(signatory);
        proof {
            assert forall|p: int, q: int|
                0 <= p < q < self.multisig.signatories@.len() implies self.multisig.signatories@[p]
                != self.multisig.signatories@[q] by {
                if q == pre_sigs.len() as int {
                    assert(!pre_sigs.contains(signatory));
                    assert(pre_sigs[p] != signatory);
                }
            }
        }
        self.consume_tx();
        Ok(())
    }

    /// The rejection, if any, that `remove_signatory` reports. The set must
    /// stay strictly larger than the threshold after the removal.
    pub open spec fn remove_signatory_decision(
        self,
        caller: u128,
        now: u64,
        signatory: u128,
        name: Seq<char>,
    ) -> Option<Error> {
        if self.multisig_decision(caller, now, name) is Some {
            self.multisig_decision(caller, now, name)
        } else if signatory == 0 {
            Some(Error::ZeroAddress)
        } else if !self.multisig.is_signatory(signatory) {
            Some(Error::SignatoryNotFound)
        } else if self.multisig.signatories@.len() <= self.multisig.threshold as int + 1 {
            Some(Error::TooFewSignatories)
        } else {
            None
        }
    }

    /// Relation of a successful signatory removal.
    pub open spec fn remove_signatory_transition(
        pre: IlockMvp,
        post: IlockMvp,
        signatory: u128,
    ) -> bool {
        &&& IlockMvp::ledger_unchanged(pre, post)
        &&& post.paused == pre.paused
        &&& (exists|i: int|
            0 <= i < pre.multisig.signatories@.len() && pre.multisig.signatories@[i] == signatory
                && post.multisig.signatories@ == pre.multisig.signatories@.remove(i))
        &&& post.multisig.threshold == pre.multisig.threshold
        &&& post.multisig.timelimit == pre.multisig.timelimit
        &&& IlockMvp::tx_reset(pre, post)
    }

    /// Removes `signatory` from the signatory set, gated by the quorum
    /// check; rejected with `TooFewSignatories` whenever the set would drop
    /// to the threshold or below. Consumes the transaction.
    pub fn remove_signatory(
        &mut self,
        caller: u128,
        now: u64,
        signatory: u128,
        function: &str,
    ) -> (r: Result<(), Error>)
        requires
            old(self).wf(),
            now >= old(self).multisig.tx.time,
        ensures
            final(self).wf(),
            match r {
                Ok(()) => old(self).remove_signatory_decision(caller, now, signatory, function@)
                    is None && IlockMvp::remove_signatory_transition(
                    *old(self),
                    *final(self),
                    signatory,
                ),
                Err(e) => old(self).remove_signatory_decision(caller, now, signatory, function@)
                    == Some(e) && *final(self) == *old(self),
            },
    {
        if let Err(e) = self.check_multisig(caller, now, function) {
            return Err(e);
        }
        if signatory == 0 {
            return Err(Error::ZeroAddress);
        }
        let idx = match self.multisig.signatory_index(signatory) {
            Some(i) => i,
            None => {
                return Err(Error::SignatoryNotFound);
            },
        };
        if self.multisig.signatories.len() <= (self.multisig.threshold as usize) + 1 {
            return Err(Error::TooFewSignatories);
        }
        let ghost pre_sigs = self.multisig.signatories@;
        self.multisig.signatories.remove(idx);
        proof {
            let t = self.multisig.signatories@;
            assert(forall|j: int|
                0 <= j < t.len() ==> t[j] == (if j < idx as int {
                    pre_sigs[j]
                } else {
                    pre_sigs[j + 1]
                }));
        }
        self.consume_tx();
        Ok(())
    }

    /// The rejection, if any, that `change_threshold` reports. The threshold
    /// has an absolute floor, and the signatory set must stay strictly
    /// larger than the new threshold.
    pub open spec fn change_threshold_decision(
        self,
        caller: u128,
        now: u64,
        new_threshold: u16,
        name: Seq<char>,
    ) -> Option<Error> {
        if self.multisig_decision(caller, now, name) is Some {
            self.multisig_decision(caller, now, name)
        } else if new_threshold < THRESHOLD_MIN {
            Some(Error::UnderThresholdMin)
        } else if new_threshold as int + 1 > u16::MAX as int {
            Some(Error::Overflow)
        } else if self.multisig.signatories@.len() < new_threshold as int + 1 {
            Some(Error::TooFewSignatories)
        } else {
            None
        }
    }

    /// Relation of a successful threshold change.
    pub open spec fn change_threshold_transition(
        pre: IlockMvp,
        post: IlockMvp,
        new_threshold: u16,
    ) -> bool {
        &&& IlockMvp::ledger_unchanged(pre, post)
        &&& post.paused == pre.paused
        &&& post.multisig.signatories == pre.multisig.signatories
        &&& post.multisig.threshold == new_threshold
        &&& post.multisig.timelimit == pre.multisig.timelimit
        &&& IlockMvp::tx_reset(pre, post)
    }

    /// Changes the signature threshold, gated by the quorum check, and
    /// consumes the transaction.
    pub fn change_threshold(
        &mut self,
        caller: u128,
        now: u64,
        threshold: u16,
        function: &str,
    ) -> (r: Result<(), Error>)
        requires
            old(self).wf(),
            now >= old(self).multisig.tx.time,
        ensures
            final(self).wf(),
            match r {
                Ok(()) => old(self).change_threshold_decision(caller, now, threshold, function@)
                    is None && IlockMvp::change_threshold_transition(
                    *old(self),
                    *final(self),
                    threshold,
                ),
                Err(e) => old(self).change_threshold_decision(caller, now, threshold, function@)
                    == Some(e) && *final(self) == *old(self),
            },
    {
        if let Err(e) = self.check_multisig(caller, now, function) {
            return Err(e);
        }
        if threshold < THRESHOLD_MIN {
            return Err(Error::UnderThresholdMin);
        }
        if threshold == u16::MAX {
            return Err(Error::Overflow);
        }
        if self.multisig.signatories.len() < (threshold as usize) + 1 {
            return Err(Error::TooFewSignatories);
        }
        self.multisig.threshold = threshold;
        self.consume_tx();
        Ok(())
    }

    /// The rejection, if any, that `change_multisigtxtimelimit` reports.
    pub open spec fn change_timelimit_decision(
        self,
        caller: u128,
        now: u64,
        new_timelimit: u64,
        name: Seq<char>,
    ) -> Option<Error> {
        if self.multisig_decision(caller, now, name) is Some {
            self.multisig_decision(caller, now, name)
        } else if new_timelimit < TIME_LIMIT_MIN {
            Some(Error::UnderTimeLimit)
        } else {
            None
        }
    }

    /// Relation of a successful time-limit change.
    pub open spec fn change_timelimit_transition(
        pre: IlockMvp,
        post: IlockMvp,
        new_timelimit: u64,
    ) -> bool {
        &&& IlockMvp::ledger_unchanged(pre, post)
        &&& post.paused == pre.paused
        &&& post.multisig.signatories == pre.multisig.signatories
        &&& post.multisig.threshold == pre.multisig.threshold
        &&& post.multisig.timelimit == new_timelimit
        &&& IlockMvp::tx_reset(pre, post)
    }

    /// Changes the staleness window of future transactions, gated by the
    /// quorum check, and consumes the transaction.
    pub fn change_multisigtxtimelimit(
        &mut self,
        caller: u128,
        now: u64,
        timelimit: u64,
        function: &str,
    ) -> (r: Result<(), Error>)
        requires
            old(self).wf(),
            now >= old(self).multisig.tx.time,
        ensures
            final(self).wf(),
            match r {
                Ok(()) => old(self).change_timelimit_decision(caller, now, timelimit, function@)
                    is None && IlockMvp::change_timelimit_transition(
                    *old(self),
                    *final(self),
                    timelimit,
                ),
                Err(e) => old(self).change_timelimit_decision(caller, now, timelimit, function@)
                    == Some(e) && *final(self) == *old(self),
            },
    {
        if let Err(e) = self.check_multisig(caller, now, function) {
            return Err(e);
        }
        if timelimit < TIME_LIMIT_MIN {
            return Err(Error::UnderTimeLimit);
        }
        self.multisig.timelimit = timelimit;
        self.consume_tx();
        Ok(())
    }

    /// Pauses the system. Any signatory may pause at any time; only the
    /// multisig-gated `unpause` lifts it. Pausing twice is a harmless no-op.
    pub fn pause(&mut self, caller: u128) -> (r: Result<(), Error>)
        requires
            old(self).wf(),
        ensures
            final(self).wf(),
            match r {
                Ok(()) => old(self).multisig.is_signatory(caller) && final(self).paused
                    && IlockMvp::ledger_unchanged(*old(self), *final(self))
                    && IlockMvp::sig_config_unchanged(*old(self), *final(self))
                    && IlockMvp::tx_unchanged(*old(self), *final(self)),
                Err(e) => e == Error::CallerNotSignatory && !old(self).multisig.is_signatory(
                    caller,
                ) && *final(self) == *old(self),
            },
    {
        if !self.multisig.check_signatory(caller) {
            return Err(Error::CallerNotSignatory);
        }
        self.paused = true;
        Ok(())
    }

    /// Lifts the pause, gated by the quorum check, and consumes the
    /// transaction. Unpausing an unpaused system is a harmless no-op.
    pub fn unpause(&mut self, caller: u128, now: u64, function: &str) -> (r: Result<(), Error>)
        requires
            old(self).wf(),
            now >= old(self).multisig.tx.time,
        ensures
            final(self).wf(),
            match r {
                Ok(()) => old(self).multisig_decision(caller, now, function@) is None && !final(self).paused && IlockMvp::ledger_unchanged(*old(self), *final(self))
                    && IlockMvp::sig_config_unchanged(*old(self), *final(self))
                    && IlockMvp::tx_reset(*old(self), *final(self)),
                Err(e) => old(self).multisig_decision(caller, now, function@) == Some(e) && *final(self) == *old(self),
            },
    {
        if let Err(e) = self.check_multisig(caller, now, function) {
            return Err(e);
        }
        self.paused = false;
        self.consume_tx();
        Ok(())
    }

    /// The rejection, if any, that `transfer_ownership` reports.
    pub open spec fn transfer_ownership_decision(
        self,
        caller: u128,
        now: u64,
        new_owner: u128,
        name: Seq<char>,
    ) -> Option<Error> {
        if self.multisig_decision(caller, now, name) is Some {
            self.multisig_decision(caller, now, name)
        } else if new_owner == 0 {
            Some(Error::ZeroAddress)
        } else {
            None
        }
    }

    /// Relation of a successful ownership transfer: the treasury role moves
    /// to `new_owner`, whose previously circulating balance is retired into
    /// the reserve it now holds, so conservation is undisturbed. The
    /// previous owner is left as an ordinary account holding nothing.
    pub open spec fn transfer_ownership_transition(
        pre: IlockMvp,
        post: IlockMvp,
        new_owner: u128,
    ) -> bool {
        &&& post.allowances == pre.allowances
        &&& post.pool_balances == pre.pool_balances
        &&& post.dispensed == pre.dispensed
        &&& post.recovered == pre.recovered
        &&& post.stakes == pre.stakes
        &&& post.total_rewarded == pre.total_rewarded
        &&& post.rewarded_by_account == pre.rewarded_by_account
        &&& post.paused == pre.paused
        &&& post.multisig.signatories == pre.multisig.signatories
        &&& post.multisig.threshold == pre.multisig.threshold
        &&& post.multisig.timelimit == pre.multisig.timelimit
        &&& IlockMvp::tx_reset(pre, post)
        &&& post.owner == new_owner
        &&& if new_owner == pre.owner {
            &&& post.owner_balance == pre.owner_balance
            &&& post.supply == pre.supply
            &&& post.balances == pre.balances
        } else {
            &&& post.owner_balance as int == pre.owner_balance + pre.balances.read(new_owner)
            &&& post.supply as int == pre.supply - pre.balances.read(new_owner)
            &&& !post.balances.has(new_owner)
            &&& (forall|a: u128|
                a != new_owner ==> post.balances.read(a) == pre.balances.read(a)
                    && post.balances.has(a) == pre.balances.has(a))
        }
    }

    /// Moves the owner/treasury role to `new_owner`, gated by the quorum
    /// check, and consumes the transaction.
    pub fn transfer_ownership(
        &mut self,
        caller: u128,
        now: u64,
        new_owner: u128,
        function: &str,
    ) -> (r: Result<(), Error>)
        requires
            old(self).wf(),
            now >= old(self).multisig.tx.time,
        ensures
            final(self).wf(),
            match r {
                Ok(()) => old(self).transfer_ownership_decision(caller, now, new_owner, function@)
                    is None && IlockMvp::transfer_ownership_transition(
                    *old(self),
                    *final(self),
                    new_owner,
                ),
                Err(e) => old(self).transfer_ownership_decision(caller, now, new_owner, function@)
                    == Some(e) && *final(self) == *old(self),
            },
    {
        if let Err(e) = self.check_multisig(caller, now, function) {
            return Err(e);
        }
        if new_owner == 0 {
            return Err(Error::ZeroAddress);
        }
        if new_owner != self.owner {
            proof {
                crate::balances::lemma_read_le_total(self.balances.entries@, new_owner);
            }
            let b = self.balances.take_out(new_owner);
            self.owner_balance = self.owner_balance + b;
            self.supply = self.supply - b;
            self.owner = new_owner;
        }
        self.consume_tx();
        Ok(())
    }

    /// Authorizes a code migration, gated by the quorum check, and consumes
    /// the transaction. The engine itself holds no code: once this returns
    /// successfully, the host performs the actual swap.
    pub fn update_contract(&mut self, caller: u128, now: u64, function: &str) -> (r: Result<
        (),
        Error,
    >)
        requires
            old(self).wf(),
            now >= old(self).multisig.tx.time,
        ensures
            final(self).wf(),
            match r {
                Ok(()) => old(self).multisig_decision(caller, now, function@) is None
                    && IlockMvp::ledger_unchanged(*old(self), *final(self))
                    && IlockMvp::sig_config_unchanged(*old(self), *final(self))
                    && final(self).paused == old(self).paused
                    && IlockMvp::tx_reset(*old(self), *final(self)),
                Err(e) => old(self).multisig_decision(caller, now, function@) == Some(e) && *final(self) == *old(self),
            },
    {
        if let Err(e) = self.check_multisig(caller, now, function) {
            return Err(e);
        }
        self.consume_tx();
        Ok(())
    }
}

} // verus!
