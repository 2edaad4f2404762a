//! The engine state: one ledger, one allowance map, the fixed pool table's
//! mutable balances, the stakeholder registry, the reward counters, and the
//! multisig coordination state, together with the conservation invariant that
//! every operation preserves.

use vstd::prelude::*;
use crate::allowances::AllowanceMap;
use crate::balances::AmountMap;
use crate::errors::Error;
use crate::multisig::{MsFunction, MultisigData, Signature, Transaction, TIME_LIMIT_MIN};
use crate::pools::{pool_alloc, pool_allocation, POOL_COUNT, REWARDS, SUPPLY_CAP};
use crate::stakes::{Stake, StakeTable};

verus! {

/// The token-issuance and governance engine.
///
/// The distinguished `owner` account doubles as the treasury: its balance is
/// the not-yet-circulating reserve, so the circulating supply and the owner's
/// balance always sum to [`SUPPLY_CAP`]. Transfers out of the owner are
/// emissions, transfers into the owner are retirements that replenish the
/// rewards pool.
pub struct IlockMvp {
    /// The distinguished owner/treasury account; never the zero address.
    pub owner: u128,
    /// The owner's reserve balance, always `SUPPLY_CAP - supply`.
    pub owner_balance: u128,
    /// Circulating supply: the sum of all non-owner balances.
    pub supply: u128,
    /// Balances of all accounts other than the owner.
    pub balances: AmountMap,
    /// Remaining allowances granted by `approve`.
    pub allowances: AllowanceMap,
    /// Remaining balance of each pool, indexed as in the pool table.
    pub pool_balances: Vec<u128>,
    /// Ghost history: amount ever released from each pool.
    pub dispensed: Ghost<Seq<int>>,
    /// Ghost history: amount ever retired back into the rewards pool.
    pub recovered: Ghost<int>,
    /// Stakeholder registry.
    pub stakes: StakeTable,
    /// Total amount ever paid out as interlocker rewards.
    pub total_rewarded: u128,
    /// Amount ever paid out as rewards, per recipient.
    pub rewarded_by_account: AmountMap,
    /// Multisig coordination state.
    pub multisig: MultisigData,
    /// Whether the system is paused. The engine records the flag; the host
    /// decides which of its entry points honour it.
    pub paused: bool,
}

impl IlockMvp {
    /// The standing invariant, established by the constructor and preserved
    /// by every operation:
    /// - the owner is a nonzero account held outside the balance map;
    /// - the circulating supply equals the sum of all non-owner balances and
    ///   the owner's reserve tops it up to exactly the supply cap;
    /// - every pool's remaining balance plus everything ever released from it
    ///   equals its initial allocation, plus (for the rewards pool alone)
    ///   everything ever retired into it;
    /// - every stakeholder record was paid exactly its installments so far;
    /// - the signatory set always exceeds the threshold by at least one.
    pub open spec fn wf(self) -> bool {
        &&& self.owner != 0
        &&& self.balances.wf()
        &&& !self.balances.has(self.owner)
        &&& !self.balances.has(0)
        &&& self.supply as int == self.balances.total()
        &&& self.owner_balance as int + self.supply as int == SUPPLY_CAP as int
        &&& self.allowances.wf()
        &&& self.pool_balances@.len() == POOL_COUNT as int
        &&& self.dispensed@.len() == POOL_COUNT as int
        &&& (forall|i: int| 0 <= i < POOL_COUNT as int ==> 0 <= #[trigger] self.dispensed@[i])
        &&& 0 <= self.recovered@
        &&& (forall|i: int|
            0 <= i < POOL_COUNT as int ==> #[trigger] self.pool_balances@[i] as int
                + self.dispensed@[i] == pool_alloc(i) as int + if i == REWARDS as int {
                self.recovered@
            } else {
                0int
            })
        &&& self.stakes.wf()
        &&& self.rewarded_by_account.wf()
        &&& self.multisig.wf()
    }

    /// Balance of any account, the owner's reserve included.
    pub open spec fn balance_spec(self, a: u128) -> u128 {
        if a == self.owner {
            self.owner_balance
        } else {
            self.balances.read(a)
        }
    }

    /// Remaining allowance granted by `o` to spender `sp`.
    pub open spec fn allowance_spec(self, o: u128, sp: u128) -> u128 {
        self.allowances.read(o, sp)
    }

    /// Remaining balance of pool `i`.
    pub open spec fn pool_balance_spec(self, i: int) -> u128 {
        self.pool_balances@[i]
    }

    /// Stakeholder record of `(addr, pool)`, if registered.
    pub open spec fn stake_spec(self, addr: u128, pool: u8) -> Option<Stake> {
        self.stakes.read(addr, pool)
    }

    /// Creates the engine: the caller becomes owner and treasury, holding the
    /// full supply cap as reserve, and forms the initial signatory set with
    /// the two other signatories at the minimum threshold of two. Degenerate
    /// signatory sets and a window below the minimum are construction-time
    /// violations, so they are ruled out rather than reported.
    pub fn new_token(caller: u128, timelimit: u64, signatory_2: u128, signatory_3: u128) -> (r:
        IlockMvp)
        requires
            caller != 0,
            signatory_2 != 0,
            signatory_3 != 0,
            caller != signatory_2,
            caller != signatory_3,
            signatory_2 != signatory_3,
            timelimit >= TIME_LIMIT_MIN,
        ensures
            r.wf(),
            r.owner == caller,
            r.supply == 0,
            r.owner_balance == SUPPLY_CAP,
            forall|a: u128| !r.balances.has(a) && r.balances.read(a) == 0,
            forall|o: u128, sp: u128| r.allowances.read(o, sp) == 0,
            forall|i: int| 0 <= i < POOL_COUNT as int ==> r.pool_balances@[i] == pool_alloc(i),
            forall|a: u128, p: u8| r.stakes.read(a, p) is None && !r.stakes.has(a, p),
            r.total_rewarded == 0,
            forall|a: u128| !r.rewarded_by_account.has(a) && r.rewarded_by_account.read(a) == 0,
            r.multisig.signatories@ =~= seq![caller, signatory_2, signatory_3],
            r.multisig.threshold == 2,
            r.multisig.timelimit == timelimit,
            r.multisig.tx.orderer == 0,
            r.multisig.tx.time == 0,
            r.multisig.tx.signatures@.len() == 0,
            !r.paused,
            r.dispensed@ =~= Seq::new(POOL_COUNT as nat, |i: int| 0int),
            r.recovered@ == 0,
    {
        let mut signatories: Vec<u128> = Vec::new();
        signatories.push(caller);
        signatories.push(signatory_2);
        signatories.push(signatory_3);
        let mut pool_balances: Vec<u128> = Vec::new();
        let mut i: usize = 0;
        while i < POOL_COUNT
            invariant
                i <= POOL_COUNT,
                pool_balances@.len() == i as int,
                forall|j: int| 0 <= j < i as int ==> pool_balances@[j] == pool_alloc(j),
            decreases POOL_COUNT - i,
        {
            pool_balances.push(pool_allocation(i as u8));
            i += 1;
        }
        let r = IlockMvp {
            owner: caller,
            owner_balance: SUPPLY_CAP,
            supply: 0,
            balances: AmountMap::empty(),
            allowances: AllowanceMap::empty(),
            pool_balances,
            dispensed: Ghost(Seq::new(POOL_COUNT as nat, |i: int| 0int)),
            recovered: Ghost(0int),
            stakes: StakeTable::empty(),
            total_rewarded: 0,
            rewarded_by_account: AmountMap::empty(),
            multisig: MultisigData {
                tx: Transaction {
                    orderer: 0,
                    signatures: Vec::new(),
                    function: MsFunction::TransferOwnership,
                    time: 0,
                },
                signatories,
                threshold: 2,
                timelimit,
            },
            paused: false,
        };
        r
    }

    /// Balance of `account`.
    pub fn balance_of(&self, account: u128) -> (r: u128)
        requires
            self.wf(),
        ensures
            r == self.balance_spec(account),
    {
        if account == self.owner {
            self.owner_balance
        } else {
            self.balances.get(account)
        }
    }

    /// Circulating supply: every balance outside the owner's reserve.
    pub fn total_supply(&self) -> (r: u128)
        ensures
            r == self.supply,
    {
        self.supply
    }

    /// Remaining allowance granted by `account` to `spender`.
    pub fn allowance(&self, account: u128, spender: u128) -> (r: u128)
        requires
            self.wf(),
        ensures
            r == self.allowance_spec(account, spender),
    {
        self.allowances.get(account, spender)
    }

    /// Remaining balance of pool `pool`, or `InvalidPool` for an unknown
    /// identifier.
    pub fn pool_balance(&self, pool: u8) -> (r: Result<u128, Error>)
        requires
            self.wf(),
        ensures
            (pool as int) < POOL_COUNT as int ==> r == Ok::<u128, Error>(
                self.pool_balance_spec(pool as int),
            ),
            (pool as int) >= POOL_COUNT as int ==> r == Err::<u128, Error>(Error::InvalidPool),
    {
        if (pool as usize) < POOL_COUNT {
            Ok(self.pool_balances[pool as usize])
        } else {
            Err(Error::InvalidPool)
        }
    }

    /// The distinguished owner/treasury account.
    pub fn get_owner(&self) -> (r: u128)
        ensures
            r == self.owner,
    {
        self.owner
    }

    /// Whether the system is paused.
    pub fn is_paused(&self) -> (r: bool)
        ensures
            r == self.paused,
    {
        self.paused
    }

    /// Total amount ever paid out as interlocker rewards.
    pub fn rewarded_total(&self) -> (r: u128)
        ensures
            r == self.total_rewarded,
    {
        self.total_rewarded
    }

    /// Amount ever paid out as rewards to `interlocker`, or `None` if that
    /// account was never rewarded.
    pub fn rewarded_interlocker_total(&self, interlocker: u128) -> (r: Option<u128>)
        requires
            self.wf(),
        ensures
            self.rewarded_by_account.has(interlocker) ==> r == Some(
                self.rewarded_by_account.read(interlocker),
            ),
            !self.rewarded_by_account.has(interlocker) ==> r is None,
    {
        if self.rewarded_by_account.contains(interlocker) {
            Some(self.rewarded_by_account.get(interlocker))
        } else {
            None
        }
    }

    /// Current signature threshold.
    pub fn threshold(&self) -> (r: u16)
        ensures
            r == self.multisig.threshold,
    {
        self.multisig.threshold
    }

    /// Current staleness window for multisig transactions.
    pub fn multisigtimelimit(&self) -> (r: u64)
        ensures
            r == self.multisig.timelimit,
    {
        self.multisig.timelimit
    }

    /// Number of signatories permitted to sign.
    pub fn signatory_count(&self) -> (r: u8)
        requires
            self.wf(),
        ensures
            r as int == self.multisig.signatories@.len(),
    {
        self.multisig.signatories.len() as u8
    }

    /// Number of signatures collected on the in-flight transaction.
    pub fn signature_count(&self) -> (r: u8)
        requires
            self.wf(),
        ensures
            r as int == self.multisig.tx.signatures@.len(),
    {
        self.multisig.tx.signatures.len() as u8
    }

    /// The signatory set; only a signatory may list it.
    pub fn signatories(&self, caller: u128) -> (r: Result<Vec<u128>, Error>)
        requires
            self.wf(),
        ensures
            match r {
                Ok(v) => self.multisig.is_signatory(caller) && v@
                    == self.multisig.signatories@,
                Err(e) => e == Error::CallerNotSignatory && !self.multisig.is_signatory(caller),
            },
    {
        if !self.multisig.check_signatory(caller) {
            return Err(Error::CallerNotSignatory);
        }
        let n = self.multisig.signatories.len();
        let mut out: Vec<u128> = Vec::new();
        let mut i: usize = 0;
        while i < n
            invariant
                i <= n,
                n == self.multisig.signatories@.len(),
                out@ =~= self.multisig.signatories@.subrange(0, i as int),
            decreases n - i,
        {
            out.push(self.multisig.signatories[i]);
            i += 1;
        }
        proof {
            assert(out@ =~= self.multisig.signatories@);
        }
        Ok(out)
    }

    /// The signatures collected so far; only a signatory may list them, and
    /// only while the transaction's window has not fully elapsed.
    pub fn check_signatures(&self, caller: u128, now: u64) -> (r: Result<Vec<Signature>, Error>)
        requires
            self.wf(),
            now >= self.multisig.tx.time,
        ensures
            match r {
                Ok(v) => self.multisig.is_signatory(caller) && now - self.multisig.tx.time
                    <= self.multisig.timelimit && v@ == self.multisig.tx.signatures@,
                Err(e) => (if !self.multisig.is_signatory(caller) {
                    e == Error::CallerNotSignatory
                } else {
                    e == Error::TransactionStale && now - self.multisig.tx.time
                        > self.multisig.timelimit
                }),
            },
    {
        if !self.multisig.check_signatory(caller) {
            return Err(Error::CallerNotSignatory);
        }
        if now - self.multisig.tx.time > self.multisig.timelimit {
            return Err(Error::TransactionStale);
        }
        let n = self.multisig.tx.signatures.len();
        let mut out: Vec<Signature> = Vec::new();
        let mut i: usize = 0;
        while i < n
            invariant
                i <= n,
                n == self.multisig.tx.signatures@.len(),
                out@ =~= self.multisig.tx.signatures@.subrange(0, i as int),
            decreases n - i,
        {
            out.push(self.multisig.tx.signatures[i]);
            i += 1;
        }
        proof {
            assert(out@ =~= self.multisig.tx.signatures@);
        }
        Ok(out)
    }

    /// All stakeholder records registered for `stakeholder`, or
    /// `StakeholderNotFound` if there are none.
    pub fn get_stakes(&self, stakeholder: u128) -> (r: Result<Vec<Stake>, Error>)
        requires
            self.wf(),
        ensures
            match r {
                Ok(v) => v@ == self.stakes.of_address(stakeholder) && v@.len() > 0,
                Err(e) => e == Error::StakeholderNotFound && self.stakes.of_address(
                    stakeholder,
                ).len() == 0,
            },
    {
        let v = self.stakes.collect_for(stakeholder);
        if v.len() == 0 {
            Err(Error::StakeholderNotFound)
        } else {
            Ok(v)
        }
    }
}

} // verus!
