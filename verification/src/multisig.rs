//! Multisig coordination state: the signatory set, the signature threshold,
//! the staleness window, and the single in-flight transaction slot shared by
//! all signatories.

use vstd::prelude::*;
use crate::strutil::str_eq;

verus! {

/// Shortest staleness window a transaction may be given, in milliseconds.
pub const TIME_LIMIT_MIN: u64 = 600_000;

/// Smallest number of signatures a privileged operation may ever require.
pub const THRESHOLD_MIN: u16 = 2;

/// The closed set of privileged functions a multisig transaction can
/// authorize.
#[derive(Clone, Copy, Debug, PartialEq, Eq, Structural)]
pub enum MsFunction {
    TransferOwnership,
    Unpause,
    AddSignatory,
    RemoveSignatory,
    ChangeTimelimit,
    ChangeThreshold,
    UpdateContract,
}

/// The privileged function, if any, that the given name selects.
pub open spec fn ms_function_of_name(s: Seq<char>) -> Option<MsFunction> {
    if s == "TRANSFER_OWNERSHIP"@ {
        Some(MsFunction::TransferOwnership)
    } else if s == "UNPAUSE"@ {
        Some(MsFunction::Unpause)
    } else if s == "ADD_SIGNATORY"@ {
        Some(MsFunction::AddSignatory)
    } else if s == "REMOVE_SIGNATORY"@ {
        Some(MsFunction::RemoveSignatory)
    } else if s == "CHANGE_TIMELIMIT"@ {
        Some(MsFunction::ChangeTimelimit)
    } else if s == "CHANGE_THRESHOLD"@ {
        Some(MsFunction::ChangeThreshold)
    } else if s == "UPDATE_CONTRACT"@ {
        Some(MsFunction::UpdateContract)
    } else {
        None
    }
}

/// Parses a privileged function name.
pub fn parse_ms_function(name: &str) -> (r: Option<MsFunction>)
    ensures
        r == ms_function_of_name(name@),
{
    if str_eq(name, "TRANSFER_OWNERSHIP") {
        Some(MsFunction::TransferOwnership)
    } else if str_eq(name, "UNPAUSE") {
        Some(MsFunction::Unpause)
    } else if str_eq(name, "ADD_SIGNATORY") {
        Some(MsFunction::AddSignatory)
    } else if str_eq(name, "REMOVE_SIGNATORY") {
        Some(MsFunction::RemoveSignatory)
    } else if str_eq(name, "CHANGE_TIMELIMIT") {
        Some(MsFunction::ChangeTimelimit)
    } else if str_eq(name, "CHANGE_THRESHOLD") {
        Some(MsFunction::ChangeThreshold)
    } else if str_eq(name, "UPDATE_CONTRACT") {
        Some(MsFunction::UpdateContract)
    } else {
        None
    }
}

/// One collected signature.
#[derive(Clone, Copy, Debug, PartialEq, Eq, Structural)]
pub struct Signature {
    /// Signatory who signed.
    pub signer: u128,
    /// Time at which the signature was given.
    pub time: u64,
}

/// The single in-flight transaction slot.
pub struct Transaction {
    /// Signatory who ordered the transaction; zero when the slot was consumed.
    pub orderer: u128,
    /// Signatures collected so far; ordering counts as the first signature.
    pub signatures: Vec<Signature>,
    /// Function the transaction authorizes.
    pub function: MsFunction,
    /// Time at which the transaction was ordered; zero when consumed.
    pub time: u64,
}

/// Multisig coordination state.
pub struct MultisigData {
    /// The in-flight transaction.
    pub tx: Transaction,
    /// Accounts permitted to order and sign transactions.
    pub signatories: Vec<u128>,
    /// Number of signatures a privileged operation requires.
    pub threshold: u16,
    /// Staleness window of a transaction, in milliseconds.
    pub timelimit: u64,
}

impl MultisigData {
    /// The signatory set is a nonzero, duplicate-free list always at least one
    /// larger than the threshold; signers of the in-flight transaction are
    /// pairwise distinct. Both lists stay within a one-byte count.
    pub open spec fn wf(self) -> bool {
        &&& forall|p: int, q: int|
            0 <= p < q < self.signatories@.len() ==> self.signatories@[p] != self.signatories@[q]
        &&& forall|i: int| 0 <= i < self.signatories@.len() ==> self.signatories@[i] != 0
        &&& self.signatories@.len() >= self.threshold as int + 1
        &&& self.signatories@.len() <= 255
        &&& self.threshold >= THRESHOLD_MIN
        &&& self.timelimit >= TIME_LIMIT_MIN
        &&& forall|p: int, q: int|
            0 <= p < q < self.tx.signatures@.len() ==> self.tx.signatures@[p].signer
                != self.tx.signatures@[q].signer
        &&& self.tx.signatures@.len() <= 255
    }

    /// Whether `a` belongs to the signatory set.
    pub open spec fn is_signatory(self, a: u128) -> bool {
        self.signatories@.contains(a)
    }

    /// Whether `a` has signed the in-flight transaction.
    pub open spec fn has_signed(self, a: u128) -> bool {
        exists|i: int|
            0 <= i < self.tx.signatures@.len() && self.tx.signatures@[i].signer == a
    }

    /// Whether the in-flight transaction is stale at time `now`: its window
    /// has fully elapsed.
    pub open spec fn is_stale(self, now: u64) -> bool {
        now - self.tx.time >= self.timelimit
    }

    pub fn check_signatory(&self, a: u128) -> (r: bool)
        ensures
            r == self.is_signatory(a),
    {
        let n = self.signatories.len();
        let mut i: usize = 0;
        while i < n
            invariant
                i <= n,
                n == self.signatories@.len(),
                forall|j: int| 0 <= j < i ==> self.signatories@[j] != a,
            decreases n - i,
        {
            if self.signatories[i] == a {
                return true;
            }
            i += 1;
        }
        false
    }

    /// Index of `a` in the signatory set, if present.
    pub fn signatory_index(&self, a: u128) -> (r: Option<usize>)
        ensures
            match r {
                Some(i) => i < self.signatories@.len() && self.signatories@[i as int] == a
                    && self.is_signatory(a),
                None => !self.is_signatory(a),
            },
    {
        let n = self.signatories.len();
        let mut i: usize = 0;
        while i < n
            invariant
                i <= n,
                n == self.signatories@.len(),
                forall|j: int| 0 <= j < i ==> self.signatories@[j] != a,
            decreases n - i,
        {
            if self.signatories[i] == a {
                return Some(i);
            }
            i += 1;
        }
        None
    }

    pub fn check_signed(&self, a: u128) -> (r: bool)
        ensures
            r == self.has_signed(a),
    {
        let n = self.tx.signatures.len();
        let mut i: usize = 0;
        while i < n
            invariant
                i <= n,
                n == self.tx.signatures@.len(),
                forall|j: int| 0 <= j < i ==> self.tx.signatures@[j].signer != a,
            decreases n - i,
        {
            if self.tx.signatures[i].signer == a {
                return true;
            }
            i += 1;
        }
        false
    }
}

} // verus!
