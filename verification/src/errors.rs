use vstd::prelude::*;

verus! {

/// Failure kinds surfaced by the engine's operations.
///
/// Every operation returns a result distinguishing success from one of these
/// named failures; a failing operation never mutates any state. `Overflow`
/// stands for any checked-arithmetic failure, on addition and subtraction
/// alike.
#[derive(Clone, Copy, Debug, PartialEq, Eq, Structural)]
pub enum Error {
    /// A sender, recipient or signatory is the null identity.
    ZeroAddress,
    /// A transfer asks for more than the sender holds.
    InsufficientBalance,
    /// A delegated transfer asks for more than the spender was approved.
    InsufficientAllowance,
    /// A checked addition or subtraction could not be performed.
    Overflow,
    /// An owner-only operation was called by another account.
    CallerNotOwner,
    /// No stakeholder record exists for the given address and pool.
    StakeholderNotFound,
    /// A stakeholder record already exists for the given address and pool.
    StakeholderAlreadyRegistered,
    /// The stakeholder's full share has already been paid out.
    StakeholderSharePaid,
    /// The pool's vesting cliff has not passed yet.
    CliffNotPassed,
    /// The installment for the current period was already taken.
    PayoutTooEarly,
    /// The pool identifier or pool name is not in the closed pool table.
    InvalidPool,
    /// A disbursement asks for more than the pool still holds.
    PaymentTooLarge,
    /// A multisig operation was called by an account outside the signatory set.
    CallerNotSignatory,
    /// Fewer signatures than the threshold have been collected.
    NotEnoughSignatures,
    /// The in-flight transaction's time window has elapsed.
    TransactionStale,
    /// A transaction is already in flight within its time window.
    TransactionAlreadyOrdered,
    /// The orderer of the stale transaction may not order the next one.
    CannotReorder,
    /// The named function does not match the in-flight transaction.
    WrongFunction,
    /// The caller has already signed the in-flight transaction.
    AlreadySigned,
    /// The mutation would leave fewer signatories than the threshold plus one.
    TooFewSignatories,
    /// The requested threshold is below the fixed minimum.
    UnderThresholdMin,
    /// The requested time limit is below the fixed minimum.
    UnderTimeLimit,
    /// The function name does not denote a privileged function.
    InvalidFunction,
    /// The account is already a signatory.
    AlreadySignatory,
    /// The account is not a signatory.
    SignatoryNotFound,
}

} // verus!
