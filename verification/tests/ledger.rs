//! Ledger behaviour: transfers, delegated transfers, approvals, and the
//! coupling of transfers to the circulating supply and the rewards pool.

use ilockmvp::contract::IlockMvp;
use ilockmvp::errors::Error;
use ilockmvp::pools::{pool_allocation, DECIMALS_POWER10, REWARDS, SUPPLY_CAP};

const ALICE: u128 = 1; // deployer and owner/treasury
const BOB: u128 = 2;
const CHARLIE: u128 = 3;
const TIMELIMIT: u64 = 600_000;

fn fresh() -> IlockMvp {
    IlockMvp::new_token(ALICE, TIMELIMIT, CHARLIE, BOB)
}

/// Transfers from the owner raise the circulating supply; transfers back to
/// the owner lower it and replenish the rewards pool.
#[test]
fn happy_transfer() {
    let mut c = fresh();

    // alice rewards 1000 tokens so charlie can transfer
    c.reward_interlocker(ALICE, 1000, CHARLIE).unwrap();

    // transfers 1000 from charlie to bob
    c.transfer(CHARLIE, BOB, 1000).unwrap();
    assert_eq!(0 + 1000, c.balance_of(BOB));
    assert_eq!(0 + 1000, c.total_supply());

    // transfers 500 from bob to alice: supply falls, rewards pool refills
    c.transfer(BOB, ALICE, 500).unwrap();
    assert_eq!(1000 - 500, c.total_supply());
    assert_eq!(
        pool_allocation(REWARDS) - 500,
        c.pool_balance(REWARDS).unwrap()
    );
    assert_eq!(SUPPLY_CAP - 500, c.balance_of(ALICE));
}

/// Rejections of `transfer`: zero addresses and amounts over the balance, in
/// that order, with no state change.
#[test]
fn sad_transfer() {
    let mut c = fresh();
    c.reward_interlocker(ALICE, 1000, CHARLIE).unwrap();

    assert_eq!(Err(Error::ZeroAddress), c.transfer(0, BOB, 10));
    assert_eq!(Err(Error::ZeroAddress), c.transfer(CHARLIE, 0, 10));
    assert_eq!(
        Err(Error::InsufficientBalance),
        c.transfer(CHARLIE, BOB, 1001)
    );
    // zero addresses outrank the balance check
    assert_eq!(Err(Error::ZeroAddress), c.transfer(0, BOB, 5_000_000));

    // nothing moved
    assert_eq!(1000, c.balance_of(CHARLIE));
    assert_eq!(0, c.balance_of(BOB));
    assert_eq!(1000, c.total_supply());
}

/// Delegated transfers move the balance, adjust the supply at the owner
/// boundary, and debit the allowance by exactly the transferred amount.
#[test]
fn happy_transfer_from() {
    let mut c = fresh();

    // alice approves bob 1000
    c.approve(ALICE, BOB, 1000).unwrap();

    // bob transfers 1000 from alice to charlie: emission
    c.transfer_from(BOB, ALICE, CHARLIE, 1000).unwrap();
    assert_eq!(0 + 1000, c.balance_of(CHARLIE));
    assert_eq!(0 + 1000, c.total_supply());
    assert_eq!(1000 - 1000, c.allowance(ALICE, BOB));

    // charlie approves bob 1000
    c.approve(CHARLIE, BOB, 1000).unwrap();

    // bob transfers 1000 from charlie to alice: retirement
    c.transfer_from(BOB, CHARLIE, ALICE, 1000).unwrap();
    assert_eq!(1000 - 1000, c.total_supply());
    assert_eq!(
        pool_allocation(REWARDS) + 1000,
        c.pool_balance(REWARDS).unwrap()
    );
}

/// Rejections of `transfer_from`: zero addresses, then the allowance, then
/// the sender's balance; a failing call leaves the allowance untouched.
#[test]
fn sad_transfer_from() {
    let mut c = fresh();
    c.reward_interlocker(ALICE, 1000, CHARLIE).unwrap();
    c.approve(CHARLIE, BOB, 500).unwrap();

    assert_eq!(Err(Error::ZeroAddress), c.transfer_from(BOB, 0, ALICE, 10));
    assert_eq!(
        Err(Error::ZeroAddress),
        c.transfer_from(BOB, CHARLIE, 0, 10)
    );
    assert_eq!(
        Err(Error::InsufficientAllowance),
        c.transfer_from(BOB, CHARLIE, ALICE, 501)
    );
    // the allowance outranks the balance: approve beyond charlie's funds
    c.approve(CHARLIE, BOB, 5000).unwrap();
    assert_eq!(
        Err(Error::InsufficientBalance),
        c.transfer_from(BOB, CHARLIE, ALICE, 2000)
    );

    // failures left the allowance and balances unchanged
    assert_eq!(5000, c.allowance(CHARLIE, BOB));
    assert_eq!(1000, c.balance_of(CHARLIE));
}

#[test]
fn approve_rejects_zero_addresses() {
    let mut c = fresh();
    assert_eq!(Err(Error::ZeroAddress), c.approve(0, BOB, 10));
    assert_eq!(Err(Error::ZeroAddress), c.approve(ALICE, 0, 10));
}

/// A self-transfer is validated but moves nothing.
#[test]
fn self_transfer_moves_nothing() {
    let mut c = fresh();
    c.reward_interlocker(ALICE, 1000, CHARLIE).unwrap();
    c.transfer(CHARLIE, CHARLIE, 700).unwrap();
    assert_eq!(1000, c.balance_of(CHARLIE));
    assert_eq!(1000, c.total_supply());
    assert_eq!(
        Err(Error::InsufficientBalance),
        c.transfer(CHARLIE, CHARLIE, 1001)
    );
}

/// Conservation on a concrete run: the supply always equals the sum of the
/// non-owner balances, and the owner's reserve tops it up to the cap.
#[test]
fn conservation_holds_across_a_run() {
    let mut c = fresh();
    c.reward_interlocker(ALICE, 4000, CHARLIE).unwrap();
    c.transfer(CHARLIE, BOB, 1500).unwrap();
    c.approve(CHARLIE, BOB, 900).unwrap();
    c.transfer_from(BOB, CHARLIE, ALICE, 900).unwrap();
    c.payout_tokens(ALICE, BOB, 250, "PUBLIC").unwrap();

    let circulating = c.balance_of(BOB) + c.balance_of(CHARLIE);
    assert_eq!(circulating, c.total_supply());
    assert_eq!(SUPPLY_CAP - c.total_supply(), c.balance_of(ALICE));
    assert!(c.total_supply() <= SUPPLY_CAP);
}

/// The decimal scale and cap match the pool table: the allocations sum to
/// the cap.
#[test]
fn pool_allocations_sum_to_cap() {
    let mut sum: u128 = 0;
    for id in 0..5u8 {
        sum += pool_allocation(id);
    }
    assert_eq!(sum, SUPPLY_CAP);
    assert_eq!(SUPPLY_CAP, 1_000_000_000 * DECIMALS_POWER10);
}
