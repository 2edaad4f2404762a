//! Direct payouts from the instantly-spendable pools and interlocker
//! rewards.

use ilockmvp::contract::IlockMvp;
use ilockmvp::errors::Error;
use ilockmvp::pools::{pool_allocation, COMMUNITY, PARTNERS, PUBLIC, REWARDS, SUPPLY_CAP, TEAM};

const ALICE: u128 = 1;
const BOB: u128 = 2;
const CHARLIE: u128 = 3;

fn fresh() -> IlockMvp {
    IlockMvp::new_token(ALICE, 600_000, CHARLIE, BOB)
}

/// Pays bob from the partner, community and public pools in turn, checking
/// the owner's reserve, bob's balance and each pool after every payout.
#[test]
fn happy_payout_tokens() {
    let mut c = fresh();

    c.register_stakeholder(ALICE, BOB, 1_000_000, PARTNERS, false).unwrap();
    c.register_stakeholder(ALICE, BOB, 1_000_000, COMMUNITY, false).unwrap();
    c.register_stakeholder(ALICE, BOB, 1_000_000, PUBLIC, false).unwrap();

    c.payout_tokens(ALICE, BOB, 1000, "PARTNERS").unwrap();
    assert_eq!(SUPPLY_CAP - 1000, c.balance_of(ALICE));
    assert_eq!(0 + 1000, c.balance_of(BOB));
    assert_eq!(pool_allocation(PARTNERS) - 1000, c.pool_balance(PARTNERS).unwrap());

    c.payout_tokens(ALICE, BOB, 1000, "COMMUNITY").unwrap();
    assert_eq!(SUPPLY_CAP - 1000 - 1000, c.balance_of(ALICE));
    assert_eq!(0 + 1000 + 1000, c.balance_of(BOB));
    assert_eq!(pool_allocation(COMMUNITY) - 1000, c.pool_balance(COMMUNITY).unwrap());

    c.payout_tokens(ALICE, BOB, 1000, "PUBLIC").unwrap();
    assert_eq!(SUPPLY_CAP - 1000 - 1000 - 1000, c.balance_of(ALICE));
    assert_eq!(0 + 1000 + 1000 + 1000, c.balance_of(BOB));
    assert_eq!(pool_allocation(PUBLIC) - 1000, c.pool_balance(PUBLIC).unwrap());
}

/// Rejections of `payout_tokens`: the caller, the pool name (only the three
/// spendable pools can be named), the zero recipient, and the pool balance.
#[test]
fn sad_payout_tokens() {
    let mut c = fresh();

    assert_eq!(
        Err(Error::CallerNotOwner),
        c.payout_tokens(BOB, CHARLIE, 1000, "PARTNERS")
    );
    assert_eq!(
        Err(Error::InvalidPool),
        c.payout_tokens(ALICE, BOB, 1000, "TEAM")
    );
    assert_eq!(
        Err(Error::InvalidPool),
        c.payout_tokens(ALICE, BOB, 1000, "REWARDS")
    );
    assert_eq!(
        Err(Error::InvalidPool),
        c.payout_tokens(ALICE, BOB, 1000, "partners")
    );
    assert_eq!(
        Err(Error::ZeroAddress),
        c.payout_tokens(ALICE, 0, 1000, "PUBLIC")
    );
    assert_eq!(
        Err(Error::PaymentTooLarge),
        c.payout_tokens(ALICE, BOB, pool_allocation(PARTNERS) + 1, "PARTNERS")
    );

    // nothing moved
    assert_eq!(0, c.balance_of(BOB));
    assert_eq!(0, c.total_supply());
    assert_eq!(pool_allocation(PARTNERS), c.pool_balance(PARTNERS).unwrap());
}

/// Rewards debit the rewards pool and the owner's reserve, credit the
/// recipient and the circulating supply, and keep both running totals.
#[test]
fn happy_reward_interlocker() {
    let mut c = fresh();

    let new_total = c.reward_interlocker(ALICE, 1000, BOB).unwrap();
    assert_eq!(0 + 1000, new_total);

    assert_eq!(SUPPLY_CAP - 1000, c.balance_of(ALICE));
    assert_eq!(pool_allocation(REWARDS) - 1000, c.pool_balance(REWARDS).unwrap());
    assert_eq!(0 + 1000, c.balance_of(BOB));
    assert_eq!(0 + 1000, c.total_supply());
    assert_eq!(0 + 1000, c.rewarded_total());
    assert_eq!(Some(0 + 1000), c.rewarded_interlocker_total(BOB));
    assert_eq!(None, c.rewarded_interlocker_total(CHARLIE));

    // totals accumulate per recipient
    assert_eq!(1300, c.reward_interlocker(ALICE, 300, BOB).unwrap());
    assert_eq!(300, c.reward_interlocker(ALICE, 300, CHARLIE).unwrap());
    assert_eq!(1600, c.rewarded_total());
}

/// Rejections of `reward_interlocker`: the caller, the zero recipient, and a
/// reward beyond the pool.
#[test]
fn sad_reward_interlocker() {
    let mut c = fresh();

    assert_eq!(
        Err(Error::CallerNotOwner),
        c.reward_interlocker(BOB, 1000, CHARLIE)
    );
    assert_eq!(
        Err(Error::ZeroAddress),
        c.reward_interlocker(ALICE, 1000, 0)
    );
    assert_eq!(
        Err(Error::PaymentTooLarge),
        c.reward_interlocker(ALICE, pool_allocation(REWARDS) + 1, BOB)
    );

    assert_eq!(0, c.total_supply());
    assert_eq!(0, c.rewarded_total());
    assert_eq!(pool_allocation(REWARDS), c.pool_balance(REWARDS).unwrap());
}

/// An unknown pool identifier is reported by the balance accessor.
#[test]
fn pool_balance_invalid_pool() {
    let c = fresh();
    assert_eq!(Err(Error::InvalidPool), c.pool_balance(5));
    assert!(c.pool_balance(TEAM).is_ok());
}
