//! Vesting behaviour: registration, the full payout schedule, its exactness,
//! and every rejection of `distribute_tokens`.

use ilockmvp::contract::IlockMvp;
use ilockmvp::errors::Error;
use ilockmvp::pools::{pool_allocation, pool_params, COMMUNITY, PARTNERS, SUPPLY_CAP, TEAM};

const ALICE: u128 = 1;
const BOB: u128 = 2;
const CHARLIE: u128 = 3;

fn fresh() -> IlockMvp {
    IlockMvp::new_token(ALICE, 600_000, CHARLIE, BOB)
}

/// Walks the entire team vesting schedule month by month, checking the
/// stakeholder's record, their balance, the owner's reserve and the pool
/// after each payout. The schedule pays 35 installments of 27_777_777 and a
/// final one of 27_777_805, reaching the share of 1_000_000_000 exactly.
#[test]
fn happy_distribute_tokens() {
    let mut c = fresh();

    let stakeholder_share: u128 = 1_000_000_000;
    let params = pool_params(TEAM);
    let pool_size = pool_allocation(TEAM);
    let cliff = params.cliffs;
    let vests = params.vests;
    let schedule_end = vests + cliff - 1;
    let schedule_period = vests;
    let payout: u128 = stakeholder_share / vests as u128; // 27_777_777
    let last_payout: u128 = payout + stakeholder_share % vests as u128; // 27_777_805
    assert_eq!(27_777_777, payout);
    assert_eq!(27_777_805, last_payout);

    c.register_stakeholder(ALICE, BOB, stakeholder_share, TEAM, false)
        .unwrap();

    for month in 0..(schedule_end + 2) {
        if month >= cliff && month <= schedule_end {
            c.distribute_tokens(ALICE, BOB, TEAM, month).unwrap();
        }

        let stake_paid = c.get_stakes(BOB).unwrap().first().unwrap().paid;
        let stakeholder_balance = c.balance_of(BOB);
        let pool_balance = c.pool_balance(TEAM).unwrap();
        let owner_balance = c.balance_of(ALICE);

        if month < cliff {
            assert_eq!(stake_paid, 0);
            assert_eq!(stakeholder_balance, 0);
            assert_eq!(owner_balance, SUPPLY_CAP);
            assert_eq!(pool_balance, pool_size);
        } else if month >= cliff && month < schedule_end {
            assert_eq!(stake_paid, (month - cliff + 1) as u128 * payout);
            assert_eq!(stakeholder_balance, (month - cliff + 1) as u128 * payout);
            assert_eq!(owner_balance, SUPPLY_CAP - (month - cliff + 1) as u128 * payout);
            assert_eq!(pool_balance, pool_size - (month - cliff + 1) as u128 * payout);
        } else {
            assert_eq!(stake_paid, (schedule_period - 1) as u128 * payout + last_payout);
            assert_eq!(stakeholder_balance, (schedule_period - 1) as u128 * payout + last_payout);
            assert_eq!(
                owner_balance,
                SUPPLY_CAP - (schedule_period - 1) as u128 * payout - last_payout
            );
            assert_eq!(
                pool_balance,
                pool_size - (schedule_period - 1) as u128 * payout - last_payout
            );
        }
    }

    // vesting exactness: the cumulative amount paid is the share, exactly
    assert_eq!(
        stakeholder_share,
        c.get_stakes(BOB).unwrap().first().unwrap().paid
    );
    // a further call finds the share fully paid
    assert_eq!(
        Err(Error::StakeholderSharePaid),
        c.distribute_tokens(ALICE, BOB, TEAM, schedule_end + 2)
    );
}

/// Every rejection of `distribute_tokens`, in its documented order: caller,
/// pool, record, cliff, fully-paid share, double payout.
#[test]
fn sad_distribute_tokens() {
    let mut c = fresh();
    c.register_stakeholder(ALICE, BOB, 1_000_000_000, TEAM, false)
        .unwrap();

    assert_eq!(
        Err(Error::CallerNotOwner),
        c.distribute_tokens(BOB, BOB, TEAM, 6)
    );
    assert_eq!(
        Err(Error::InvalidPool),
        c.distribute_tokens(ALICE, BOB, 9, 6)
    );
    assert_eq!(
        Err(Error::StakeholderNotFound),
        c.distribute_tokens(ALICE, CHARLIE, TEAM, 6)
    );
    assert_eq!(
        Err(Error::CliffNotPassed),
        c.distribute_tokens(ALICE, BOB, TEAM, 5)
    );

    // pre-cliff failure changed nothing
    assert_eq!(0, c.balance_of(BOB));
    assert_eq!(0, c.get_stakes(BOB).unwrap().first().unwrap().paid);

    // one payout per period: the second call in period 6 is too early
    c.distribute_tokens(ALICE, BOB, TEAM, 6).unwrap();
    let paid = c.get_stakes(BOB).unwrap().first().unwrap().paid;
    assert_eq!(
        Err(Error::PayoutTooEarly),
        c.distribute_tokens(ALICE, BOB, TEAM, 6)
    );
    assert_eq!(paid, c.get_stakes(BOB).unwrap().first().unwrap().paid);
}

/// A one-period pool pays the whole share at once, after which the share is
/// fully paid.
#[test]
fn one_period_schedule_pays_share_whole() {
    let mut c = fresh();
    c.register_stakeholder(ALICE, CHARLIE, 12_345, COMMUNITY, false)
        .unwrap();
    c.distribute_tokens(ALICE, CHARLIE, COMMUNITY, 0).unwrap();
    assert_eq!(12_345, c.balance_of(CHARLIE));
    assert_eq!(
        Err(Error::StakeholderSharePaid),
        c.distribute_tokens(ALICE, CHARLIE, COMMUNITY, 1)
    );
}

/// A stakeholder who skipped periods may catch up one installment per call.
#[test]
fn skipped_periods_catch_up() {
    let mut c = fresh();
    c.register_stakeholder(ALICE, BOB, 720, TEAM, false).unwrap();
    // period 8: three installments are payable (periods 6, 7, 8)
    c.distribute_tokens(ALICE, BOB, TEAM, 8).unwrap();
    c.distribute_tokens(ALICE, BOB, TEAM, 8).unwrap();
    c.distribute_tokens(ALICE, BOB, TEAM, 8).unwrap();
    assert_eq!(3 * (720 / 36), c.balance_of(BOB));
    assert_eq!(
        Err(Error::PayoutTooEarly),
        c.distribute_tokens(ALICE, BOB, TEAM, 8)
    );
}

/// Registration rejections: caller, pool, zero address, re-registration.
#[test]
fn register_rejections() {
    let mut c = fresh();
    assert_eq!(
        Err(Error::CallerNotOwner),
        c.register_stakeholder(BOB, CHARLIE, 10, TEAM, false)
    );
    assert_eq!(
        Err(Error::InvalidPool),
        c.register_stakeholder(ALICE, CHARLIE, 10, 5, false)
    );
    assert_eq!(
        Err(Error::ZeroAddress),
        c.register_stakeholder(ALICE, 0, 10, TEAM, false)
    );
    c.register_stakeholder(ALICE, CHARLIE, 10, TEAM, false).unwrap();
    assert_eq!(
        Err(Error::StakeholderAlreadyRegistered),
        c.register_stakeholder(ALICE, CHARLIE, 99, TEAM, false)
    );
    // the same address may hold a record in another pool
    c.register_stakeholder(ALICE, CHARLIE, 10, PARTNERS, false).unwrap();
    assert_eq!(2, c.get_stakes(CHARLIE).unwrap().len());
}

/// A share the pool cannot cover fails the checked pool debit with
/// `Overflow` and changes nothing.
#[test]
fn oversubscribed_pool_fails_checked() {
    let mut c = fresh();
    // the partners pool holds 37 million tokens; a share of 100 million
    // tokens vests in two installments of 50 million, which the pool cannot
    // cover
    let share = 100_000_000 * ilockmvp::pools::DECIMALS_POWER10;
    c.register_stakeholder(ALICE, BOB, share, PARTNERS, false)
        .unwrap();
    assert_eq!(
        Err(Error::Overflow),
        c.distribute_tokens(ALICE, BOB, PARTNERS, 0)
    );
    assert_eq!(0, c.balance_of(BOB));
    assert_eq!(pool_allocation(PARTNERS), c.pool_balance(PARTNERS).unwrap());
}

/// `get_stakes` reports `StakeholderNotFound` for an unregistered address.
#[test]
fn get_stakes_not_found() {
    let c = fresh();
    assert_eq!(Err(Error::StakeholderNotFound), c.get_stakes(BOB));
}

/// Pool conservation on a concrete run: the initial allocation equals the
/// remaining pool balance plus everything released from it.
#[test]
fn pool_conservation_holds_across_a_run() {
    let mut c = fresh();
    c.register_stakeholder(ALICE, BOB, 72_000, TEAM, false).unwrap();
    c.distribute_tokens(ALICE, BOB, TEAM, 6).unwrap();
    c.distribute_tokens(ALICE, BOB, TEAM, 7).unwrap();
    let released = 2 * (72_000 / 36);
    assert_eq!(
        pool_allocation(TEAM),
        c.pool_balance(TEAM).unwrap() + released
    );
}
