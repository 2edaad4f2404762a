//! The multisig protocol: ordering, signing, quorum checking, staleness,
//! anti-jamming, the signatory floor, and the privileged operations.

use ilockmvp::contract::IlockMvp;
use ilockmvp::errors::Error;
use ilockmvp::multisig::TIME_LIMIT_MIN;
use ilockmvp::pools::SUPPLY_CAP;

const ALICE: u128 = 1;
const BOB: u128 = 2;
const CHARLIE: u128 = 3;
const DAVE: u128 = 4;
const OUTSIDER: u128 = 9;
const LIMIT: u64 = 600_000;
const T0: u64 = 1_000_000;

fn fresh() -> IlockMvp {
    IlockMvp::new_token(ALICE, LIMIT, CHARLIE, BOB)
}

/// Orders `function` by `orderer` and signs it by `signer`, reaching the
/// threshold of two at time `t`.
fn quorum_by(c: &mut IlockMvp, orderer: u128, signer: u128, function: &str, t: u64) {
    c.order_multisigtx(orderer, t, function).unwrap();
    c.sign_multisigtx(signer, t + 1, function).unwrap();
}

#[test]
fn order_and_sign_collect_signatures() {
    let mut c = fresh();
    assert_eq!(0, c.signature_count());
    c.order_multisigtx(CHARLIE, T0, "UNPAUSE").unwrap();
    // ordering counts as the orderer's own signature
    assert_eq!(1, c.signature_count());
    c.sign_multisigtx(BOB, T0 + 1, "UNPAUSE").unwrap();
    assert_eq!(2, c.signature_count());
    let sigs = c.check_signatures(ALICE, T0 + 2).unwrap();
    assert_eq!(2, sigs.len());
    assert_eq!(CHARLIE, sigs[0].signer);
    assert_eq!(T0, sigs[0].time);
    assert_eq!(BOB, sigs[1].signer);
}

#[test]
fn order_rejections() {
    let mut c = fresh();
    assert_eq!(
        Err(Error::CallerNotSignatory),
        c.order_multisigtx(OUTSIDER, T0, "UNPAUSE")
    );
    assert_eq!(
        Err(Error::InvalidFunction),
        c.order_multisigtx(CHARLIE, T0, "MINT")
    );
    c.order_multisigtx(CHARLIE, T0, "UNPAUSE").unwrap();
    // a second order within the window finds the slot taken
    assert_eq!(
        Err(Error::TransactionAlreadyOrdered),
        c.order_multisigtx(BOB, T0 + 1, "UNPAUSE")
    );
}

/// Anti-jamming: once its transaction goes stale the same orderer is locked
/// out, while any other signatory can order.
#[test]
fn anti_jamming_after_staleness() {
    let mut c = fresh();
    c.order_multisigtx(CHARLIE, T0, "UNPAUSE").unwrap();
    let stale_time = T0 + LIMIT;
    assert_eq!(
        Err(Error::CannotReorder),
        c.order_multisigtx(CHARLIE, stale_time, "UNPAUSE")
    );
    c.order_multisigtx(BOB, stale_time, "UNPAUSE").unwrap();
    assert_eq!(1, c.signature_count());
}

#[test]
fn sign_rejections() {
    let mut c = fresh();
    c.order_multisigtx(CHARLIE, T0, "UNPAUSE").unwrap();
    assert_eq!(
        Err(Error::CallerNotSignatory),
        c.sign_multisigtx(OUTSIDER, T0 + 1, "UNPAUSE")
    );
    assert_eq!(
        Err(Error::InvalidFunction),
        c.sign_multisigtx(BOB, T0 + 1, "BURN")
    );
    // a signer must name the ordered function
    assert_eq!(
        Err(Error::WrongFunction),
        c.sign_multisigtx(BOB, T0 + 1, "ADD_SIGNATORY")
    );
    // the orderer already signed by ordering
    assert_eq!(
        Err(Error::AlreadySigned),
        c.sign_multisigtx(CHARLIE, T0 + 1, "UNPAUSE")
    );
    // the window closes after the time limit
    assert_eq!(
        Err(Error::TransactionStale),
        c.sign_multisigtx(BOB, T0 + LIMIT, "UNPAUSE")
    );
}

/// Quorum safety: a privileged operation runs exactly when enough signatures
/// were collected for the matching function within the window; any failing
/// condition blocks it and leaves the guarded state untouched.
#[test]
fn quorum_gates_privileged_operations() {
    let mut c = fresh();
    c.order_multisigtx(CHARLIE, T0, "CHANGE_TIMELIMIT").unwrap();

    // one signature is below the threshold of two
    assert_eq!(
        Err(Error::NotEnoughSignatures),
        c.change_multisigtxtimelimit(ALICE, T0 + 1, 700_000, "CHANGE_TIMELIMIT")
    );
    assert_eq!(LIMIT, c.multisigtimelimit());

    c.sign_multisigtx(BOB, T0 + 2, "CHANGE_TIMELIMIT").unwrap();

    // a non-signatory cannot run it even with a quorum collected
    assert_eq!(
        Err(Error::CallerNotSignatory),
        c.change_multisigtxtimelimit(OUTSIDER, T0 + 3, 700_000, "CHANGE_TIMELIMIT")
    );
    // the operation must name the ordered function
    assert_eq!(
        Err(Error::WrongFunction),
        c.unpause(ALICE, T0 + 3, "UNPAUSE")
    );
    // the quorum expires with the window
    assert_eq!(
        Err(Error::TransactionStale),
        c.change_multisigtxtimelimit(ALICE, T0 + LIMIT, 700_000, "CHANGE_TIMELIMIT")
    );
    assert_eq!(LIMIT, c.multisigtimelimit());

    // a fresh quorum within the window does run it
    let t1 = T0 + 2 * LIMIT;
    quorum_by(&mut c, BOB, CHARLIE, "CHANGE_TIMELIMIT", t1);
    c.change_multisigtxtimelimit(ALICE, t1 + 2, 700_000, "CHANGE_TIMELIMIT")
        .unwrap();
    assert_eq!(700_000, c.multisigtimelimit());

    // the operation consumed the transaction: no second run on one quorum
    assert_eq!(
        Err(Error::NotEnoughSignatures),
        c.change_multisigtxtimelimit(ALICE, t1 + 3, 800_000, "CHANGE_TIMELIMIT")
    );
}

#[test]
fn add_and_remove_signatory() {
    let mut c = fresh();
    assert_eq!(3, c.signatory_count());

    // the floor: three signatories only just exceed the threshold of two
    quorum_by(&mut c, CHARLIE, BOB, "REMOVE_SIGNATORY", T0);
    assert_eq!(
        Err(Error::TooFewSignatories),
        c.remove_signatory(ALICE, T0 + 2, BOB, "REMOVE_SIGNATORY")
    );
    assert_eq!(3, c.signatory_count());

    let t1 = T0 + 2 * LIMIT;
    quorum_by(&mut c, BOB, CHARLIE, "ADD_SIGNATORY", t1);
    assert_eq!(
        Err(Error::ZeroAddress),
        c.add_signatory(ALICE, t1 + 2, 0, "ADD_SIGNATORY")
    );
    assert_eq!(
        Err(Error::AlreadySignatory),
        c.add_signatory(ALICE, t1 + 2, BOB, "ADD_SIGNATORY")
    );
    c.add_signatory(ALICE, t1 + 2, DAVE, "ADD_SIGNATORY").unwrap();
    assert_eq!(4, c.signatory_count());
    let listed = c.signatories(DAVE).unwrap();
    assert!(listed.contains(&DAVE));
    assert_eq!(
        Err(Error::CallerNotSignatory),
        c.signatories(OUTSIDER)
    );

    // with four signatories a removal keeps the floor
    let t2 = t1 + 2 * LIMIT;
    quorum_by(&mut c, CHARLIE, BOB, "REMOVE_SIGNATORY", t2);
    assert_eq!(
        Err(Error::SignatoryNotFound),
        c.remove_signatory(ALICE, t2 + 2, OUTSIDER, "REMOVE_SIGNATORY")
    );
    c.remove_signatory(ALICE, t2 + 2, DAVE, "REMOVE_SIGNATORY").unwrap();
    assert_eq!(3, c.signatory_count());
    assert!(!c.signatories(ALICE).unwrap().contains(&DAVE));
}

/// The signatory floor also rejects thresholds the set cannot carry, and the
/// absolute minimum of two.
#[test]
fn change_threshold_rejections_and_success() {
    let mut c = fresh();
    quorum_by(&mut c, CHARLIE, BOB, "CHANGE_THRESHOLD", T0);
    assert_eq!(
        Err(Error::UnderThresholdMin),
        c.change_threshold(ALICE, T0 + 2, 1, "CHANGE_THRESHOLD")
    );
    assert_eq!(
        Err(Error::TooFewSignatories),
        c.change_threshold(ALICE, T0 + 2, 3, "CHANGE_THRESHOLD")
    );
    assert_eq!(2, c.threshold());

    // add a fourth signatory, then a threshold of three fits the floor
    let t1 = T0 + 2 * LIMIT;
    quorum_by(&mut c, BOB, CHARLIE, "ADD_SIGNATORY", t1);
    c.add_signatory(ALICE, t1 + 2, DAVE, "ADD_SIGNATORY").unwrap();
    let t2 = t1 + 2 * LIMIT;
    quorum_by(&mut c, CHARLIE, BOB, "CHANGE_THRESHOLD", t2);
    c.change_threshold(ALICE, t2 + 2, 3, "CHANGE_THRESHOLD").unwrap();
    assert_eq!(3, c.threshold());
}

#[test]
fn change_timelimit_rejects_below_minimum() {
    let mut c = fresh();
    quorum_by(&mut c, CHARLIE, BOB, "CHANGE_TIMELIMIT", T0);
    assert_eq!(
        Err(Error::UnderTimeLimit),
        c.change_multisigtxtimelimit(ALICE, T0 + 2, TIME_LIMIT_MIN - 1, "CHANGE_TIMELIMIT")
    );
    assert_eq!(LIMIT, c.multisigtimelimit());
}

#[test]
fn pause_and_unpause() {
    let mut c = fresh();
    assert!(!c.is_paused());
    assert_eq!(Err(Error::CallerNotSignatory), c.pause(OUTSIDER));
    c.pause(BOB).unwrap();
    assert!(c.is_paused());
    // lifting the pause needs a quorum
    assert_eq!(
        Err(Error::NotEnoughSignatures),
        c.unpause(BOB, T0, "UNPAUSE")
    );
    assert!(c.is_paused());
    quorum_by(&mut c, CHARLIE, BOB, "UNPAUSE", T0);
    c.unpause(ALICE, T0 + 2, "UNPAUSE").unwrap();
    assert!(!c.is_paused());
}

/// Moving the owner role moves the treasury: the new owner's circulating
/// balance is retired into the reserve it now holds, keeping the supply and
/// the cap in balance.
#[test]
fn transfer_ownership_moves_treasury() {
    let mut c = fresh();
    c.reward_interlocker(ALICE, 1000, BOB).unwrap();
    assert_eq!(1000, c.total_supply());

    quorum_by(&mut c, CHARLIE, BOB, "TRANSFER_OWNERSHIP", T0);
    assert_eq!(
        Err(Error::ZeroAddress),
        c.transfer_ownership(ALICE, T0 + 2, 0, "TRANSFER_OWNERSHIP")
    );
    c.transfer_ownership(ALICE, T0 + 2, BOB, "TRANSFER_OWNERSHIP").unwrap();
    assert_eq!(BOB, c.get_owner());
    // bob's 1000 circulating tokens were retired into the reserve bob holds
    assert_eq!(0, c.total_supply());
    assert_eq!(SUPPLY_CAP, c.balance_of(BOB));
    assert_eq!(0, c.balance_of(ALICE));
}

#[test]
fn update_contract_consumes_quorum() {
    let mut c = fresh();
    quorum_by(&mut c, CHARLIE, BOB, "UPDATE_CONTRACT", T0);
    c.update_contract(ALICE, T0 + 2, "UPDATE_CONTRACT").unwrap();
    assert_eq!(
        Err(Error::NotEnoughSignatures),
        c.update_contract(ALICE, T0 + 3, "UPDATE_CONTRACT")
    );
}

#[test]
fn check_signatures_requires_signatory_and_freshness() {
    let mut c = fresh();
    c.order_multisigtx(CHARLIE, T0, "UNPAUSE").unwrap();
    assert_eq!(
        Err(Error::CallerNotSignatory),
        c.check_signatures(OUTSIDER, T0 + 1)
    );
    assert_eq!(
        Err(Error::TransactionStale),
        c.check_signatures(BOB, T0 + LIMIT + 1)
    );
}
