//! The engine's standing laws, each stated over the same specification
//! functions the operations' contracts use, so a reader can see what holds of
//! every reachable state and every pair of consecutive calls.

use vstd::prelude::*;
use crate::contract::IlockMvp;
use crate::errors::Error;
use crate::multisig::{ms_function_of_name, THRESHOLD_MIN};
use crate::pools::{pool_alloc, pool_cliffs, pool_vests, POOL_COUNT, REWARDS, SUPPLY_CAP};
use crate::stakes::{lemma_stakes_read_ok, lemma_vesting_step, stake_paid_after};
use vstd::arithmetic::mul::{lemma_mul_inequality, lemma_mul_is_distributive_sub_other_way};

verus! {

/// Conservation: in every reachable state the circulating supply equals the
/// sum of all account balances outside the owner's reserve, the reserve tops
/// the supply up to exactly the cap, and so the supply can never exceed the
/// cap.
pub proof fn law_conservation(c: IlockMvp)
    requires
        c.wf(),
    ensures
        c.supply as int == c.balances.total(),
        c.balance_spec(c.owner) as int == SUPPLY_CAP as int - c.supply as int,
        c.supply <= SUPPLY_CAP,
{
}

/// Pool conservation: for every pool, the initial allocation — plus, for the
/// rewards pool alone, everything ever retired into it — equals the pool's
/// remaining balance plus everything ever released from it.
pub proof fn law_pool_conservation(c: IlockMvp, pool: u8)
    requires
        c.wf(),
        (pool as int) < POOL_COUNT as int,
    ensures
        pool_alloc(pool as int) as int + (if pool == REWARDS {
            c.recovered@
        } else {
            0int
        }) == c.pool_balance_spec(pool as int) as int + c.dispensed@[pool as int],
{
}

/// Vesting exactness, arithmetically: a share vested over `vest` periods
/// pays `vest - 1` floored installments and one final installment carrying
/// the remainder, and these sum to the share exactly.
pub proof fn law_vesting_exactness(share: u128, vest: u64)
    requires
        1 <= vest,
    ensures
        (vest - 1) * (share as int / vest as int) + (share as int / vest as int + share as int
            % vest as int) == share as int,
{
    crate::stakes::lemma_vesting_exact(share, vest);
}

/// Vesting exactness, on the state: a stakeholder record that has taken all
/// of its pool's installments has been paid exactly its share.
pub proof fn law_schedule_completes(c: IlockMvp, stakeholder: u128, pool: u8)
    requires
        c.wf(),
        c.stake_spec(stakeholder, pool) is Some,
        c.stake_spec(stakeholder, pool)->Some_0.periods_paid == pool_vests(pool as int),
    ensures
        c.stake_spec(stakeholder, pool)->Some_0.paid == c.stake_spec(stakeholder, pool)->Some_0.share,
{
    lemma_stakes_read_ok(c.stakes.entries@, stakeholder, pool);
}

/// No double payout per period: a payout taken on schedule (no skipped
/// periods) and not the final one blocks any further payout in the same
/// period with `PayoutTooEarly` — and a rejected `distribute_tokens` call
/// leaves the state unchanged by its contract.
pub proof fn law_no_double_payout(
    pre: IlockMvp,
    post: IlockMvp,
    caller: u128,
    stakeholder: u128,
    pool: u8,
    period: u64,
)
    requires
        pre.wf(),
        pre.distribute_decision(caller, stakeholder, pool, period) is None,
        IlockMvp::distribute_transition(pre, post, stakeholder, pool),
        pre.stake_spec(stakeholder, pool)->Some_0.periods_paid as int == period as int
            - pool_cliffs(pool as int) as int,
        pre.stake_spec(stakeholder, pool)->Some_0.periods_paid as int + 1 < pool_vests(
            pool as int,
        ) as int,
    ensures
        post.distribute_decision(caller, stakeholder, pool, period) == Some(Error::PayoutTooEarly),
{
    lemma_stakes_read_ok(pre.stakes.entries@, stakeholder, pool);
    let st = pre.stake_spec(stakeholder, pool)->Some_0;
    let v = pool_vests(pool as int) as int;
    let n = st.periods_paid as int;
    let s = st.share as int;
    let q = s / v;
    lemma_vesting_step(st.share, pool_vests(pool as int), st.periods_paid);
    let new_st = post.stake_spec(stakeholder, pool)->Some_0;
    assert(new_st.periods_paid as int == n + 1);
    assert(new_st.paid as int == stake_paid_after(
        st.share,
        pool_vests(pool as int),
        (st.periods_paid + 1) as u64,
    ));
    // the new record is not fully paid: (n + 1) * q < s
    assert(new_st.paid as int == (n + 1) * q);
    if s == 0 {
        // a zero share is fully paid from the start, so the first call would
        // already have been rejected
        assert(stake_paid_after(st.share, pool_vests(pool as int), st.periods_paid) == n * q);
        assert(q == 0);
        assert(n * q == 0) by {
            vstd::arithmetic::mul::lemma_mul_basics(n);
        }
        assert(false);
    }
    assert((n + 1) * q < s) by {
        vstd::arithmetic::div_mod::lemma_fundamental_div_mod(s, v);
        vstd::arithmetic::div_mod::lemma_mod_bound(s, v);
        vstd::arithmetic::div_mod::lemma_div_pos_is_pos(s, v);
        if q == 0 {
            assert((n + 1) * q == 0) by {
                vstd::arithmetic::mul::lemma_mul_basics(n + 1);
            }
        } else {
            assert((n + 1) * q <= (v - 1) * q) by {
                lemma_mul_inequality(n + 1, v - 1, q);
            }
            assert((v - 1) * q == v * q - q) by {
                lemma_mul_is_distributive_sub_other_way(q, v, 1);
            }
        }
    }
    assert(post.distribute_decision(caller, stakeholder, pool, period) == Some(
        Error::PayoutTooEarly,
    ));
}

/// Pre-cliff no-op: before the cliff, `distribute_tokens` decides
/// `CliffNotPassed` — and by its contract a rejected call changes no
/// balance.
pub proof fn law_pre_cliff_rejected(
    c: IlockMvp,
    caller: u128,
    stakeholder: u128,
    pool: u8,
    period: u64,
)
    requires
        c.wf(),
        caller == c.owner,
        (pool as int) < POOL_COUNT as int,
        c.stake_spec(stakeholder, pool) is Some,
        period < pool_cliffs(pool as int),
    ensures
        c.distribute_decision(caller, stakeholder, pool, period) == Some(Error::CliffNotPassed),
{
}

/// Transfer coupling: sending `x` from the owner to an ordinary account
/// raises the supply by `x`; sending it back retires it, restoring the
/// supply and replenishing the rewards pool by exactly `x`.
pub proof fn law_transfer_coupling(pre: IlockMvp, mid: IlockMvp, post: IlockMvp, a: u128, x: u128)
    requires
        pre.wf(),
        mid.wf(),
        a != pre.owner,
        a != 0,
        pre.transfer_decision(pre.owner, a, x) is None,
        IlockMvp::transfer_transition(pre, mid, pre.owner, a, x),
        mid.transfer_decision(a, mid.owner, x) is None,
        IlockMvp::transfer_transition(mid, post, a, mid.owner, x),
    ensures
        mid.supply as int == pre.supply as int + x,
        post.supply == pre.supply,
        post.pool_balance_spec(REWARDS as int) as int == pre.pool_balance_spec(
            REWARDS as int,
        ) as int + x,
{
    assert(mid.owner == pre.owner);
    assert(mid.pool_balances@ == pre.pool_balances@);
    assert(post.pool_balances@ == mid.pool_balances@.update(
        REWARDS as int,
        (mid.pool_balance_spec(REWARDS as int) + x) as u128,
    ));
}

/// Allowance monotonicity: a successful delegated transfer debits the spent
/// allowance by exactly the transferred amount and touches no other
/// allowance; a failing one, by `transfer_from`'s contract, changes nothing.
/// Allowances are unsigned, so none is ever negative.
pub proof fn law_allowance_exact_debit(
    pre: IlockMvp,
    post: IlockMvp,
    caller: u128,
    from: u128,
    to: u128,
    amount: u128,
)
    requires
        IlockMvp::transfer_from_transition(pre, post, caller, from, to, amount),
    ensures
        post.allowance_spec(from, caller) as int == pre.allowance_spec(from, caller) - amount,
        amount <= pre.allowance_spec(from, caller),
        forall|o: u128, sp: u128|
            !(o == from && sp == caller) ==> post.allowance_spec(o, sp) == pre.allowance_spec(
                o,
                sp,
            ),
{
}

/// Quorum safety: the check gating every privileged operation passes exactly
/// when the caller is a signatory, the collected signatures reach the
/// threshold, the transaction is within its time window, and the named
/// function is the ordered one. Each privileged operation's contract then
/// guarantees that on any rejection all guarded state is untouched.
pub proof fn law_quorum_safety(c: IlockMvp, caller: u128, now: u64, name: Seq<char>)
    requires
        c.wf(),
    ensures
        c.multisig_decision(caller, now, name) is None <==> {
            &&& c.multisig.is_signatory(caller)
            &&& c.multisig.tx.signatures@.len() >= c.multisig.threshold as int
            &&& now - c.multisig.tx.time < c.multisig.timelimit
            &&& ms_function_of_name(name) == Some(c.multisig.tx.function)
        },
{
}

/// Anti-jamming: once the transaction it ordered goes stale, the same
/// address cannot order again (`CannotReorder`), while any other signatory
/// naming a valid function can.
pub proof fn law_anti_jamming(
    pre: IlockMvp,
    mid: IlockMvp,
    a: u128,
    b: u128,
    t0: u64,
    t1: u64,
    name: Seq<char>,
    name2: Seq<char>,
)
    requires
        pre.wf(),
        pre.order_decision(a, t0, name) is None,
        IlockMvp::order_transition(pre, mid, a, t0, name),
        t1 >= t0,
        t1 - t0 >= mid.multisig.timelimit,
        b != a,
        mid.multisig.is_signatory(b),
        ms_function_of_name(name2) is Some,
    ensures
        mid.order_decision(a, t1, name2) == Some(Error::CannotReorder),
        mid.order_decision(b, t1, name2) is None,
{
    assert(mid.multisig.signatories@ == pre.multisig.signatories@);
}

/// Signatory floor: the signatory set always exceeds the threshold by at
/// least one, and both `remove_signatory` and `change_threshold` decide
/// `TooFewSignatories` whenever they would breach that floor.
pub proof fn law_signatory_floor(
    c: IlockMvp,
    caller: u128,
    now: u64,
    signatory: u128,
    new_threshold: u16,
    name: Seq<char>,
)
    requires
        c.wf(),
    ensures
        c.multisig.signatories@.len() >= c.multisig.threshold as int + 1,
        (c.multisig_decision(caller, now, name) is None && signatory != 0
            && c.multisig.is_signatory(signatory) && c.multisig.signatories@.len()
            <= c.multisig.threshold as int + 1) ==> c.remove_signatory_decision(
            caller,
            now,
            signatory,
            name,
        ) == Some(Error::TooFewSignatories),
        (c.multisig_decision(caller, now, name) is None && new_threshold >= THRESHOLD_MIN
            && new_threshold < u16::MAX && c.multisig.signatories@.len() < new_threshold as int
            + 1) ==> c.change_threshold_decision(caller, now, new_threshold, name) == Some(
            Error::TooFewSignatories,
        ),
{
}

/// A stakeholder record never overshoots: in every reachable state the
/// amount paid is at most the share.
pub proof fn law_paid_within_share(c: IlockMvp, stakeholder: u128, pool: u8)
    requires
        c.wf(),
        c.stake_spec(stakeholder, pool) is Some,
    ensures
        c.stake_spec(stakeholder, pool)->Some_0.paid <= c.stake_spec(stakeholder, pool)->Some_0.share,
{
    lemma_stakes_read_ok(c.stakes.entries@, stakeholder, pool);
}

/// Registered shares are immutable: a payout changes a record's paid fields
/// only, never its share, and registration fixes the share it was given.
pub proof fn law_share_fixed(pre: IlockMvp, post: IlockMvp, stakeholder: u128, pool: u8)
    requires
        pre.stake_spec(stakeholder, pool) is Some,
        IlockMvp::distribute_transition(pre, post, stakeholder, pool),
    ensures
        post.stake_spec(stakeholder, pool)->Some_0.share == pre.stake_spec(
            stakeholder,
            pool,
        )->Some_0.share,
{
}

} // verus!
