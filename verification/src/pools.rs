//! The fixed pool table: a closed, ordered set of named token pools, each
//! with an immutable allocation and a vesting schedule (cliff periods and
//! vesting periods). Only the per-pool remaining balance, held by the
//! contract value, ever changes.

use vstd::prelude::*;
use crate::strutil::str_eq;

verus! {

/// Number of pools in the closed table.
pub const POOL_COUNT: usize = 5;

/// Incentive pool: replenished by transfers back to the owner, drained by
/// interlocker rewards.
pub const REWARDS: u8 = 0;

/// Team allocation, vested monthly after a cliff.
pub const TEAM: u8 = 1;

/// Partner allocation, eligible for direct payout.
pub const PARTNERS: u8 = 2;

/// Community allocation, eligible for direct payout.
pub const COMMUNITY: u8 = 3;

/// Public sale allocation, eligible for direct payout.
pub const PUBLIC: u8 = 4;

/// The token keeps eighteen decimal places: one whole token is this many
/// base units.
pub const DECIMALS_POWER10: u128 = 1_000_000_000_000_000_000;

/// Immutable hard cap on the circulating supply, in base units: one billion
/// whole tokens. The pool allocations below sum to exactly this many tokens.
pub const SUPPLY_CAP: u128 = 1_000_000_000 * DECIMALS_POWER10;

/// Pool configuration: whole-token allocation and vesting schedule.
#[derive(Clone, Copy, Debug, PartialEq, Eq, Structural)]
pub struct PoolParams {
    /// Allocation in whole tokens (multiply by [`DECIMALS_POWER10`] for base units).
    pub tokens: u128,
    /// Periods that must elapse before the first vesting payout.
    pub cliffs: u64,
    /// Number of vesting periods over which a share is paid out.
    pub vests: u64,
}

/// Whole-token allocation of pool `i`.
pub open spec fn pool_tokens(i: int) -> u128 {
    if i == REWARDS as int {
        285_000_000
    } else if i == TEAM as int {
        200_000_000
    } else if i == PARTNERS as int {
        37_000_000
    } else if i == COMMUNITY as int {
        100_000_000
    } else {
        378_000_000
    }
}

/// Cliff periods of pool `i`.
pub open spec fn pool_cliffs(i: int) -> u64 {
    if i == TEAM as int {
        6
    } else {
        0
    }
}

/// Vesting periods of pool `i`.
pub open spec fn pool_vests(i: int) -> u64 {
    if i == REWARDS as int {
        80
    } else if i == TEAM as int {
        36
    } else if i == PARTNERS as int {
        2
    } else {
        1
    }
}

/// Initial allocation of pool `i` in base units.
pub open spec fn pool_alloc(i: int) -> u128 {
    (pool_tokens(i) * DECIMALS_POWER10) as u128
}

/// Every pool vests over at least one period, and every allocation fits the
/// supply cap.
pub proof fn lemma_pool_table(i: int)
    requires
        0 <= i < POOL_COUNT as int,
    ensures
        1 <= pool_vests(i),
        pool_tokens(i) * DECIMALS_POWER10 == pool_alloc(i),
        pool_alloc(i) <= SUPPLY_CAP,
{
}

/// Configuration of pool `id` from the fixed table.
pub fn pool_params(id: u8) -> (r: PoolParams)
    requires
        (id as int) < POOL_COUNT as int,
    ensures
        r.tokens == pool_tokens(id as int),
        r.cliffs == pool_cliffs(id as int),
        r.vests == pool_vests(id as int),
{
    if id == REWARDS {
        PoolParams { tokens: 285_000_000, cliffs: 0, vests: 80 }
    } else if id == TEAM {
        PoolParams { tokens: 200_000_000, cliffs: 6, vests: 36 }
    } else if id == PARTNERS {
        PoolParams { tokens: 37_000_000, cliffs: 0, vests: 2 }
    } else if id == COMMUNITY {
        PoolParams { tokens: 100_000_000, cliffs: 0, vests: 1 }
    } else {
        PoolParams { tokens: 378_000_000, cliffs: 0, vests: 1 }
    }
}

/// Initial allocation of pool `id` in base units.
pub fn pool_allocation(id: u8) -> (r: u128)
    requires
        (id as int) < POOL_COUNT as int,
    ensures
        r == pool_alloc(id as int),
{
    let p = pool_params(id);
    proof {
        lemma_pool_table(id as int);
    }
    p.tokens * DECIMALS_POWER10
}

/// The pool, if any, that the given name selects for a direct payout. Only
/// the instantly-spendable pools may be named here; the rewards and team
/// pools are deliberately not payable this way.
pub open spec fn payout_pool_of_name(s: Seq<char>) -> Option<u8> {
    if s == "PARTNERS"@ {
        Some(PARTNERS)
    } else if s == "COMMUNITY"@ {
        Some(COMMUNITY)
    } else if s == "PUBLIC"@ {
        Some(PUBLIC)
    } else {
        None
    }
}

/// Parses a payout pool name.
pub fn parse_payout_pool(name: &str) -> (r: Option<u8>)
    ensures
        r == payout_pool_of_name(name@),
{
    if str_eq(name, "PARTNERS") {
        Some(PARTNERS)
    } else if str_eq(name, "COMMUNITY") {
        Some(COMMUNITY)
    } else if str_eq(name, "PUBLIC") {
        Some(PUBLIC)
    } else {
        None
    }
}

} // verus!
