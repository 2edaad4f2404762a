//! A hard-capped token ledger with pool-scoped custody, time-gated vesting
//! payouts, direct pool disbursement, reward accounting, and an n-of-m
//! multisig coordination protocol that gates privileged mutations.

pub mod allowances;
pub mod balances;
pub mod contract;
pub mod disburse;
pub mod errors;
pub mod govern;
pub mod laws;
pub mod ledger;
pub mod multisig;
pub mod pools;
pub mod stakes;
pub mod strutil;
pub mod vesting;
