//! A token-staking ledger with a three-tier referral-commission overlay.
//!
//! Users deposit a token into a pool, accrue rewards continuously at a
//! pool-wide rate through a lazy reward-per-unit-stake accumulator, and may
//! attribute their participation to up to three upstream referrers who earn a
//! basis-point share of the referred user's claimed rewards.
//!
//! The library holds the pool's state transitions: reward settlement, staking
//! with time-weighted lock extension, reward claims with commission cascade,
//! unstaking, and the administrative setters. Moving token balances between
//! vaults, reading the clock, and storing records are left to the host
//! platform; every operation here takes the current time and the relevant
//! records as arguments and says exactly what must move and what each record
//! becomes.

pub mod accrual;
pub mod admin;
pub mod arith;
pub mod claim;
pub mod errors;
pub mod ids;
pub mod laws;
pub mod pda;
pub mod stake;
pub mod state;
pub mod unstake;
