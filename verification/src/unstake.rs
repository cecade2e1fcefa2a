use vstd::prelude::*;

use crate::accrual::{settle_overflows, settled_pool, settled_user, update_rewards_optimized};
use crate::claim::tier_credited;
use crate::errors::StakingError;
use crate::ids::AccountId;
use crate::pda::verify_stats_address;
use crate::state::{ReferrerStats, StakingPool, StatsRecord, UserStake};

verus! {

/// What an unstake hands back to the host: the principal to transfer from
/// the staking vault to the user, and each supplied referrer record as it
/// must be written back.
pub struct UnstakeEffects {
    pub transfer_amount: u64,
    pub referrer_stats: Option<StatsRecord>,
    pub referrer_stats_l2: Option<StatsRecord>,
    pub referrer_stats_l3: Option<StatsRecord>,
}

/// Subtraction floored at zero: a referrer's active-stake counter must never
/// go negative, even over inconsistent historical records.
pub open spec fn sat_sub(x: u64, y: u64) -> u64 {
    if x >= y {
        (x - y) as u64
    } else {
        0
    }
}

/// The supplied first-tier record after a withdrawal of `amount`: its
/// active-stake counter debited when the record is verified for the
/// position's first-tier key, untouched otherwise.
pub open spec fn l1_debit_out(
    key: Option<AccountId>,
    slot: Option<StatsRecord>,
    program_id: AccountId,
    amount: u64,
) -> Option<StatsRecord> {
    if tier_credited(true, key, slot, program_id) {
        match slot {
            Some(s) => Some(
                StatsRecord {
                    stats: ReferrerStats {
                        active_stake_l1: sat_sub(s.stats.active_stake_l1, amount),
                        ..s.stats
                    },
                    ..s
                },
            ),
            None => None,
        }
    } else {
        slot
    }
}

/// As `l1_debit_out`, for the second tier's counter.
pub open spec fn l2_debit_out(
    key: Option<AccountId>,
    slot: Option<StatsRecord>,
    program_id: AccountId,
    amount: u64,
) -> Option<StatsRecord> {
    if tier_credited(true, key, slot, program_id) {
        match slot {
            Some(s) => Some(
                StatsRecord {
                    stats: ReferrerStats {
                        active_stake_l2: sat_sub(s.stats.active_stake_l2, amount),
                        ..s.stats
                    },
                    ..s
                },
            ),
            None => None,
        }
    } else {
        slot
    }
}

/// As `l1_debit_out`, for the third tier's counter.
pub open spec fn l3_debit_out(
    key: Option<AccountId>,
    slot: Option<StatsRecord>,
    program_id: AccountId,
    amount: u64,
) -> Option<StatsRecord> {
    if tier_credited(true, key, slot, program_id) {
        match slot {
            Some(s) => Some(
                StatsRecord {
                    stats: ReferrerStats {
                        active_stake_l3: sat_sub(s.stats.active_stake_l3, amount),
                        ..s.stats
                    },
                    ..s
                },
            ),
            None => None,
        }
    } else {
        slot
    }
}

/// Debits the first tier's active-stake counter.
fn debit_tier_l1(
    key: &Option<AccountId>,
    slot: Option<StatsRecord>,
    program_id: &AccountId,
    amount: u64,
) -> (r: Option<StatsRecord>)
    ensures
        r == l1_debit_out(*key, slot, *program_id, amount),
{
    let k = match key {
        Some(k) => k,
        None => {
            return slot;
        },
    };
    let s = match slot {
        Some(s) => s,
        None => {
            return None;
        },
    };
    if !verify_stats_address(&s.address, k, program_id) {
        return Some(s);
    }
    let debited: u64 = if s.stats.active_stake_l1 >= amount {
        s.stats.active_stake_l1 - amount
    } else {
        0
    };
    Some(StatsRecord { address: s.address, stats: ReferrerStats { active_stake_l1: debited, ..s.stats } })
}

/// Debits the second tier's active-stake counter.
fn debit_tier_l2(
    key: &Option<AccountId>,
    slot: Option<StatsRecord>,
    program_id: &AccountId,
    amount: u64,
) -> (r: Option<StatsRecord>)
    ensures
        r == l2_debit_out(*key, slot, *program_id, amount),
{
    let k = match key {
        Some(k) => k,
        None => {
            return slot;
        },
    };
    let s = match slot {
        Some(s) => s,
        None => {
            return None;
        },
    };
    if !verify_stats_address(&s.address, k, program_id) {
        return Some(s);
    }
    let debited: u64 = if s.stats.active_stake_l2 >= amount {
        s.stats.active_stake_l2 - amount
    } else {
        0
    };
    Some(StatsRecord { address: s.address, stats: ReferrerStats { active_stake_l2: debited, ..s.stats } })
}

/// Debits the third tier's active-stake counter.
fn debit_tier_l3(
    key: &Option<AccountId>,
    slot: Option<StatsRecord>,
    program_id: &AccountId,
    amount: u64,
) -> (r: Option<StatsRecord>)
    ensures
        r == l3_debit_out(*key, slot, *program_id, amount),
{
    let k = match key {
        Some(k) => k,
        None => {
            return slot;
        },
    };
    let s = match slot {
        Some(s) => s,
        None => {
            return None;
        },
    };
    if !verify_stats_address(&s.address, k, program_id) {
        return Some(s);
    }
    let debited: u64 = if s.stats.active_stake_l3 >= amount {
        s.stats.active_stake_l3 - amount
    } else {
        0
    };
    Some(StatsRecord { address: s.address, stats: ReferrerStats { active_stake_l3: debited, ..s.stats } })
}

/// Withdraws `amount` from the position once its weighted lock has expired.
///
/// The whole position is gated by the effective, stake-weighted deposit time:
/// no older tranche can leave early. The pool and position are settled first,
/// each verified referrer record has its active-stake counter debited (floored
/// at zero), and both principal counters shrink by `amount`. On any error
/// nothing is changed.
pub fn unstake(
    pool: &mut StakingPool,
    user_stake: &mut UserStake,
    referrer_stats: Option<StatsRecord>,
    referrer_stats_l2: Option<StatsRecord>,
    referrer_stats_l3: Option<StatsRecord>,
    program_id: &AccountId,
    now: i64,
    amount: u64,
) -> (r: Result<UnstakeEffects, StakingError>)
    requires
        old(pool).wf(),
        old(user_stake).wf(),
        0 <= now,
        old(user_stake).reward_per_token_paid <= old(pool).reward_per_token_stored,
        // the pool-wide invariant: the total covers every single position
        old(user_stake).staked_amount <= old(pool).total_staked,
    ensures
        old(pool).paused ==> r == Err::<UnstakeEffects, StakingError>(StakingError::PoolPaused),
        !old(pool).paused && amount == 0 ==> r == Err::<UnstakeEffects, StakingError>(
            StakingError::ZeroAmount,
        ),
        !old(pool).paused && amount > 0 && amount > old(user_stake).staked_amount ==> r == Err::<
            UnstakeEffects,
            StakingError,
        >(StakingError::InsufficientStakedAmount),
        !old(pool).paused && amount > 0 && amount <= old(user_stake).staked_amount && now - old(
            user_stake,
        ).last_stake_time < old(pool).lock_duration ==> r == Err::<
            UnstakeEffects,
            StakingError,
        >(StakingError::MinimumStakePeriodNotMet),
        !old(pool).paused && amount > 0 && amount <= old(user_stake).staked_amount && now - old(
            user_stake,
        ).last_stake_time >= old(pool).lock_duration ==> (r is Err <==> settle_overflows(
            *old(pool),
            *old(user_stake),
            now,
        )) && (r matches Err(e) ==> e == StakingError::MathOverflow),
        r is Err ==> *final(pool) == *old(pool) && *final(user_stake) == *old(user_stake),
        r matches Ok(eff) ==> {
            &&& eff.transfer_amount == amount
            &&& *final(pool) == (StakingPool {
                total_staked: (old(pool).total_staked - amount) as u64,
                ..settled_pool(*old(pool), now)
            })
            &&& *final(user_stake) == (UserStake {
                staked_amount: (old(user_stake).staked_amount - amount) as u64,
                ..settled_user(*old(pool), *old(user_stake), now)
            })
            &&& eff.referrer_stats == l1_debit_out(
                old(user_stake).referrer,
                referrer_stats,
                *program_id,
                amount,
            )
            &&& eff.referrer_stats_l2 == l2_debit_out(
                old(user_stake).referrer_l2,
                referrer_stats_l2,
                *program_id,
                amount,
            )
            &&& eff.referrer_stats_l3 == l3_debit_out(
                old(user_stake).referrer_l3,
                referrer_stats_l3,
                *program_id,
                amount,
            )
        },
        final(pool).wf(),
        final(user_stake).wf(),
        final(user_stake).reward_per_token_paid <= final(pool).reward_per_token_stored,
        final(user_stake).staked_amount <= final(pool).total_staked,
{
    if pool.paused {
        return Err(StakingError::PoolPaused);
    }
    if amount == 0 {
        return Err(StakingError::ZeroAmount);
    }
    if amount > user_stake.staked_amount {
        return Err(StakingError::InsufficientStakedAmount);
    }
    if now - user_stake.last_stake_time < pool.lock_duration {
        return Err(StakingError::MinimumStakePeriodNotMet);
    }
    let mut p = *pool;
    let mut u = *user_stake;
    match update_rewards_optimized(&mut p, &mut u, now) {
        Ok(()) => (),
        Err(e) => {
            return Err(e);
        },
    }
    let out_l1 = debit_tier_l1(&u.referrer, referrer_stats, program_id, amount);
    let out_l2 = debit_tier_l2(&u.referrer_l2, referrer_stats_l2, program_id, amount);
    let out_l3 = debit_tier_l3(&u.referrer_l3, referrer_stats_l3, program_id, amount);
    p.total_staked = p.total_staked - amount;
    u.staked_amount = u.staked_amount - amount;
    *pool = p;
    *user_stake = u;
    Ok(
        UnstakeEffects {
            transfer_amount: amount,
            referrer_stats: out_l1,
            referrer_stats_l2: out_l2,
            referrer_stats_l3: out_l3,
        },
    )
}

} // verus!
