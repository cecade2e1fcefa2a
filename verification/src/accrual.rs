use vstd::prelude::*;

use crate::errors::StakingError;
use crate::state::{StakingPool, UserStake, PRECISION};

verus! {

/// Seconds elapsed since the pool's last settlement, clamped at zero so that
/// clock skew never accrues negative reward.
pub open spec fn elapsed_since(now: i64, last: i64) -> int {
    if now - last > 0 {
        now - last
    } else {
        0
    }
}

/// What the accumulator gains when settled at `now`: the reward emitted over
/// the elapsed time, scaled by `PRECISION` and spread over the stake.
/// Meaningful only while `total_staked > 0`.
pub open spec fn accum_increment(pool: StakingPool, now: i64) -> int {
    pool.reward_rate * elapsed_since(now, pool.last_update_time) * PRECISION
        / pool.total_staked as int
}

/// The accumulator value after settling at `now`, as unbounded arithmetic.
pub open spec fn settled_accumulator(pool: StakingPool, now: i64) -> int {
    if pool.total_staked == 0 || elapsed_since(now, pool.last_update_time) == 0 {
        pool.reward_per_token_stored as int
    } else {
        pool.reward_per_token_stored + accum_increment(pool, now)
    }
}

/// The reward a position of `staked` units gains when its checkpoint moves
/// from `paid` up to the accumulator value `acc`.
pub open spec fn newly_accrued(staked: u64, acc: int, paid: u128) -> int {
    staked * (acc - paid) / PRECISION as int
}

/// When settlement must be refused: some checked step of the computation
/// would wrap. The settled pending reward itself must fit in 64 bits.
pub open spec fn settle_overflows(pool: StakingPool, user: UserStake, now: i64) -> bool {
    if pool.total_staked == 0 {
        false
    } else {
        let acc = settled_accumulator(pool, now);
        ||| pool.reward_rate * elapsed_since(now, pool.last_update_time) * PRECISION > u128::MAX
        ||| acc > u128::MAX
        ||| (user.staked_amount > 0 && {
            ||| user.staked_amount * (acc - user.reward_per_token_paid) > u128::MAX
            ||| user.reward_pending + newly_accrued(
                user.staked_amount,
                acc,
                user.reward_per_token_paid,
            ) > u64::MAX
        })
    }
}

/// The pool after a settlement at `now`. With no stake, only the clock
/// advances; with no elapsed time, nothing moves at all.
pub open spec fn settled_pool(pool: StakingPool, now: i64) -> StakingPool {
    if pool.total_staked == 0 {
        StakingPool { last_update_time: now, ..pool }
    } else if elapsed_since(now, pool.last_update_time) > 0 {
        StakingPool {
            reward_per_token_stored: settled_accumulator(pool, now) as u128,
            last_update_time: now,
            ..pool
        }
    } else {
        pool
    }
}

/// The position after a settlement at `now`: its pending reward has grown by
/// what its principal earned since its checkpoint, and the checkpoint has
/// moved to the settled accumulator. With no stake in the pool at all, the
/// position is untouched, so that a later first deposit starts accruing from
/// the then-current baseline.
pub open spec fn settled_user(pool: StakingPool, user: UserStake, now: i64) -> UserStake {
    if pool.total_staked == 0 {
        user
    } else {
        let acc = settled_accumulator(pool, now);
        let pending = if user.staked_amount > 0 {
            (user.reward_pending + newly_accrued(
                user.staked_amount,
                acc,
                user.reward_per_token_paid,
            )) as u64
        } else {
            user.reward_pending
        };
        UserStake { reward_pending: pending, reward_per_token_paid: acc as u128, ..user }
    }
}

/// Settles the pool's accumulator and the position's pending reward at `now`.
///
/// This must run before any operation that reads or mutates the position's
/// principal, its pending reward, or commission derived from it. On any
/// overflow nothing is changed and `MathOverflow` is returned.
pub fn update_rewards_optimized(pool: &mut StakingPool, user_stake: &mut UserStake, now: i64) -> (r:
    Result<(), StakingError>)
    requires
        old(pool).wf(),
        old(user_stake).wf(),
        0 <= now,
        old(user_stake).reward_per_token_paid <= old(pool).reward_per_token_stored,
    ensures
        r is Err <==> settle_overflows(*old(pool), *old(user_stake), now),
        r matches Err(e) ==> e == StakingError::MathOverflow && *final(pool) == *old(pool)
            && *final(user_stake) == *old(user_stake),
        r is Ok ==> *final(pool) == settled_pool(*old(pool), now) && *final(user_stake)
            == settled_user(*old(pool), *old(user_stake), now),
        final(pool).wf(),
        final(user_stake).wf(),
        final(user_stake).reward_per_token_paid <= final(pool).reward_per_token_stored,
        old(pool).reward_per_token_stored <= final(pool).reward_per_token_stored,
{
    if pool.total_staked == 0 {
        pool.last_update_time = now;
        return Ok(());
    }
    let delta: i64 = match now.checked_sub(pool.last_update_time) {
        Some(d) => d,
        None => 0,
    };
    let acc_now: u128;
    let advance: bool;
    if delta > 0 {
        let emitted: u128 = match (pool.reward_rate as u128).checked_mul(delta as u128) {
            Some(v) => v,
            None => {
                proof {
                    crate::arith::lemma_mul_by_scale_exceeds(
                        pool.reward_rate as int * delta as int,
                        PRECISION as int,
                        u128::MAX as int,
                    );
                }
                return Err(StakingError::MathOverflow);
            },
        };
        let scaled: u128 = match emitted.checked_mul(PRECISION) {
            Some(v) => v,
            None => {
                return Err(StakingError::MathOverflow);
            },
        };
        let reward_inc: u128 = scaled / (pool.total_staked as u128);
        acc_now = match pool.reward_per_token_stored.checked_add(reward_inc) {
            Some(v) => v,
            None => {
                return Err(StakingError::MathOverflow);
            },
        };
        advance = true;
    } else {
        acc_now = pool.reward_per_token_stored;
        advance = false;
    }
    proof {
        crate::arith::lemma_div_nonneg(
            old(pool).reward_rate * elapsed_since(now, old(pool).last_update_time) * PRECISION,
            old(pool).total_staked as int,
        );
        vstd::arithmetic::mul::lemma_mul_nonnegative(
            old(pool).reward_rate as int,
            elapsed_since(now, old(pool).last_update_time),
        );
        vstd::arithmetic::mul::lemma_mul_nonnegative(
            old(pool).reward_rate * elapsed_since(now, old(pool).last_update_time),
            PRECISION as int,
        );
    }
    let mut new_pending: u64 = user_stake.reward_pending;
    if user_stake.staked_amount > 0 {
        let diff: u128 = acc_now - user_stake.reward_per_token_paid;
        let raw: u128 = match (user_stake.staked_amount as u128).checked_mul(diff) {
            Some(v) => v,
            None => {
                return Err(StakingError::MathOverflow);
            },
        };
        let gained: u128 = raw / PRECISION;
        if gained > u64::MAX as u128 {
            return Err(StakingError::MathOverflow);
        }
        new_pending = match user_stake.reward_pending.checked_add(gained as u64) {
            Some(v) => v,
            None => {
                return Err(StakingError::MathOverflow);
            },
        };
    }
    if advance {
        pool.reward_per_token_stored = acc_now;
        pool.last_update_time = now;
    }
    user_stake.reward_pending = new_pending;
    user_stake.reward_per_token_paid = acc_now;
    Ok(())
}

} // verus!
