use vstd::prelude::*;

use crate::accrual::{elapsed_since, settled_accumulator, settled_pool};
use crate::errors::StakingError;
use crate::ids::AccountId;
use crate::state::{ReferrerStats, StakingPool, MAX_REFERRAL_BPS, PRECISION};

verus! {

/// Creates a pool for a token/reward mint pair with the standard opening
/// configuration: a thirty-day lock, referral rates of 1000/500/300 basis
/// points, and an accumulator starting at zero.
pub fn initialize(
    authority: AccountId,
    token_mint: AccountId,
    reward_mint: AccountId,
    staking_vault: AccountId,
    reward_vault: AccountId,
    bump: u8,
    reward_rate: u64,
    enable_referral: bool,
    now: i64,
) -> (r: StakingPool)
    requires
        0 <= now,
    ensures
        r.authority == authority,
        r.fee_receiver == authority,
        r.token_mint == token_mint,
        r.reward_mint == reward_mint,
        r.staking_vault == staking_vault,
        r.reward_vault == reward_vault,
        r.bump == bump,
        r.reward_rate == reward_rate,
        r.referral_enabled == enable_referral,
        !r.paused,
        r.lock_duration == 2592000,
        r.referral_l1_bps == 1000,
        r.referral_l2_bps == 500,
        r.referral_l3_bps == 300,
        r.fee_stake == 1000000,
        r.fee_unstake == 5000000,
        r.fee_claim == 100000,
        r.min_stake_amount == 1000000,
        r.last_update_time == now,
        r.reward_per_token_stored == 0,
        r.total_staked == 0,
        r.wf(),
{
    StakingPool {
        authority,
        token_mint,
        reward_mint,
        staking_vault,
        reward_vault,
        fee_receiver: authority,
        reward_per_token_stored: 0,
        reward_rate,
        total_staked: 0,
        fee_stake: 1_000_000,
        fee_unstake: 5_000_000,
        fee_claim: 100_000,
        min_stake_amount: 1_000_000,
        last_update_time: now,
        lock_duration: 2_592_000,
        referral_l1_bps: 1000,
        referral_l2_bps: 500,
        referral_l3_bps: 300,
        referral_enabled: enable_referral,
        paused: false,
        bump,
    }
}

/// Creates the zeroed statistics record a referrer registers before any
/// commission can accrue to them.
pub fn initialize_referrer_stats(referrer: AccountId) -> (r: ReferrerStats)
    ensures
        r.referrer == referrer,
        r.total_referrals == 0,
        r.total_commission_earned == 0,
        r.pending_rewards == 0,
        r.volume_referred == 0,
        r.active_stake_l1 == 0,
        r.active_stake_l2 == 0,
        r.active_stake_l3 == 0,
{
    ReferrerStats {
        referrer,
        total_referrals: 0,
        total_commission_earned: 0,
        pending_rewards: 0,
        volume_referred: 0,
        active_stake_l1: 0,
        active_stake_l2: 0,
        active_stake_l3: 0,
    }
}

/// Replaces the fee schedule and the fee receiver.
pub fn update_fees(
    pool: &mut StakingPool,
    fee_stake: u64,
    fee_unstake: u64,
    fee_claim: u64,
    new_receiver: AccountId,
)
    ensures
        *final(pool) == (StakingPool {
            fee_stake,
            fee_unstake,
            fee_claim,
            fee_receiver: new_receiver,
            ..*old(pool)
        }),
{
    pool.fee_stake = fee_stake;
    pool.fee_unstake = fee_unstake;
    pool.fee_claim = fee_claim;
    pool.fee_receiver = new_receiver;
}

/// Replaces the three referral rates, refusing any configuration whose sum
/// exceeds the 2500-basis-point cap.
pub fn update_referral_rates(pool: &mut StakingPool, l1: u16, l2: u16, l3: u16) -> (r: Result<
    (),
    StakingError,
>)
    requires
        old(pool).wf(),
    ensures
        r is Err <==> l1 + l2 + l3 > MAX_REFERRAL_BPS,
        r matches Err(e) ==> e == StakingError::ReferralRatesExceedMax && *final(pool) == *old(
            pool,
        ),
        r is Ok ==> *final(pool) == (StakingPool {
            referral_l1_bps: l1,
            referral_l2_bps: l2,
            referral_l3_bps: l3,
            ..*old(pool)
        }),
        final(pool).wf(),
{
    let sum: u64 = l1 as u64 + l2 as u64 + l3 as u64;
    if sum > MAX_REFERRAL_BPS as u64 {
        return Err(StakingError::ReferralRatesExceedMax);
    }
    pool.referral_l1_bps = l1;
    pool.referral_l2_bps = l2;
    pool.referral_l3_bps = l3;
    Ok(())
}

/// Replaces the lock duration.
pub fn update_lock_duration(pool: &mut StakingPool, duration: i64)
    requires
        old(pool).wf(),
        0 <= duration,
    ensures
        *final(pool) == (StakingPool { lock_duration: duration, ..*old(pool) }),
        final(pool).wf(),
{
    pool.lock_duration = duration;
}

/// When changing the emission rate must be refused: settling the accumulator
/// up to the moment of the change would wrap.
pub open spec fn rate_update_overflows(pool: StakingPool, now: i64) -> bool {
    pool.total_staked != 0 && {
        ||| pool.reward_rate * elapsed_since(now, pool.last_update_time) * PRECISION > u128::MAX
        ||| settled_accumulator(pool, now) > u128::MAX
    }
}

/// Replaces the emission rate. The accumulator is settled first at the old
/// rate, so reward already owed is not re-priced.
pub fn update_reward_rate(pool: &mut StakingPool, new_rate: u64, now: i64) -> (r: Result<
    (),
    StakingError,
>)
    requires
        old(pool).wf(),
        0 <= now,
    ensures
        r is Err <==> rate_update_overflows(*old(pool), now),
        r matches Err(e) ==> e == StakingError::MathOverflow && *final(pool) == *old(pool),
        r is Ok ==> *final(pool) == (StakingPool {
            reward_rate: new_rate,
            ..settled_pool(*old(pool), now)
        }),
        final(pool).wf(),
{
    if pool.total_staked == 0 {
        pool.last_update_time = now;
        pool.reward_rate = new_rate;
        return Ok(());
    }
    let delta: i64 = match now.checked_sub(pool.last_update_time) {
        Some(d) => d,
        None => 0,
    };
    if delta > 0 {
        let emitted: u128 = match (pool.reward_rate as u128).checked_mul(delta as u128) {
            Some(v) => v,
            None => {
                proof {
                    crate::arith::lemma_mul_by_scale_exceeds(
                        pool.reward_rate as int * delta as int,
                        PRECISION as int,
                        u128::MAX as int,
                    );
                }
                return Err(StakingError::MathOverflow);
            },
        };
        let scaled: u128 = match emitted.checked_mul(PRECISION) {
            Some(v) => v,
            None => {
                return Err(StakingError::MathOverflow);
            },
        };
        let reward_inc: u128 = scaled / (pool.total_staked as u128);
        let new_acc: u128 = match pool.reward_per_token_stored.checked_add(reward_inc) {
            Some(v) => v,
            None => {
                return Err(StakingError::MathOverflow);
            },
        };
        pool.reward_per_token_stored = new_acc;
        pool.last_update_time = now;
    }
    pool.reward_rate = new_rate;
    Ok(())
}

/// Sets or clears the pause flag.
pub fn set_pause_state(pool: &mut StakingPool, paused: bool)
    ensures
        *final(pool) == (StakingPool { paused, ..*old(pool) }),
{
    pool.paused = paused;
}

/// Enables or disables referral linking and commission.
pub fn toggle_referral_system(pool: &mut StakingPool, enabled: bool)
    ensures
        *final(pool) == (StakingPool { referral_enabled: enabled, ..*old(pool) }),
{
    pool.referral_enabled = enabled;
}

/// Validates an administrative withdrawal from the staking vault and says how
/// much must move; the transfer itself is the host ledger's.
pub fn withdraw_tokens(amount: u64) -> (r: Result<u64, StakingError>)
    ensures
        r matches Ok(a) ==> a == amount && amount > 0,
        r is Err <==> amount == 0,
        r matches Err(e) ==> e == StakingError::ZeroAmount,
{
    if amount == 0 {
        return Err(StakingError::ZeroAmount);
    }
    Ok(amount)
}

} // verus!
