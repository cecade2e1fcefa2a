use vstd::prelude::*;

use crate::accrual::{settle_overflows, settled_pool, settled_user, update_rewards_optimized};
use crate::errors::StakingError;
use crate::ids::AccountId;
use crate::pda::{is_stats_pda, verify_stats_address};
use crate::state::{ReferrerStats, StakingPool, StatsRecord, UserStake, BASIS_POINTS};

verus! {

/// What a claim hands back to the host: the reward to transfer from the
/// reward vault to the user, and each supplied referrer record as it must be
/// written back.
pub struct ClaimEffects {
    pub transfer_amount: u64,
    pub referrer_stats_l1: Option<StatsRecord>,
    pub referrer_stats_l2: Option<StatsRecord>,
    pub referrer_stats_l3: Option<StatsRecord>,
}

/// The commission one tier earns on a claimed reward: `bps` basis points of
/// the full reward. Tiers are independent additive bonuses funded from the
/// reward pool, never deductions from the claimant's payout.
pub open spec fn commission_of(reward: u64, bps: u16) -> int {
    reward * bps / BASIS_POINTS as int
}

/// A tier earns commission only when referrals are enabled, the position
/// carries a key for that tier, and the supplied record sits at the address
/// derived for that key. A record at any other address is ignored, but does
/// not fail the claim.
pub open spec fn tier_credited(
    enabled: bool,
    key: Option<AccountId>,
    slot: Option<StatsRecord>,
    program_id: AccountId,
) -> bool {
    match (key, slot) {
        (Some(k), Some(s)) => enabled && is_stats_pda(s.address@, k@, program_id@),
        _ => false,
    }
}

/// A stats record with a commission added to both its lifetime total and its
/// claimable balance.
pub open spec fn credited(s: ReferrerStats, c: int) -> ReferrerStats {
    ReferrerStats {
        total_commission_earned: (s.total_commission_earned + c) as u64,
        pending_rewards: (s.pending_rewards + c) as u64,
        ..s
    }
}

/// Crediting this tier would wrap one of its counters.
pub open spec fn tier_overflows(
    enabled: bool,
    key: Option<AccountId>,
    slot: Option<StatsRecord>,
    program_id: AccountId,
    reward: u64,
    bps: u16,
) -> bool {
    tier_credited(enabled, key, slot, program_id) && match slot {
        Some(s) => {
            let c = commission_of(reward, bps);
            s.stats.total_commission_earned + c > u64::MAX || s.stats.pending_rewards + c
                > u64::MAX
        },
        None => false,
    }
}

/// The supplied record as it stands after the claim: credited when the tier
/// qualifies, returned untouched otherwise.
pub open spec fn tier_out(
    enabled: bool,
    key: Option<AccountId>,
    slot: Option<StatsRecord>,
    program_id: AccountId,
    reward: u64,
    bps: u16,
) -> Option<StatsRecord> {
    if tier_credited(enabled, key, slot, program_id) {
        match slot {
            Some(s) => Some(
                StatsRecord { stats: credited(s.stats, commission_of(reward, bps)), ..s },
            ),
            None => None,
        }
    } else {
        slot
    }
}

/// The position's pending reward once settled at `now`: the amount a claim at
/// `now` pays out.
pub open spec fn settled_pending(pool: StakingPool, user: UserStake, now: i64) -> u64 {
    settled_user(pool, user, now).reward_pending
}

/// Crediting the tiers or the claimant's lifetime total would wrap.
pub open spec fn claim_credit_overflows(
    pool: StakingPool,
    user: UserStake,
    l1: Option<StatsRecord>,
    l2: Option<StatsRecord>,
    l3: Option<StatsRecord>,
    program_id: AccountId,
    now: i64,
) -> bool {
    let reward = settled_pending(pool, user, now);
    ||| tier_overflows(pool.referral_enabled, user.referrer, l1, program_id, reward, pool.referral_l1_bps)
    ||| tier_overflows(
        pool.referral_enabled,
        user.referrer_l2,
        l2,
        program_id,
        reward,
        pool.referral_l2_bps,
    )
    ||| tier_overflows(
        pool.referral_enabled,
        user.referrer_l3,
        l3,
        program_id,
        reward,
        pool.referral_l3_bps,
    )
    ||| user.total_earned + reward > u64::MAX
}

/// Credits one referral tier for a claimed reward, passing an unqualified or
/// unverified record through unchanged.
fn credit_tier(
    enabled: bool,
    key: &Option<AccountId>,
    slot: Option<StatsRecord>,
    program_id: &AccountId,
    reward: u64,
    bps: u16,
) -> (r: Result<Option<StatsRecord>, StakingError>)
    requires
        bps <= BASIS_POINTS,
    ensures
        r is Err <==> tier_overflows(enabled, *key, slot, *program_id, reward, bps),
        r matches Err(e) ==> e == StakingError::MathOverflow,
        r matches Ok(out) ==> out == tier_out(enabled, *key, slot, *program_id, reward, bps),
{
    if !enabled {
        return Ok(slot);
    }
    let k = match key {
        Some(k) => k,
        None => {
            return Ok(slot);
        },
    };
    let s = match slot {
        Some(s) => s,
        None => {
            return Ok(None);
        },
    };
    if !verify_stats_address(&s.address, k, program_id) {
        return Ok(Some(s));
    }
    proof {
        vstd::arithmetic::mul::lemma_mul_upper_bound(
            reward as int,
            u64::MAX as int,
            bps as int,
            u16::MAX as int,
        );
        crate::arith::lemma_scaled_fraction_le(reward as int, bps as int, BASIS_POINTS as int);
    }
    let comm: u64 = ((reward as u128) * (bps as u128) / (BASIS_POINTS as u128)) as u64;
    if comm > 0 {
        let earned = match s.stats.total_commission_earned.checked_add(comm) {
            Some(v) => v,
            None => {
                return Err(StakingError::MathOverflow);
            },
        };
        let pending = match s.stats.pending_rewards.checked_add(comm) {
            Some(v) => v,
            None => {
                return Err(StakingError::MathOverflow);
            },
        };
        Ok(
            Some(
                StatsRecord {
                    address: s.address,
                    stats: ReferrerStats {
                        total_commission_earned: earned,
                        pending_rewards: pending,
                        ..s.stats
                    },
                },
            ),
        )
    } else {
        Ok(Some(s))
    }
}

/// Claims the position's settled pending reward.
///
/// The pool and the position are settled first; the claim then credits each
/// qualifying referral tier with its basis-point share of the full reward,
/// zeroes the pending balance, adds the full amount to the lifetime total,
/// and says that the full, uncut amount must move to the user. On any error
/// nothing is changed.
pub fn claim_rewards(
    pool: &mut StakingPool,
    user_stake: &mut UserStake,
    referrer_stats_l1: Option<StatsRecord>,
    referrer_stats_l2: Option<StatsRecord>,
    referrer_stats_l3: Option<StatsRecord>,
    program_id: &AccountId,
    now: i64,
) -> (r: Result<ClaimEffects, StakingError>)
    requires
        old(pool).wf(),
        old(user_stake).wf(),
        0 <= now,
        old(user_stake).reward_per_token_paid <= old(pool).reward_per_token_stored,
    ensures
        old(pool).paused ==> r == Err::<ClaimEffects, StakingError>(StakingError::PoolPaused),
        !old(pool).paused && settle_overflows(*old(pool), *old(user_stake), now) ==> r == Err::<
            ClaimEffects,
            StakingError,
        >(StakingError::MathOverflow),
        !old(pool).paused && !settle_overflows(*old(pool), *old(user_stake), now)
            && settled_pending(*old(pool), *old(user_stake), now) == 0 ==> r == Err::<
            ClaimEffects,
            StakingError,
        >(StakingError::NoRewardsToClaim),
        !old(pool).paused && !settle_overflows(*old(pool), *old(user_stake), now)
            && settled_pending(*old(pool), *old(user_stake), now) > 0 ==> (r is Err
            <==> claim_credit_overflows(
            *old(pool),
            *old(user_stake),
            referrer_stats_l1,
            referrer_stats_l2,
            referrer_stats_l3,
            *program_id,
            now,
        )) && (r matches Err(e) ==> e == StakingError::MathOverflow),
        r is Err ==> *final(pool) == *old(pool) && *final(user_stake) == *old(user_stake),
        r matches Ok(eff) ==> {
            let reward = settled_pending(*old(pool), *old(user_stake), now);
            &&& !old(pool).paused
            &&& reward > 0
            &&& eff.transfer_amount == reward
            &&& *final(pool) == settled_pool(*old(pool), now)
            &&& *final(user_stake) == (UserStake {
                reward_pending: 0,
                total_earned: (old(user_stake).total_earned + reward) as u64,
                ..settled_user(*old(pool), *old(user_stake), now)
            })
            &&& eff.referrer_stats_l1 == tier_out(
                old(pool).referral_enabled,
                old(user_stake).referrer,
                referrer_stats_l1,
                *program_id,
                reward,
                old(pool).referral_l1_bps,
            )
            &&& eff.referrer_stats_l2 == tier_out(
                old(pool).referral_enabled,
                old(user_stake).referrer_l2,
                referrer_stats_l2,
                *program_id,
                reward,
                old(pool).referral_l2_bps,
            )
            &&& eff.referrer_stats_l3 == tier_out(
                old(pool).referral_enabled,
                old(user_stake).referrer_l3,
                referrer_stats_l3,
                *program_id,
                reward,
                old(pool).referral_l3_bps,
            )
        },
        final(pool).wf(),
        final(user_stake).wf(),
        final(user_stake).reward_per_token_paid <= final(pool).reward_per_token_stored,
{
    if pool.paused {
        return Err(StakingError::PoolPaused);
    }
    let mut p = *pool;
    let mut u = *user_stake;
    match update_rewards_optimized(&mut p, &mut u, now) {
        Ok(()) => (),
        Err(e) => {
            return Err(e);
        },
    }
    let total_reward = u.reward_pending;
    if total_reward == 0 {
        return Err(StakingError::NoRewardsToClaim);
    }
    let out_l1 = match credit_tier(
        p.referral_enabled,
        &u.referrer,
        referrer_stats_l1,
        program_id,
        total_reward,
        p.referral_l1_bps,
    ) {
        Ok(v) => v,
        Err(e) => {
            return Err(e);
        },
    };
    let out_l2 = match credit_tier(
        p.referral_enabled,
        &u.referrer_l2,
        referrer_stats_l2,
        program_id,
        total_reward,
        p.referral_l2_bps,
    ) {
        Ok(v) => v,
        Err(e) => {
            return Err(e);
        },
    };
    let out_l3 = match credit_tier(
        p.referral_enabled,
        &u.referrer_l3,
        referrer_stats_l3,
        program_id,
        total_reward,
        p.referral_l3_bps,
    ) {
        Ok(v) => v,
        Err(e) => {
            return Err(e);
        },
    };
    let earned_total = match u.total_earned.checked_add(total_reward) {
        Some(v) => v,
        None => {
            return Err(StakingError::MathOverflow);
        },
    };
    u.reward_pending = 0;
    u.total_earned = earned_total;
    *pool = p;
    *user_stake = u;
    Ok(
        ClaimEffects {
            transfer_amount: total_reward,
            referrer_stats_l1: out_l1,
            referrer_stats_l2: out_l2,
            referrer_stats_l3: out_l3,
        },
    )
}

/// Atomically zeroes a referrer's claimable commission balance and says that
/// this amount must move from the reward vault to the referrer; refused when
/// the balance is zero.
pub fn claim_referral_rewards(stats: &mut ReferrerStats) -> (r: Result<u64, StakingError>)
    ensures
        r is Err <==> old(stats).pending_rewards == 0,
        r matches Err(e) ==> e == StakingError::NoRewardsToClaim && *final(stats) == *old(stats),
        r matches Ok(amount) ==> amount == old(stats).pending_rewards && amount > 0
            && *final(stats) == (ReferrerStats { pending_rewards: 0, ..*old(stats) }),
{
    let amount = stats.pending_rewards;
    if amount == 0 {
        return Err(StakingError::NoRewardsToClaim);
    }
    stats.pending_rewards = 0;
    Ok(amount)
}

} // verus!
