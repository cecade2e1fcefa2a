use vstd::prelude::*;

use crate::accrual::{settle_overflows, settled_pool, settled_user, update_rewards_optimized};
use crate::claim::tier_credited;
use crate::errors::StakingError;
use crate::ids::{same_id, zero_id, zero_key, AccountId};
use crate::pda::{is_stake_pda, is_stats_pda, verify_stake_address, verify_stats_address};
use crate::state::{ReferrerStats, StakeRecord, StakingPool, StatsRecord, UserStake};

verus! {

/// The referral records a staker may supply: the statistics records of up to
/// three upstream tiers, and the position records through which the chain is
/// discovered on a first link.
pub struct ReferralCtx {
    pub referrer_stats: Option<StatsRecord>,
    pub referrer_user_stake: Option<StakeRecord>,
    pub referrer_stats_l2: Option<StatsRecord>,
    pub l2_user_stake: Option<StakeRecord>,
    pub referrer_stats_l3: Option<StatsRecord>,
}

/// What a stake hands back to the host: the deposit to move into the staking
/// vault, whether a new referral link was made, and each supplied statistics
/// record as it must be written back.
pub struct StakeEffects {
    pub transfer_amount: u64,
    pub new_referral: bool,
    pub referrer_stats: Option<StatsRecord>,
    pub referrer_stats_l2: Option<StatsRecord>,
    pub referrer_stats_l3: Option<StatsRecord>,
}

/// A deposit links a referral chain only when referrals are enabled, the
/// position has no referrer yet, and a referrer key is supplied. The chain is
/// then frozen forever.
pub open spec fn link_attempt(pool: StakingPool, user: UserStake, referrer: Option<
    AccountId,
>) -> bool {
    pool.referral_enabled && user.referrer is None && referrer is Some
}

/// The second-tier key discovered at link time: the referrer's own referrer,
/// read from the referrer's position record if one is supplied at the
/// address derived for it.
pub open spec fn discovered_l2(
    referrer: AccountId,
    ref_stake: Option<StakeRecord>,
    pool_key: AccountId,
    program_id: AccountId,
) -> Option<AccountId> {
    match ref_stake {
        Some(rs) => {
            if is_stake_pda(rs.address@, referrer@, pool_key@, program_id@) {
                rs.stake.referrer
            } else {
                None
            }
        },
        None => None,
    }
}

/// The third-tier key discovered at link time: the second tier's referrer,
/// read from the second tier's position record.
pub open spec fn discovered_l3(
    l2: Option<AccountId>,
    l2_stake: Option<StakeRecord>,
    pool_key: AccountId,
    program_id: AccountId,
) -> Option<AccountId> {
    match (l2, l2_stake) {
        (Some(k2), Some(ls)) => {
            if is_stake_pda(ls.address@, k2@, pool_key@, program_id@) {
                ls.stake.referrer
            } else {
                None
            }
        },
        _ => None,
    }
}

/// Why a link attempt is refused: self-referral, a supplied record off its
/// derived address, or a wrapped referral counter.
pub open spec fn link_error(
    user_key: AccountId,
    pool_key: AccountId,
    program_id: AccountId,
    referrer: AccountId,
    ctx: ReferralCtx,
) -> Option<StakingError> {
    if referrer@ == user_key@ {
        Some(StakingError::SelfReferral)
    } else if ctx.referrer_stats matches Some(s) && !is_stats_pda(
        s.address@,
        referrer@,
        program_id@,
    ) {
        Some(StakingError::InvalidReferrerAccount)
    } else if ctx.referrer_stats matches Some(s) && s.stats.total_referrals + 1 > u64::MAX {
        Some(StakingError::MathOverflow)
    } else if ctx.referrer_user_stake matches Some(rs) && !is_stake_pda(
        rs.address@,
        referrer@,
        pool_key@,
        program_id@,
    ) {
        Some(StakingError::InvalidReferrerAccount)
    } else if discovered_l2(referrer, ctx.referrer_user_stake, pool_key, program_id) matches Some(
        k2,
    ) && ctx.l2_user_stake matches Some(ls) && !is_stake_pda(
        ls.address@,
        k2@,
        pool_key@,
        program_id@,
    ) {
        Some(StakingError::InvalidReferrerAccount)
    } else {
        None
    }
}

/// The referral chain the position carries after the deposit: freshly
/// discovered on a first link, otherwise exactly what it already carried.
pub open spec fn chain_after(
    pool: StakingPool,
    user: UserStake,
    referrer: Option<AccountId>,
    ctx: ReferralCtx,
    pool_key: AccountId,
    program_id: AccountId,
) -> (Option<AccountId>, Option<AccountId>, Option<AccountId>) {
    if link_attempt(pool, user, referrer) {
        match referrer {
            Some(rk) => {
                let l2 = discovered_l2(rk, ctx.referrer_user_stake, pool_key, program_id);
                let l3 = discovered_l3(l2, ctx.l2_user_stake, pool_key, program_id);
                (Some(rk), l2, l3)
            },
            None => (user.referrer, user.referrer_l2, user.referrer_l3),
        }
    } else {
        (user.referrer, user.referrer_l2, user.referrer_l3)
    }
}

/// The first tier's record after a successful link: its referral count has
/// grown by one. Only the direct referrer gains a referral count.
pub open spec fn l1_slot_after_link(linking: bool, slot: Option<StatsRecord>) -> Option<
    StatsRecord,
> {
    if linking {
        match slot {
            Some(s) => Some(
                StatsRecord {
                    stats: ReferrerStats {
                        total_referrals: (s.stats.total_referrals + 1) as u64,
                        ..s.stats
                    },
                    ..s
                },
            ),
            None => None,
        }
    } else {
        slot
    }
}

/// The first tier's record after the deposit is counted: its active stake and
/// its lifetime referred volume have grown by the deposit, when the record is
/// verified for the chain's first key.
pub open spec fn stake_l1_out(
    enabled: bool,
    key: Option<AccountId>,
    slot: Option<StatsRecord>,
    program_id: AccountId,
    amount: u64,
) -> Option<StatsRecord> {
    if tier_credited(enabled, key, slot, program_id) {
        match slot {
            Some(s) => Some(
                StatsRecord {
                    stats: ReferrerStats {
                        active_stake_l1: (s.stats.active_stake_l1 + amount) as u64,
                        volume_referred: (s.stats.volume_referred + amount) as u64,
                        ..s.stats
                    },
                    ..s
                },
            ),
            None => None,
        }
    } else {
        slot
    }
}

/// Counting the deposit on the first tier would wrap a counter.
pub open spec fn stake_l1_overflows(
    enabled: bool,
    key: Option<AccountId>,
    slot: Option<StatsRecord>,
    program_id: AccountId,
    amount: u64,
) -> bool {
    tier_credited(enabled, key, slot, program_id) && match slot {
        Some(s) => s.stats.active_stake_l1 + amount > u64::MAX || s.stats.volume_referred + amount
            > u64::MAX,
        None => false,
    }
}

/// As `stake_l1_out`, for the second tier's active-stake counter alone.
pub open spec fn stake_l2_out(
    enabled: bool,
    key: Option<AccountId>,
    slot: Option<StatsRecord>,
    program_id: AccountId,
    amount: u64,
) -> Option<StatsRecord> {
    if tier_credited(enabled, key, slot, program_id) {
        match slot {
            Some(s) => Some(
                StatsRecord {
                    stats: ReferrerStats {
                        active_stake_l2: (s.stats.active_stake_l2 + amount) as u64,
                        ..s.stats
                    },
                    ..s
                },
            ),
            None => None,
        }
    } else {
        slot
    }
}

/// Counting the deposit on the second tier would wrap its counter.
pub open spec fn stake_l2_overflows(
    enabled: bool,
    key: Option<AccountId>,
    slot: Option<StatsRecord>,
    program_id: AccountId,
    amount: u64,
) -> bool {
    tier_credited(enabled, key, slot, program_id) && match slot {
        Some(s) => s.stats.active_stake_l2 + amount > u64::MAX,
        None => false,
    }
}

/// As `stake_l1_out`, for the third tier's active-stake counter alone.
pub open spec fn stake_l3_out(
    enabled: bool,
    key: Option<AccountId>,
    slot: Option<StatsRecord>,
    program_id: AccountId,
    amount: u64,
) -> Option<StatsRecord> {
    if tier_credited(enabled, key, slot, program_id) {
        match slot {
            Some(s) => Some(
                StatsRecord {
                    stats: ReferrerStats {
                        active_stake_l3: (s.stats.active_stake_l3 + amount) as u64,
                        ..s.stats
                    },
                    ..s
                },
            ),
            None => None,
        }
    } else {
        slot
    }
}

/// Counting the deposit on the third tier would wrap its counter.
pub open spec fn stake_l3_overflows(
    enabled: bool,
    key: Option<AccountId>,
    slot: Option<StatsRecord>,
    program_id: AccountId,
    amount: u64,
) -> bool {
    tier_credited(enabled, key, slot, program_id) && match slot {
        Some(s) => s.stats.active_stake_l3 + amount > u64::MAX,
        None => false,
    }
}

/// Seconds of lock left on the position at `now`, floored at zero.
pub open spec fn remaining_lock(last: i64, lock: i64, now: i64) -> int {
    let unlock = if last + lock > i64::MAX {
        i64::MAX as int
    } else {
        last + lock
    };
    if unlock > now {
        unlock - now
    } else {
        0
    }
}

/// The effective deposit time after a deposit of `amount` at `now`: for a
/// first deposit, `now` itself; for a top-up, the time whose remaining lock is
/// the stake-weighted average of the old remaining lock and the full duration,
/// so the whole position is re-locked in proportion to the new deposit's
/// share.
pub open spec fn next_stake_time(staked: u64, last: i64, lock: i64, amount: u64, now: i64) -> int {
    if staked == 0 {
        now as int
    } else {
        let rem = remaining_lock(last, lock, now);
        let weighted = (staked * rem + amount * lock) / (staked + amount);
        let t = now - (lock - weighted);
        if i64::MIN <= t <= i64::MAX {
            t
        } else {
            now as int
        }
    }
}

/// The first refusal a deposit meets, in the order the checks run; `None`
/// when the deposit goes through.
pub open spec fn stake_error(
    pool: StakingPool,
    user: UserStake,
    user_key: AccountId,
    pool_key: AccountId,
    amount: u64,
    referrer: Option<AccountId>,
    ctx: ReferralCtx,
    program_id: AccountId,
    now: i64,
) -> Option<StakingError> {
    if pool.paused {
        Some(StakingError::PoolPaused)
    } else if amount == 0 {
        Some(StakingError::ZeroAmount)
    } else if amount < pool.min_stake_amount {
        Some(StakingError::BelowMinimumStake)
    } else if settle_overflows(pool, user, now) {
        Some(StakingError::MathOverflow)
    } else {
        let linking = link_attempt(pool, user, referrer);
        let le = if linking {
            match referrer {
                Some(rk) => link_error(user_key, pool_key, program_id, rk, ctx),
                None => None,
            }
        } else {
            None
        };
        if le is Some {
            le
        } else {
            let chain = chain_after(pool, user, referrer, ctx, pool_key, program_id);
            let slot1 = l1_slot_after_link(linking, ctx.referrer_stats);
            if stake_l1_overflows(pool.referral_enabled, chain.0, slot1, program_id, amount) {
                Some(StakingError::MathOverflow)
            } else if stake_l2_overflows(
                pool.referral_enabled,
                chain.1,
                ctx.referrer_stats_l2,
                program_id,
                amount,
            ) {
                Some(StakingError::MathOverflow)
            } else if stake_l3_overflows(
                pool.referral_enabled,
                chain.2,
                ctx.referrer_stats_l3,
                program_id,
                amount,
            ) {
                Some(StakingError::MathOverflow)
            } else if pool.total_staked + amount > u64::MAX {
                Some(StakingError::MathOverflow)
            } else if user.staked_amount + amount > u64::MAX {
                Some(StakingError::MathOverflow)
            } else {
                None
            }
        }
    }
}

/// Credits the first tier's active stake and referred volume for a deposit,
/// passing an unqualified or unverified record through unchanged.
fn credit_stake_l1(
    enabled: bool,
    key: &Option<AccountId>,
    slot: Option<StatsRecord>,
    program_id: &AccountId,
    amount: u64,
) -> (r: Result<Option<StatsRecord>, StakingError>)
    ensures
        r is Err <==> stake_l1_overflows(enabled, *key, slot, *program_id, amount),
        r matches Err(e) ==> e == StakingError::MathOverflow,
        r matches Ok(out) ==> out == stake_l1_out(enabled, *key, slot, *program_id, amount),
{
    if !enabled {
        return Ok(slot);
    }
    let k = match key {
        Some(k) => k,
        None => {
            return Ok(slot);
        },
    };
    let s = match slot {
        Some(s) => s,
        None => {
            return Ok(None);
        },
    };
    if !verify_stats_address(&s.address, k, program_id) {
        return Ok(Some(s));
    }
    let active = match s.stats.active_stake_l1.checked_add(amount) {
        Some(v) => v,
        None => {
            return Err(StakingError::MathOverflow);
        },
    };
    let volume = match s.stats.volume_referred.checked_add(amount) {
        Some(v) => v,
        None => {
            return Err(StakingError::MathOverflow);
        },
    };
    Ok(
        Some(
            StatsRecord {
                address: s.address,
                stats: ReferrerStats { active_stake_l1: active, volume_referred: volume, ..s.stats },
            },
        ),
    )
}

/// Credits the second tier's active stake for a deposit.
fn credit_stake_l2(
    enabled: bool,
    key: &Option<AccountId>,
    slot: Option<StatsRecord>,
    program_id: &AccountId,
    amount: u64,
) -> (r: Result<Option<StatsRecord>, StakingError>)
    ensures
        r is Err <==> stake_l2_overflows(enabled, *key, slot, *program_id, amount),
        r matches Err(e) ==> e == StakingError::MathOverflow,
        r matches Ok(out) ==> out == stake_l2_out(enabled, *key, slot, *program_id, amount),
{
    if !enabled {
        return Ok(slot);
    }
    let k = match key {
        Some(k) => k,
        None => {
            return Ok(slot);
        },
    };
    let s = match slot {
        Some(s) => s,
        None => {
            return Ok(None);
        },
    };
    if !verify_stats_address(&s.address, k, program_id) {
        return Ok(Some(s));
    }
    let active = match s.stats.active_stake_l2.checked_add(amount) {
        Some(v) => v,
        None => {
            return Err(StakingError::MathOverflow);
        },
    };
    Ok(
        Some(
            StatsRecord {
                address: s.address,
                stats: ReferrerStats { active_stake_l2: active, ..s.stats },
            },
        ),
    )
}

/// Credits the third tier's active stake for a deposit.
fn credit_stake_l3(
    enabled: bool,
    key: &Option<AccountId>,
    slot: Option<StatsRecord>,
    program_id: &AccountId,
    amount: u64,
) -> (r: Result<Option<StatsRecord>, StakingError>)
    ensures
        r is Err <==> stake_l3_overflows(enabled, *key, slot, *program_id, amount),
        r matches Err(e) ==> e == StakingError::MathOverflow,
        r matches Ok(out) ==> out == stake_l3_out(enabled, *key, slot, *program_id, amount),
{
    if !enabled {
        return Ok(slot);
    }
    let k = match key {
        Some(k) => k,
        None => {
            return Ok(slot);
        },
    };
    let s = match slot {
        Some(s) => s,
        None => {
            return Ok(None);
        },
    };
    if !verify_stats_address(&s.address, k, program_id) {
        return Ok(Some(s));
    }
    let active = match s.stats.active_stake_l3.checked_add(amount) {
        Some(v) => v,
        None => {
            return Err(StakingError::MathOverflow);
        },
    };
    Ok(
        Some(
            StatsRecord {
                address: s.address,
                stats: ReferrerStats { active_stake_l3: active, ..s.stats },
            },
        ),
    )
}

/// Computes the effective deposit time after a deposit of `amount` at `now`.
fn weighted_stake_time(staked: u64, last: i64, lock: i64, amount: u64, now: i64) -> (r: i64)
    requires
        0 <= last,
        0 <= lock,
        0 <= now,
        staked > 0,
        amount > 0,
    ensures
        r == next_stake_time(staked, last, lock, amount, now),
        0 <= r,
{
    let unlock: i64 = match last.checked_add(lock) {
        Some(v) => v,
        None => i64::MAX,
    };
    let rem: i64 = if unlock > now {
        unlock - now
    } else {
        0
    };
    proof {
        vstd::arithmetic::mul::lemma_mul_upper_bound(
            staked as int,
            u64::MAX as int,
            rem as int,
            i64::MAX as int,
        );
        vstd::arithmetic::mul::lemma_mul_upper_bound(
            amount as int,
            u64::MAX as int,
            lock as int,
            i64::MAX as int,
        );
        if rem <= lock {
            crate::arith::lemma_weighted_avg_bounds(
                staked as int,
                rem as int,
                amount as int,
                lock as int,
                rem as int,
                lock as int,
            );
        } else {
            crate::arith::lemma_weighted_avg_bounds(
                staked as int,
                rem as int,
                amount as int,
                lock as int,
                lock as int,
                rem as int,
            );
        }
    }
    let old_weight: u128 = (staked as u128) * (rem as u128);
    let new_weight: u128 = (amount as u128) * (lock as u128);
    let total_amount: u128 = staked as u128 + amount as u128;
    let weighted: u128 = (old_weight + new_weight) / total_amount;
    let weighted_i: i64 = weighted as i64;
    match now.checked_sub(lock - weighted_i) {
        Some(v) => v,
        None => now,
    }
}

/// Deposits `amount` into the position.
///
/// The pool and position are settled first, so reward accrues on the old
/// principal only. A first deposit with a referrer key links the referral
/// chain, walking the supplied position records up to three tiers and
/// freezing the result forever; the chain, once set, never changes again.
/// Every deposit then counts toward each verified tier's active stake, the
/// pool's total grows, and the position is re-locked around the stake-weighted
/// effective deposit time. On any error nothing is changed.
pub fn stake_with_referral(
    pool: &mut StakingPool,
    user_stake: &mut UserStake,
    user: &AccountId,
    pool_key: &AccountId,
    amount: u64,
    referrer: Option<AccountId>,
    ctx: ReferralCtx,
    program_id: &AccountId,
    now: i64,
) -> (r: Result<StakeEffects, StakingError>)
    requires
        old(pool).wf(),
        old(user_stake).wf(),
        0 <= now,
        old(user_stake).reward_per_token_paid <= old(pool).reward_per_token_stored,
    ensures
        r is Err <==> stake_error(
            *old(pool),
            *old(user_stake),
            *user,
            *pool_key,
            amount,
            referrer,
            ctx,
            *program_id,
            now,
        ) is Some,
        r matches Err(e) ==> Some(e) == stake_error(
            *old(pool),
            *old(user_stake),
            *user,
            *pool_key,
            amount,
            referrer,
            ctx,
            *program_id,
            now,
        ),
        r is Err ==> *final(pool) == *old(pool) && *final(user_stake) == *old(user_stake),
        r matches Ok(eff) ==> {
            let linking = link_attempt(*old(pool), *old(user_stake), referrer);
            let chain = chain_after(
                *old(pool),
                *old(user_stake),
                referrer,
                ctx,
                *pool_key,
                *program_id,
            );
            let slot1 = l1_slot_after_link(linking, ctx.referrer_stats);
            let su = settled_user(*old(pool), *old(user_stake), now);
            &&& eff.transfer_amount == amount
            &&& eff.new_referral == linking
            &&& *final(pool) == (StakingPool {
                total_staked: (old(pool).total_staked + amount) as u64,
                ..settled_pool(*old(pool), now)
            })
            &&& final(user_stake).staked_amount == old(user_stake).staked_amount + amount
            &&& final(user_stake).reward_pending == su.reward_pending
            &&& final(user_stake).reward_per_token_paid == su.reward_per_token_paid
            &&& final(user_stake).total_earned == old(user_stake).total_earned
            &&& final(user_stake).last_stake_time == next_stake_time(
                old(user_stake).staked_amount,
                old(user_stake).last_stake_time,
                old(pool).lock_duration,
                amount,
                now,
            )
            &&& (final(user_stake).referrer, final(user_stake).referrer_l2,
                final(user_stake).referrer_l3) == chain
            &&& final(user_stake).user == (if old(user_stake).user@ == zero_key() {
                *user
            } else {
                old(user_stake).user
            })
            &&& final(user_stake).pool == (if old(user_stake).user@ == zero_key() {
                *pool_key
            } else {
                old(user_stake).pool
            })
            &&& eff.referrer_stats == stake_l1_out(
                old(pool).referral_enabled,
                chain.0,
                slot1,
                *program_id,
                amount,
            )
            &&& eff.referrer_stats_l2 == stake_l2_out(
                old(pool).referral_enabled,
                chain.1,
                ctx.referrer_stats_l2,
                *program_id,
                amount,
            )
            &&& eff.referrer_stats_l3 == stake_l3_out(
                old(pool).referral_enabled,
                chain.2,
                ctx.referrer_stats_l3,
                *program_id,
                amount,
            )
        },
        // a chain once established never changes, whatever upstream does later
        r is Ok && old(user_stake).referrer is Some ==> final(user_stake).referrer
            == old(user_stake).referrer && final(user_stake).referrer_l2
            == old(user_stake).referrer_l2 && final(user_stake).referrer_l3
            == old(user_stake).referrer_l3,
        final(pool).wf(),
        final(user_stake).wf(),
        final(user_stake).reward_per_token_paid <= final(pool).reward_per_token_stored,
        old(user_stake).staked_amount <= old(pool).total_staked
            ==> final(user_stake).staked_amount <= final(pool).total_staked,
{
    if pool.paused {
        return Err(StakingError::PoolPaused);
    }
    if amount == 0 {
        return Err(StakingError::ZeroAmount);
    }
    if amount < pool.min_stake_amount {
        return Err(StakingError::BelowMinimumStake);
    }
    let mut p = *pool;
    let mut u = *user_stake;
    match update_rewards_optimized(&mut p, &mut u, now) {
        Ok(()) => (),
        Err(e) => {
            return Err(e);
        },
    }
    let zid = zero_id();
    if same_id(&u.user, &zid) {
        u.user = *user;
        u.pool = *pool_key;
    }
    let mut new_referral: bool = false;
    let mut slot1: Option<StatsRecord> = ctx.referrer_stats;
    if p.referral_enabled && u.referrer.is_none() {
        match referrer {
            Some(rk) => {
                if same_id(&rk, user) {
                    return Err(StakingError::SelfReferral);
                }
                u.referrer = Some(rk);
                new_referral = true;
                match slot1 {
                    Some(s) => {
                        if !verify_stats_address(&s.address, &rk, program_id) {
                            return Err(StakingError::InvalidReferrerAccount);
                        }
                        let count = match s.stats.total_referrals.checked_add(1) {
                            Some(v) => v,
                            None => {
                                return Err(StakingError::MathOverflow);
                            },
                        };
                        slot1 = Some(
                            StatsRecord {
                                address: s.address,
                                stats: ReferrerStats { total_referrals: count, ..s.stats },
                            },
                        );
                    },
                    None => (),
                }
                match ctx.referrer_user_stake {
                    Some(rs) => {
                        if !verify_stake_address(&rs.address, &rk, pool_key, program_id) {
                            return Err(StakingError::InvalidReferrerAccount);
                        }
                        match rs.stake.referrer {
                            Some(k2) => {
                                u.referrer_l2 = Some(k2);
                                match ctx.l2_user_stake {
                                    Some(ls) => {
                                        if !verify_stake_address(
                                            &ls.address,
                                            &k2,
                                            pool_key,
                                            program_id,
                                        ) {
                                            return Err(StakingError::InvalidReferrerAccount);
                                        }
                                        match ls.stake.referrer {
                                            Some(k3) => {
                                                u.referrer_l3 = Some(k3);
                                            },
                                            None => (),
                                        }
                                    },
                                    None => (),
                                }
                            },
                            None => (),
                        }
                    },
                    None => (),
                }
            },
            None => (),
        }
    }
    let out_l1 = match credit_stake_l1(p.referral_enabled, &u.referrer, slot1, program_id, amount) {
        Ok(v) => v,
        Err(e) => {
            return Err(e);
        },
    };
    let out_l2 = match credit_stake_l2(
        p.referral_enabled,
        &u.referrer_l2,
        ctx.referrer_stats_l2,
        program_id,
        amount,
    ) {
        Ok(v) => v,
        Err(e) => {
            return Err(e);
        },
    };
    let out_l3 = match credit_stake_l3(
        p.referral_enabled,
        &u.referrer_l3,
        ctx.referrer_stats_l3,
        program_id,
        amount,
    ) {
        Ok(v) => v,
        Err(e) => {
            return Err(e);
        },
    };
    p.total_staked = match p.total_staked.checked_add(amount) {
        Some(v) => v,
        None => {
            return Err(StakingError::MathOverflow);
        },
    };
    let new_last: i64 = if u.staked_amount > 0 {
        weighted_stake_time(u.staked_amount, u.last_stake_time, p.lock_duration, amount, now)
    } else {
        now
    };
    u.staked_amount = match u.staked_amount.checked_add(amount) {
        Some(v) => v,
        None => {
            return Err(StakingError::MathOverflow);
        },
    };
    u.last_stake_time = new_last;
    *pool = p;
    *user_stake = u;
    Ok(
        StakeEffects {
            transfer_amount: amount,
            new_referral,
            referrer_stats: out_l1,
            referrer_stats_l2: out_l2,
            referrer_stats_l3: out_l3,
        },
    )
}

} // verus!
