use vstd::prelude::*;

use crate::ids::{zero_key, AccountId};

verus! {

/// Reward amounts per unit stake are fixed-point numbers scaled by this
/// factor, so that slow accrual is not truncated away.
pub const PRECISION: u128 = 1_000_000_000;

/// Rates are basis points: fractions of this denominator.
pub const BASIS_POINTS: u16 = 10000;

/// The three referral rates may sum to at most this many basis points.
pub const MAX_REFERRAL_BPS: u16 = 2500;

/// One staking pool: the reward accumulator, the aggregate stake, and the
/// configuration that the administrative surface maintains.
#[derive(Clone, Copy, Debug, PartialEq, Eq)]
pub struct StakingPool {
    pub authority: AccountId,
    pub token_mint: AccountId,
    pub reward_mint: AccountId,
    pub staking_vault: AccountId,
    pub reward_vault: AccountId,
    pub fee_receiver: AccountId,
    /// Cumulative reward per staked unit, scaled by `PRECISION`. It never
    /// decreases while the pool exists.
    pub reward_per_token_stored: u128,
    /// Reward units emitted per second, pool-wide.
    pub reward_rate: u64,
    /// Sum of all positions' `staked_amount`.
    pub total_staked: u64,
    pub fee_stake: u64,
    pub fee_unstake: u64,
    pub fee_claim: u64,
    pub min_stake_amount: u64,
    /// When the accumulator was last settled, in seconds.
    pub last_update_time: i64,
    /// How long a deposit stays locked, in seconds.
    pub lock_duration: i64,
    pub referral_l1_bps: u16,
    pub referral_l2_bps: u16,
    pub referral_l3_bps: u16,
    pub referral_enabled: bool,
    pub paused: bool,
    pub bump: u8,
}

impl StakingPool {
    /// What every pool record satisfies: timestamps and durations are
    /// non-negative seconds, and the referral rates respect their cap.
    pub open spec fn wf(self) -> bool {
        &&& 0 <= self.last_update_time
        &&& 0 <= self.lock_duration
        &&& self.referral_l1_bps + self.referral_l2_bps + self.referral_l3_bps
            <= MAX_REFERRAL_BPS
    }
}

/// One user's position within one pool.
#[derive(Clone, Copy, Debug, PartialEq, Eq)]
pub struct UserStake {
    pub user: AccountId,
    pub pool: AccountId,
    /// Current principal.
    pub staked_amount: u64,
    /// The pool accumulator value this position last observed.
    pub reward_per_token_paid: u128,
    /// Accrued but unclaimed reward.
    pub reward_pending: u64,
    /// The effective deposit time that gates unlocking: a stake-weighted
    /// average over top-ups, not the literal time of the last deposit.
    pub last_stake_time: i64,
    /// Direct referrer, set at most once and then frozen.
    pub referrer: Option<AccountId>,
    /// The referrer's own referrer, captured at link time and then frozen.
    pub referrer_l2: Option<AccountId>,
    /// The second-level referrer's referrer, captured at link time and frozen.
    pub referrer_l3: Option<AccountId>,
    /// Lifetime claimed reward.
    pub total_earned: u64,
}

impl UserStake {
    /// What every position record satisfies: its effective deposit time is a
    /// non-negative timestamp, and the referral chain has no gaps — a deeper
    /// tier is only ever set below a shallower one.
    pub open spec fn wf(self) -> bool {
        &&& 0 <= self.last_stake_time
        &&& (self.referrer is None ==> self.referrer_l2 is None)
        &&& (self.referrer_l2 is None ==> self.referrer_l3 is None)
    }
}

impl Default for UserStake {
    /// The zero-valued position a user implicitly owns before their first
    /// deposit.
    fn default() -> (r: UserStake)
        ensures
            r.user@ == zero_key(),
            r.pool@ == zero_key(),
            r.staked_amount == 0,
            r.reward_per_token_paid == 0,
            r.reward_pending == 0,
            r.last_stake_time == 0,
            r.referrer is None,
            r.referrer_l2 is None,
            r.referrer_l3 is None,
            r.total_earned == 0,
            r.wf(),
    {
        let user = crate::ids::zero_id();
        let pool = crate::ids::zero_id();
        UserStake {
            user,
            pool,
            staked_amount: 0,
            reward_per_token_paid: 0,
            reward_pending: 0,
            last_stake_time: 0,
            referrer: None,
            referrer_l2: None,
            referrer_l3: None,
            total_earned: 0,
        }
    }
}

/// Aggregate statistics for one referrer, kept whether or not they stake.
#[derive(Clone, Copy, Debug, PartialEq, Eq)]
pub struct ReferrerStats {
    pub referrer: AccountId,
    /// Count of direct downstream users linked to this referrer.
    pub total_referrals: u64,
    /// Lifetime commission accrued across all tiers.
    pub total_commission_earned: u64,
    /// Claimable commission balance.
    pub pending_rewards: u64,
    /// Lifetime sum of direct downstream deposits; never decremented.
    pub volume_referred: u64,
    /// Currently staked principal of downstream users, by tier.
    pub active_stake_l1: u64,
    pub active_stake_l2: u64,
    pub active_stake_l3: u64,
}

/// A referrer-stats record together with the address it was supplied at.
/// The address is verified against the derived address for the claimed
/// referrer before the record is trusted or mutated.
#[derive(Clone, Copy, Debug, PartialEq, Eq)]
pub struct StatsRecord {
    pub address: AccountId,
    pub stats: ReferrerStats,
}

/// A position record together with the address it was supplied at, used to
/// walk the referral graph when a user first links.
#[derive(Clone, Copy, Debug, PartialEq, Eq)]
pub struct StakeRecord {
    pub address: AccountId,
    pub stake: UserStake,
}

} // verus!
