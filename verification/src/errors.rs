use vstd::prelude::*;

verus! {

/// Why an operation was refused. Every failure is fatal to the current
/// operation: the caller must apply either all of an operation's record
/// updates or none of them, and each function here guarantees that its
/// `&mut` arguments are untouched when it returns an error.
#[derive(Clone, Copy, Debug, PartialEq, Eq)]
pub enum StakingError {
    /// The amount of a deposit or withdrawal was zero.
    ZeroAmount,
    /// The pool's `paused` flag is set.
    PoolPaused,
    /// A user supplied their own key as their referrer.
    SelfReferral,
    /// A checked addition, subtraction or multiplication would wrap.
    MathOverflow,
    /// A withdrawal asked for more than the position holds.
    InsufficientStakedAmount,
    /// The position's weighted lock has not yet expired.
    MinimumStakePeriodNotMet,
    /// The position's settled pending reward, or the referrer's pending
    /// commission balance, is zero.
    NoRewardsToClaim,
    /// A supplied referrer record does not sit at the address derived for it.
    InvalidReferrerAccount,
    /// The deposit is below the pool's minimum stake.
    BelowMinimumStake,
    /// The three referral rates sum to more than 2500 basis points.
    ReferralRatesExceedMax,
}

} // verus!
