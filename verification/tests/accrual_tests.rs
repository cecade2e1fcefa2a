use staking_referral::accrual::update_rewards_optimized;
use staking_referral::admin::initialize;
use staking_referral::errors::StakingError;
use staking_referral::ids::AccountId;
use staking_referral::state::{StakingPool, UserStake};

fn id(n: u8) -> AccountId {
    AccountId { bytes: [n; 32] }
}

fn fresh_pool(reward_rate: u64, now: i64) -> StakingPool {
    initialize(id(1), id(2), id(3), id(4), id(5), 255, reward_rate, true, now)
}

fn fresh_user() -> UserStake {
    UserStake::default()
}

#[test]
fn settle_accrues_exact_reward() {
    let mut pool = fresh_pool(10, 0);
    pool.total_staked = 100;
    let mut user = fresh_user();
    user.staked_amount = 100;
    let r = update_rewards_optimized(&mut pool, &mut user, 100);
    assert_eq!(r, Ok(()));
    // 10 reward units per second over 100 seconds, spread over 100 staked units
    assert_eq!(pool.reward_per_token_stored, 10_000_000_000);
    assert_eq!(pool.last_update_time, 100);
    assert_eq!(user.reward_pending, 1000);
    assert_eq!(user.reward_per_token_paid, 10_000_000_000);
}

#[test]
fn settle_twice_at_same_instant_is_idempotent() {
    let mut pool = fresh_pool(10, 0);
    pool.total_staked = 100;
    let mut user = fresh_user();
    user.staked_amount = 100;
    assert_eq!(update_rewards_optimized(&mut pool, &mut user, 100), Ok(()));
    let pool_once = pool;
    let user_once = user;
    assert_eq!(update_rewards_optimized(&mut pool, &mut user, 100), Ok(()));
    assert_eq!(pool, pool_once);
    assert_eq!(user, user_once);
    assert_eq!(user.reward_pending, 1000);
    assert_eq!(pool.reward_per_token_stored, 10_000_000_000);
}

#[test]
fn settle_with_empty_pool_only_advances_clock() {
    let mut pool = fresh_pool(10, 0);
    let mut user = fresh_user();
    let before = user;
    assert_eq!(update_rewards_optimized(&mut pool, &mut user, 500), Ok(()));
    assert_eq!(pool.last_update_time, 500);
    assert_eq!(pool.reward_per_token_stored, 0);
    assert_eq!(user, before);
}

#[test]
fn settle_clamps_backward_clock_to_zero_elapsed() {
    let mut pool = fresh_pool(10, 200);
    pool.total_staked = 10;
    pool.reward_per_token_stored = 5_000_000_000;
    let mut user = fresh_user();
    user.staked_amount = 10;
    // the clock reads earlier than the last settlement: no accrual, but the
    // checkpoint still catches up to the stored accumulator
    assert_eq!(update_rewards_optimized(&mut pool, &mut user, 100), Ok(()));
    assert_eq!(pool.reward_per_token_stored, 5_000_000_000);
    assert_eq!(pool.last_update_time, 200);
    assert_eq!(user.reward_pending, 50);
    assert_eq!(user.reward_per_token_paid, 5_000_000_000);
}

#[test]
fn settle_surfaces_overflow_and_changes_nothing() {
    let mut pool = fresh_pool(u64::MAX, 0);
    pool.total_staked = 1;
    let mut user = fresh_user();
    user.staked_amount = 1;
    let pool_before = pool;
    let user_before = user;
    let r = update_rewards_optimized(&mut pool, &mut user, i64::MAX);
    assert_eq!(r, Err(StakingError::MathOverflow));
    assert_eq!(pool, pool_before);
    assert_eq!(user, user_before);
}

#[test]
fn default_position_is_zero_valued() {
    let user = UserStake::default();
    assert_eq!(user.user, AccountId { bytes: [0; 32] });
    assert_eq!(user.pool, AccountId { bytes: [0; 32] });
    assert_eq!(user.staked_amount, 0);
    assert_eq!(user.reward_per_token_paid, 0);
    assert_eq!(user.reward_pending, 0);
    assert_eq!(user.last_stake_time, 0);
    assert_eq!(user.referrer, None);
    assert_eq!(user.referrer_l2, None);
    assert_eq!(user.referrer_l3, None);
    assert_eq!(user.total_earned, 0);
}
