use staking_referral::admin::{initialize, initialize_referrer_stats};
use staking_referral::errors::StakingError;
use staking_referral::ids::AccountId;
use staking_referral::stake::{stake_with_referral, ReferralCtx};
use staking_referral::state::{StakeRecord, StakingPool, StatsRecord, UserStake};

fn id(n: u8) -> AccountId {
    AccountId { bytes: [n; 32] }
}

fn stats_addr(referrer: &AccountId, program_id: &AccountId) -> AccountId {
    let pid = anchor_lang::prelude::Pubkey::new_from_array(program_id.bytes);
    let (pk, _bump) = anchor_lang::prelude::Pubkey::find_program_address(
        &[b"referrer_stats", &referrer.bytes],
        &pid,
    );
    AccountId { bytes: pk.to_bytes() }
}

fn stake_addr(user: &AccountId, pool: &AccountId, program_id: &AccountId) -> AccountId {
    let pid = anchor_lang::prelude::Pubkey::new_from_array(program_id.bytes);
    let (pk, _bump) = anchor_lang::prelude::Pubkey::find_program_address(
        &[b"user_stake", &user.bytes, &pool.bytes],
        &pid,
    );
    AccountId { bytes: pk.to_bytes() }
}

fn no_ctx() -> ReferralCtx {
    ReferralCtx {
        referrer_stats: None,
        referrer_user_stake: None,
        referrer_stats_l2: None,
        l2_user_stake: None,
        referrer_stats_l3: None,
    }
}

fn fresh_pool(now: i64) -> StakingPool {
    let mut pool = initialize(id(1), id(2), id(3), id(4), id(5), 255, 10, true, now);
    pool.min_stake_amount = 1;
    pool
}

#[test]
fn first_stake_opens_the_position() {
    let mut pool = fresh_pool(0);
    let mut user = UserStake::default();
    let user_key = id(10);
    let pool_key = id(11);
    let pid = id(9);
    let r = stake_with_referral(
        &mut pool, &mut user, &user_key, &pool_key, 500, None, no_ctx(), &pid, 1000,
    );
    let eff = r.unwrap();
    assert_eq!(eff.transfer_amount, 500);
    assert!(!eff.new_referral);
    assert_eq!(pool.total_staked, 500);
    assert_eq!(user.staked_amount, 500);
    assert_eq!(user.last_stake_time, 1000);
    assert_eq!(user.user, user_key);
    assert_eq!(user.pool, pool_key);
    assert_eq!(user.referrer, None);
}

#[test]
fn topup_relocks_by_stake_weighted_average() {
    let mut pool = fresh_pool(0);
    let mut user = UserStake::default();
    let user_key = id(10);
    let pool_key = id(11);
    let pid = id(9);
    // first deposit of 100 at time zero under the thirty-day (2592000 s) lock
    stake_with_referral(&mut pool, &mut user, &user_key, &pool_key, 100, None, no_ctx(), &pid, 0)
        .unwrap();
    assert_eq!(user.last_stake_time, 0);
    // half the lock elapses, then an equal top-up arrives: the remaining lock
    // becomes (100 * 1296000 + 100 * 2592000) / 200 = 1944000 s (22.5 days)
    stake_with_referral(
        &mut pool, &mut user, &user_key, &pool_key, 100, None, no_ctx(), &pid, 1_296_000,
    )
    .unwrap();
    assert_eq!(user.last_stake_time, 648_000);
    assert_eq!(user.last_stake_time + pool.lock_duration - 1_296_000, 1_944_000);
    assert_eq!(user.staked_amount, 200);
    assert_eq!(pool.total_staked, 200);
}

#[test]
fn stake_rejects_paused_zero_and_dust() {
    let mut pool = fresh_pool(0);
    pool.min_stake_amount = 1000;
    let mut user = UserStake::default();
    let user_key = id(10);
    let pool_key = id(11);
    let pid = id(9);
    pool.paused = true;
    let r = stake_with_referral(
        &mut pool, &mut user, &user_key, &pool_key, 5000, None, no_ctx(), &pid, 0,
    );
    assert_eq!(r.err(), Some(StakingError::PoolPaused));
    pool.paused = false;
    let r = stake_with_referral(
        &mut pool, &mut user, &user_key, &pool_key, 0, None, no_ctx(), &pid, 0,
    );
    assert_eq!(r.err(), Some(StakingError::ZeroAmount));
    let r = stake_with_referral(
        &mut pool, &mut user, &user_key, &pool_key, 999, None, no_ctx(), &pid, 0,
    );
    assert_eq!(r.err(), Some(StakingError::BelowMinimumStake));
    assert_eq!(pool.total_staked, 0);
    assert_eq!(user.staked_amount, 0);
}

#[test]
fn stake_rejects_self_referral() {
    let mut pool = fresh_pool(0);
    let mut user = UserStake::default();
    let user_key = id(10);
    let pool_key = id(11);
    let pid = id(9);
    let r = stake_with_referral(
        &mut pool, &mut user, &user_key, &pool_key, 500, Some(user_key), no_ctx(), &pid, 0,
    );
    assert_eq!(r.err(), Some(StakingError::SelfReferral));
    assert_eq!(user.referrer, None);
    assert_eq!(pool.total_staked, 0);
}

#[test]
fn first_link_walks_three_tiers_and_counts_only_the_first() {
    let mut pool = fresh_pool(0);
    let mut user = UserStake::default();
    let user_key = id(10);
    let pool_key = id(11);
    let pid = id(9);
    let r_key = id(20);
    let x_key = id(21);
    let y_key = id(22);
    // the referrer's own position names X; X's position names Y
    let mut r_stake = UserStake::default();
    r_stake.referrer = Some(x_key);
    let mut x_stake = UserStake::default();
    x_stake.referrer = Some(y_key);
    let ctx = ReferralCtx {
        referrer_stats: Some(StatsRecord {
            address: stats_addr(&r_key, &pid),
            stats: initialize_referrer_stats(r_key),
        }),
        referrer_user_stake: Some(StakeRecord {
            address: stake_addr(&r_key, &pool_key, &pid),
            stake: r_stake,
        }),
        referrer_stats_l2: Some(StatsRecord {
            address: stats_addr(&x_key, &pid),
            stats: initialize_referrer_stats(x_key),
        }),
        l2_user_stake: Some(StakeRecord {
            address: stake_addr(&x_key, &pool_key, &pid),
            stake: x_stake,
        }),
        referrer_stats_l3: Some(StatsRecord {
            address: stats_addr(&y_key, &pid),
            stats: initialize_referrer_stats(y_key),
        }),
    };
    let eff = stake_with_referral(
        &mut pool, &mut user, &user_key, &pool_key, 700, Some(r_key), ctx, &pid, 0,
    )
    .unwrap();
    assert!(eff.new_referral);
    assert_eq!(user.referrer, Some(r_key));
    assert_eq!(user.referrer_l2, Some(x_key));
    assert_eq!(user.referrer_l3, Some(y_key));
    let l1 = eff.referrer_stats.unwrap().stats;
    // only the direct referrer gains a referral count
    assert_eq!(l1.total_referrals, 1);
    assert_eq!(l1.active_stake_l1, 700);
    assert_eq!(l1.volume_referred, 700);
    let l2 = eff.referrer_stats_l2.unwrap().stats;
    assert_eq!(l2.total_referrals, 0);
    assert_eq!(l2.active_stake_l2, 700);
    assert_eq!(l2.volume_referred, 0);
    let l3 = eff.referrer_stats_l3.unwrap().stats;
    assert_eq!(l3.total_referrals, 0);
    assert_eq!(l3.active_stake_l3, 700);
}

#[test]
fn link_rejects_stats_record_at_wrong_address() {
    let mut pool = fresh_pool(0);
    let mut user = UserStake::default();
    let user_key = id(10);
    let pool_key = id(11);
    let pid = id(9);
    let r_key = id(20);
    let mut ctx = no_ctx();
    ctx.referrer_stats = Some(StatsRecord {
        address: id(99),  // not the derived address
        stats: initialize_referrer_stats(r_key),
    });
    let r = stake_with_referral(
        &mut pool, &mut user, &user_key, &pool_key, 700, Some(r_key), ctx, &pid, 0,
    );
    assert_eq!(r.err(), Some(StakingError::InvalidReferrerAccount));
    assert_eq!(user.referrer, None);
    assert_eq!(pool.total_staked, 0);
}

#[test]
fn topup_ignores_stats_record_at_wrong_address() {
    let mut pool = fresh_pool(0);
    let mut user = UserStake::default();
    let user_key = id(10);
    let pool_key = id(11);
    let pid = id(9);
    let r_key = id(20);
    user.referrer = Some(r_key);
    let forged = StatsRecord { address: id(99), stats: initialize_referrer_stats(r_key) };
    let mut ctx = no_ctx();
    ctx.referrer_stats = Some(forged);
    let eff = stake_with_referral(
        &mut pool, &mut user, &user_key, &pool_key, 700, None, ctx, &pid, 0,
    )
    .unwrap();
    // the deposit goes through; the unverified record is passed back untouched
    assert_eq!(eff.referrer_stats, Some(forged));
    assert_eq!(user.staked_amount, 700);
}

#[test]
fn chain_is_frozen_against_later_upstream_links() {
    let mut pool = fresh_pool(0);
    let user_key = id(10);
    let pool_key = id(11);
    let pid = id(9);
    let r_key = id(20);
    let x_key = id(21);
    // the user links to R while R itself has no referrer yet
    let mut user = UserStake::default();
    let ctx = ReferralCtx {
        referrer_stats: None,
        referrer_user_stake: Some(StakeRecord {
            address: stake_addr(&r_key, &pool_key, &pid),
            stake: UserStake::default(),
        }),
        referrer_stats_l2: None,
        l2_user_stake: None,
        referrer_stats_l3: None,
    };
    stake_with_referral(&mut pool, &mut user, &user_key, &pool_key, 100, Some(r_key), ctx, &pid, 0)
        .unwrap();
    assert_eq!(user.referrer, Some(r_key));
    assert_eq!(user.referrer_l2, None);
    // R later links X; the user's next deposit sees R's new position record,
    // but the user's own chain does not move
    let mut r_stake_now = UserStake::default();
    r_stake_now.referrer = Some(x_key);
    let ctx = ReferralCtx {
        referrer_stats: None,
        referrer_user_stake: Some(StakeRecord {
            address: stake_addr(&r_key, &pool_key, &pid),
            stake: r_stake_now,
        }),
        referrer_stats_l2: None,
        l2_user_stake: None,
        referrer_stats_l3: None,
    };
    stake_with_referral(
        &mut pool, &mut user, &user_key, &pool_key, 100, Some(r_key), ctx, &pid, 10,
    )
    .unwrap();
    assert_eq!(user.referrer, Some(r_key));
    assert_eq!(user.referrer_l2, None);
    assert_eq!(user.referrer_l3, None);
}

#[test]
fn every_topup_credits_active_stake() {
    let mut pool = fresh_pool(0);
    let mut user = UserStake::default();
    let user_key = id(10);
    let pool_key = id(11);
    let pid = id(9);
    let r_key = id(20);
    user.referrer = Some(r_key);
    let mut stats = initialize_referrer_stats(r_key);
    stats.active_stake_l1 = 300;
    stats.volume_referred = 1000;
    stats.total_referrals = 1;
    let mut ctx = no_ctx();
    ctx.referrer_stats = Some(StatsRecord { address: stats_addr(&r_key, &pid), stats });
    let eff = stake_with_referral(
        &mut pool, &mut user, &user_key, &pool_key, 200, None, ctx, &pid, 0,
    )
    .unwrap();
    assert!(!eff.new_referral);
    let l1 = eff.referrer_stats.unwrap().stats;
    assert_eq!(l1.active_stake_l1, 500);
    assert_eq!(l1.volume_referred, 1200);
    // no fresh link: the referral count stays
    assert_eq!(l1.total_referrals, 1);
}

#[test]
fn link_rejects_referrer_position_at_wrong_address() {
    let mut pool = fresh_pool(0);
    let mut user = UserStake::default();
    let user_key = id(10);
    let pool_key = id(11);
    let pid = id(9);
    let r_key = id(20);
    let mut ctx = no_ctx();
    ctx.referrer_user_stake = Some(StakeRecord { address: id(98), stake: UserStake::default() });
    let r = stake_with_referral(
        &mut pool, &mut user, &user_key, &pool_key, 700, Some(r_key), ctx, &pid, 0,
    );
    assert_eq!(r.err(), Some(StakingError::InvalidReferrerAccount));
    assert_eq!(user.referrer, None);
}

#[test]
fn link_surfaces_referral_counter_overflow() {
    let mut pool = fresh_pool(0);
    let mut user = UserStake::default();
    let user_key = id(10);
    let pool_key = id(11);
    let pid = id(9);
    let r_key = id(20);
    let mut stats = initialize_referrer_stats(r_key);
    stats.total_referrals = u64::MAX;
    let mut ctx = no_ctx();
    ctx.referrer_stats = Some(StatsRecord { address: stats_addr(&r_key, &pid), stats });
    let r = stake_with_referral(
        &mut pool, &mut user, &user_key, &pool_key, 700, Some(r_key), ctx, &pid, 0,
    );
    assert_eq!(r.err(), Some(StakingError::MathOverflow));
    assert_eq!(user.referrer, None);
    assert_eq!(pool.total_staked, 0);
}
