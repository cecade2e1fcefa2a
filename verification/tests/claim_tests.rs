use staking_referral::admin::{initialize, initialize_referrer_stats};
use staking_referral::claim::{claim_referral_rewards, claim_rewards};
use staking_referral::errors::StakingError;
use staking_referral::ids::AccountId;
use staking_referral::state::{StakingPool, StatsRecord, UserStake};

fn id(n: u8) -> AccountId {
    AccountId { bytes: [n; 32] }
}

fn stats_addr(referrer: &AccountId, program_id: &AccountId) -> AccountId {
    let pid = anchor_lang::prelude::Pubkey::new_from_array(program_id.bytes);
    let (pk, _bump) = anchor_lang::prelude::Pubkey::find_program_address(
        &[b"referrer_stats", &referrer.bytes],
        &pid,
    );
    AccountId { bytes: pk.to_bytes() }
}

fn fresh_pool() -> StakingPool {
    initialize(id(1), id(2), id(3), id(4), id(5), 255, 10, true, 0)
}

fn linked_user(pending: u64) -> UserStake {
    let mut user = UserStake::default();
    user.reward_pending = pending;
    user.referrer = Some(id(20));
    user.referrer_l2 = Some(id(21));
    user.referrer_l3 = Some(id(22));
    user
}

#[test]
fn claim_distributes_tier_commissions_without_cutting_the_payout() {
    let mut pool = fresh_pool();
    let mut user = linked_user(1000);
    let pid = id(9);
    // the default rates are 1000/500/300 basis points
    let l1 = StatsRecord {
        address: stats_addr(&id(20), &pid),
        stats: initialize_referrer_stats(id(20)),
    };
    let l2 = StatsRecord {
        address: stats_addr(&id(21), &pid),
        stats: initialize_referrer_stats(id(21)),
    };
    let l3 = StatsRecord {
        address: stats_addr(&id(22), &pid),
        stats: initialize_referrer_stats(id(22)),
    };
    let eff = claim_rewards(&mut pool, &mut user, Some(l1), Some(l2), Some(l3), &pid, 0).unwrap();
    // the claimant receives the full reward, uncut
    assert_eq!(eff.transfer_amount, 1000);
    assert_eq!(user.reward_pending, 0);
    assert_eq!(user.total_earned, 1000);
    let s1 = eff.referrer_stats_l1.unwrap().stats;
    let s2 = eff.referrer_stats_l2.unwrap().stats;
    let s3 = eff.referrer_stats_l3.unwrap().stats;
    assert_eq!(s1.pending_rewards, 100);
    assert_eq!(s1.total_commission_earned, 100);
    assert_eq!(s2.pending_rewards, 50);
    assert_eq!(s2.total_commission_earned, 50);
    assert_eq!(s3.pending_rewards, 30);
    assert_eq!(s3.total_commission_earned, 30);
    // the three bonuses sum to 18% of the reward, on top of it
    assert_eq!(s1.pending_rewards + s2.pending_rewards + s3.pending_rewards, 180);
}

#[test]
fn second_claim_with_nothing_pending_is_refused() {
    let mut pool = fresh_pool();
    let mut user = linked_user(1000);
    let pid = id(9);
    let eff = claim_rewards(&mut pool, &mut user, None, None, None, &pid, 0).unwrap();
    assert_eq!(eff.transfer_amount, 1000);
    let r = claim_rewards(&mut pool, &mut user, None, None, None, &pid, 0);
    assert_eq!(r.err(), Some(StakingError::NoRewardsToClaim));
    assert_eq!(user.total_earned, 1000);
}

#[test]
fn claim_ignores_tier_record_at_wrong_address() {
    let mut pool = fresh_pool();
    let mut user = linked_user(1000);
    let pid = id(9);
    let forged = StatsRecord { address: id(99), stats: initialize_referrer_stats(id(20)) };
    let honest = StatsRecord {
        address: stats_addr(&id(21), &pid),
        stats: initialize_referrer_stats(id(21)),
    };
    let eff =
        claim_rewards(&mut pool, &mut user, Some(forged), Some(honest), None, &pid, 0).unwrap();
    // the claim still goes through in full
    assert_eq!(eff.transfer_amount, 1000);
    // the forged record earns nothing and comes back untouched
    assert_eq!(eff.referrer_stats_l1, Some(forged));
    // the verified tier is still credited independently
    assert_eq!(eff.referrer_stats_l2.unwrap().stats.pending_rewards, 50);
}

#[test]
fn claim_rejects_paused_pool() {
    let mut pool = fresh_pool();
    pool.paused = true;
    let mut user = linked_user(1000);
    let r = claim_rewards(&mut pool, &mut user, None, None, None, &id(9), 0);
    assert_eq!(r.err(), Some(StakingError::PoolPaused));
    assert_eq!(user.reward_pending, 1000);
}

#[test]
fn disabled_referrals_earn_no_commission() {
    let mut pool = fresh_pool();
    pool.referral_enabled = false;
    let mut user = linked_user(1000);
    let pid = id(9);
    let l1 = StatsRecord {
        address: stats_addr(&id(20), &pid),
        stats: initialize_referrer_stats(id(20)),
    };
    let eff = claim_rewards(&mut pool, &mut user, Some(l1), None, None, &pid, 0).unwrap();
    assert_eq!(eff.transfer_amount, 1000);
    assert_eq!(eff.referrer_stats_l1, Some(l1));
}

#[test]
fn referrer_claims_pending_commission_once() {
    let mut stats = initialize_referrer_stats(id(20));
    stats.pending_rewards = 70;
    stats.total_commission_earned = 70;
    let r = claim_referral_rewards(&mut stats);
    assert_eq!(r, Ok(70));
    assert_eq!(stats.pending_rewards, 0);
    assert_eq!(stats.total_commission_earned, 70);
    let r = claim_referral_rewards(&mut stats);
    assert_eq!(r.err(), Some(StakingError::NoRewardsToClaim));
}

#[test]
fn claim_surfaces_commission_counter_overflow() {
    let mut pool = fresh_pool();
    let mut user = linked_user(1000);
    let pid = id(9);
    let mut stats = initialize_referrer_stats(id(20));
    stats.pending_rewards = u64::MAX;
    let slot = StatsRecord { address: stats_addr(&id(20), &pid), stats };
    let user_before = user;
    let r = claim_rewards(&mut pool, &mut user, Some(slot), None, None, &pid, 0);
    assert_eq!(r.err(), Some(StakingError::MathOverflow));
    assert_eq!(user, user_before);
}
