use vstd::prelude::*;

use crate::accrual::{settle_overflows, settled_accumulator, settled_pool, settled_user};
use crate::claim::commission_of;
use crate::ids::AccountId;
use crate::stake::remaining_lock;
use crate::state::{StakingPool, UserStake, BASIS_POINTS, MAX_REFERRAL_BPS};
use vstd::arithmetic::div_mod::lemma_div_is_ordered;
use vstd::arithmetic::mul::{
    lemma_mul_is_distributive_add, lemma_mul_left_inequality, lemma_mul_nonnegative,
};

verus! {

/// One balance-affecting operation on a position, reduced to what it moves:
/// a deposit (stake) or a withdrawal (unstake) of some amount.
pub enum LedgerFlow {
    Deposit { amount: u64 },
    Withdraw { amount: u64 },
}

/// Deposits minus withdrawals over a sequence of flows.
pub open spec fn net_flow(ops: Seq<LedgerFlow>) -> int
    decreases ops.len(),
{
    if ops.len() == 0 {
        0
    } else {
        net_flow(ops.drop_last()) + match ops.last() {
            LedgerFlow::Deposit { amount } => amount as int,
            LedgerFlow::Withdraw { amount } => -(amount as int),
        }
    }
}

/// One successful operation's effect on the two principal counters, exactly
/// as the `stake_with_referral` and `unstake` contracts state it: a deposit
/// grows both the pool's total and the position's principal by its amount,
/// and a withdrawal shrinks both by its amount.
pub open spec fn balance_step(
    pool0: StakingPool,
    user0: UserStake,
    pool1: StakingPool,
    user1: UserStake,
    op: LedgerFlow,
) -> bool {
    match op {
        LedgerFlow::Deposit { amount } => pool1.total_staked == pool0.total_staked + amount
            && user1.staked_amount == user0.staked_amount + amount,
        LedgerFlow::Withdraw { amount } => pool1.total_staked == pool0.total_staked - amount
            && user1.staked_amount == user0.staked_amount - amount,
    }
}

/// Law: across any sequence of deposits and withdrawals on one position, the
/// principal equals its starting value plus deposits minus withdrawals, and
/// the pool's total moves in lockstep — the share of the total owned by all
/// other positions is untouched.
pub proof fn lemma_principal_is_net_flow(
    pools: Seq<StakingPool>,
    users: Seq<UserStake>,
    ops: Seq<LedgerFlow>,
)
    requires
        pools.len() == ops.len() + 1,
        users.len() == ops.len() + 1,
        forall|i: int|
            0 <= i < ops.len() ==> #[trigger] balance_step(
                pools[i],
                users[i],
                pools[i + 1],
                users[i + 1],
                ops[i],
            ),
    ensures
        users.last().staked_amount == users[0].staked_amount + net_flow(ops),
        pools.last().total_staked - users.last().staked_amount == pools[0].total_staked
            - users[0].staked_amount,
    decreases ops.len(),
{
    if ops.len() > 0 {
        let n = ops.len() as int;
        let i = n - 1;
        assert(balance_step(pools[i], users[i], pools[i + 1], users[i + 1], ops[i]));
        let pd = pools.drop_last();
        let ud = users.drop_last();
        let od = ops.drop_last();
        assert forall|j: int| 0 <= j < od.len() implies #[trigger] balance_step(
            pd[j],
            ud[j],
            pd[j + 1],
            ud[j + 1],
            od[j],
        ) by {
            assert(balance_step(pools[j], users[j], pools[j + 1], users[j + 1], ops[j]));
        }
        lemma_principal_is_net_flow(pd, ud, od);
    }
}

/// The sum of a set of positions' principals.
pub open spec fn sum_staked(users: Seq<UserStake>) -> int
    decreases users.len(),
{
    if users.len() == 0 {
        0
    } else {
        sum_staked(users.drop_last()) + users.last().staked_amount
    }
}

/// The pool-wide invariant: the pool's total equals the sum of all positions'
/// principals.
pub open spec fn pool_balanced(pool: StakingPool, users: Seq<UserStake>) -> bool {
    pool.total_staked == sum_staked(users)
}

/// Replacing one position changes the sum by exactly that position's change.
pub proof fn lemma_sum_staked_update(users: Seq<UserStake>, i: int, v: UserStake)
    requires
        0 <= i < users.len(),
    ensures
        sum_staked(users.update(i, v)) == sum_staked(users) - users[i].staked_amount
            + v.staked_amount,
    decreases users.len(),
{
    let upd = users.update(i, v);
    if i == users.len() - 1 {
        assert(upd.drop_last() =~= users.drop_last());
    } else {
        assert(upd.drop_last() =~= users.drop_last().update(i, v));
        lemma_sum_staked_update(users.drop_last(), i, v);
    }
}

/// Law: a deposit by any one position preserves the pool-wide invariant that
/// the total equals the sum of all positions' principals.
pub proof fn lemma_deposit_preserves_pool_balance(
    pool0: StakingPool,
    users: Seq<UserStake>,
    i: int,
    pool1: StakingPool,
    u1: UserStake,
    amount: u64,
)
    requires
        pool_balanced(pool0, users),
        0 <= i < users.len(),
        pool1.total_staked == pool0.total_staked + amount,
        u1.staked_amount == users[i].staked_amount + amount,
    ensures
        pool_balanced(pool1, users.update(i, u1)),
{
    lemma_sum_staked_update(users, i, u1);
}

/// Law: a withdrawal by any one position preserves the pool-wide invariant
/// that the total equals the sum of all positions' principals.
pub proof fn lemma_withdraw_preserves_pool_balance(
    pool0: StakingPool,
    users: Seq<UserStake>,
    i: int,
    pool1: StakingPool,
    u1: UserStake,
    amount: u64,
)
    requires
        pool_balanced(pool0, users),
        0 <= i < users.len(),
        pool1.total_staked == pool0.total_staked - amount,
        u1.staked_amount == users[i].staked_amount - amount,
    ensures
        pool_balanced(pool1, users.update(i, u1)),
{
    lemma_sum_staked_update(users, i, u1);
}

/// Law: settling twice at the same instant is the same as settling once. The
/// second settlement finds zero elapsed time and a checkpoint already at the
/// accumulator, so neither the accumulator nor the pending reward moves, and
/// the second settlement cannot overflow.
pub proof fn lemma_settle_idempotent(pool: StakingPool, user: UserStake, now: i64)
    requires
        pool.wf(),
        user.wf(),
        0 <= now,
        user.reward_per_token_paid <= pool.reward_per_token_stored,
        !settle_overflows(pool, user, now),
    ensures
        !settle_overflows(settled_pool(pool, now), settled_user(pool, user, now), now),
        settled_pool(settled_pool(pool, now), now) == settled_pool(pool, now),
        settled_user(settled_pool(pool, now), settled_user(pool, user, now), now) == settled_user(
            pool,
            user,
            now,
        ),
{
    let p1 = settled_pool(pool, now);
    let u1 = settled_user(pool, user, now);
    if pool.total_staked != 0 {
        lemma_mul_nonnegative(
            pool.reward_rate as int,
            crate::accrual::elapsed_since(now, pool.last_update_time),
        );
        lemma_mul_nonnegative(
            pool.reward_rate * crate::accrual::elapsed_since(now, pool.last_update_time),
            crate::state::PRECISION as int,
        );
        crate::arith::lemma_div_nonneg(
            pool.reward_rate * crate::accrual::elapsed_since(now, pool.last_update_time)
                * crate::state::PRECISION,
            pool.total_staked as int,
        );
        assert(settled_accumulator(p1, now) == p1.reward_per_token_stored as int);
        assert(u1.reward_per_token_paid == p1.reward_per_token_stored);
        assert(newly_accrued_is_zero(u1, p1, now)) by {
            assert(u1.staked_amount * (settled_accumulator(p1, now)
                - u1.reward_per_token_paid as int) == 0);
        }
    }
}

/// The second settlement's newly accrued reward is zero: the checkpoint
/// already sits at the accumulator.
pub open spec fn newly_accrued_is_zero(u1: UserStake, p1: StakingPool, now: i64) -> bool {
    crate::accrual::newly_accrued(
        u1.staked_amount,
        settled_accumulator(p1, now),
        u1.reward_per_token_paid,
    ) == 0
}

/// Law: each tier's commission is its basis-point share of the full claimed
/// reward; the three together never exceed the 2500-basis-point cap's share,
/// which never exceeds the reward itself. The claimant's own transfer is the
/// full reward (see `claim_rewards`), so commission is never deducted from it.
pub proof fn lemma_commission_bounded(reward: u64, l1: u16, l2: u16, l3: u16)
    requires
        l1 + l2 + l3 <= MAX_REFERRAL_BPS,
    ensures
        commission_of(reward, l1) + commission_of(reward, l2) + commission_of(reward, l3)
            <= reward * MAX_REFERRAL_BPS / (BASIS_POINTS as int),
        reward * MAX_REFERRAL_BPS / (BASIS_POINTS as int) <= reward,
        commission_of(reward, l1) <= reward,
        commission_of(reward, l2) <= reward,
        commission_of(reward, l3) <= reward,
{
    let r = reward as int;
    let b = BASIS_POINTS as int;
    lemma_mul_nonnegative(r, l1 as int);
    lemma_mul_nonnegative(r, l2 as int);
    lemma_mul_nonnegative(r, l3 as int);
    crate::arith::lemma_div_add_le(r * (l1 as int), r * (l2 as int), b);
    crate::arith::lemma_div_add_le(r * (l1 as int) + r * (l2 as int), r * (l3 as int), b);
    assert(r * (l1 as int) + r * (l2 as int) == r * (l1 + l2)) by {
        lemma_mul_is_distributive_add(r, l1 as int, l2 as int);
    }
    assert(r * (l1 + l2) + r * (l3 as int) == r * (l1 + l2 + l3)) by {
        lemma_mul_is_distributive_add(r, (l1 + l2) as int, l3 as int);
    }
    if r > 0 {
        lemma_mul_left_inequality(r, (l1 + l2 + l3) as int, MAX_REFERRAL_BPS as int);
    }
    lemma_div_is_ordered(r * ((l1 + l2 + l3) as int), r * (MAX_REFERRAL_BPS as int), b);
    crate::arith::lemma_scaled_fraction_le(r, MAX_REFERRAL_BPS as int, b);
    crate::arith::lemma_scaled_fraction_le(r, l1 as int, b);
    crate::arith::lemma_scaled_fraction_le(r, l2 as int, b);
    crate::arith::lemma_scaled_fraction_le(r, l3 as int, b);
}

/// The referral chain a position carries.
pub open spec fn chain_of(u: UserStake) -> (Option<AccountId>, Option<AccountId>, Option<
    AccountId,
>) {
    (u.referrer, u.referrer_l2, u.referrer_l3)
}

/// One operation's effect on a position's chain, as every operation's
/// contract states it: once the direct referrer is set, the chain no longer
/// moves. (Settlement, claims and withdrawals never touch it at all; only a
/// first-linking deposit writes it, once.)
pub open spec fn chain_step(u0: UserStake, u1: UserStake) -> bool {
    u0.referrer is Some ==> chain_of(u1) == chain_of(u0)
}

/// Law: a referral chain, once established, is carried unchanged through any
/// sequence of later operations on the position — in particular, later
/// changes to an upstream referrer's own chain never propagate downstream.
pub proof fn lemma_chain_frozen(states: Seq<UserStake>, k: int)
    requires
        0 <= k < states.len(),
        states[k].referrer is Some,
        forall|i: int|
            0 <= i < states.len() - 1 ==> #[trigger] chain_step(states[i], states[i + 1]),
    ensures
        forall|j: int|
            k <= j < states.len() ==> #[trigger] chain_of(states[j]) == chain_of(states[k]),
    decreases states.len(),
{
    let n = states.len() as int;
    if n > k + 1 {
        let prev = states.drop_last();
        assert forall|i: int| 0 <= i < prev.len() - 1 implies #[trigger] chain_step(
            prev[i],
            prev[i + 1],
        ) by {
            assert(chain_step(states[i], states[i + 1]));
        }
        lemma_chain_frozen(prev, k);
        assert(chain_of(prev[n - 2]) == chain_of(prev[k]));
        let i = n - 2;
        assert(chain_step(states[i], states[i + 1]));
        assert forall|j: int| k <= j < n implies #[trigger] chain_of(states[j]) == chain_of(
            states[k],
        ) by {
            if j < n - 1 {
                assert(chain_of(prev[j]) == chain_of(prev[k]));
            }
        }
    }
}

/// Law: a top-up's weighted remaining lock lies between the lock that was
/// left and the full duration — it never shortens what was left and never
/// exceeds a full re-lock, whichever of the two is larger.
pub proof fn lemma_relock_between(staked: u64, last: i64, lock: i64, amount: u64, now: i64)
    requires
        staked > 0,
        amount > 0,
        0 <= last,
        0 <= lock,
        0 <= now,
    ensures
        ({
            let rem = remaining_lock(last, lock, now);
            let weighted = (staked * rem + amount * lock) / (staked + amount);
            &&& (rem <= weighted || lock <= weighted)
            &&& (weighted <= rem || weighted <= lock)
        }),
{
    let rem = remaining_lock(last, lock, now);
    if rem <= lock {
        crate::arith::lemma_weighted_avg_bounds(
            staked as int,
            rem,
            amount as int,
            lock as int,
            rem,
            lock as int,
        );
    } else {
        crate::arith::lemma_weighted_avg_bounds(
            staked as int,
            rem,
            amount as int,
            lock as int,
            lock as int,
            rem,
        );
    }
}

} // verus!
