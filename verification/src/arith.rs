use vstd::prelude::*;

use vstd::arithmetic::div_mod::{
    lemma_div_is_ordered, lemma_div_multiples_vanish, lemma_div_pos_is_pos,
    lemma_fundamental_div_mod, lemma_multiply_divide_le, lemma_remainder_lower,
};
use vstd::arithmetic::mul::{
    lemma_mul_inequality, lemma_mul_is_commutative, lemma_mul_is_distributive_add,
    lemma_mul_left_inequality, lemma_mul_nonnegative,
};

verus! {

/// A quotient of a non-negative value by a positive one is non-negative.
pub proof fn lemma_div_nonneg(x: int, d: int)
    requires
        0 <= x,
        0 < d,
    ensures
        0 <= x / d,
{
    lemma_div_pos_is_pos(x, d);
}

/// Scaling a non-negative value by a fraction `b / d` with `b <= d` does not
/// increase it.
pub proof fn lemma_scaled_fraction_le(x: int, b: int, d: int)
    requires
        0 <= x,
        0 <= b <= d,
        0 < d,
    ensures
        0 <= x * b / d <= x,
{
    lemma_mul_nonnegative(x, b);
    lemma_div_nonneg(x * b, d);
    lemma_mul_inequality(b, d, x);
    lemma_mul_is_commutative(x, b);
    lemma_mul_is_commutative(x, d);
    lemma_multiply_divide_le(x * b, d, x);
}

/// Truncating division distributes over a sum only with a loss:
/// `a / d + b / d <= (a + b) / d` for non-negative `a` and `b`.
pub proof fn lemma_div_add_le(a: int, b: int, d: int)
    requires
        0 <= a,
        0 <= b,
        0 < d,
    ensures
        a / d + b / d <= (a + b) / d,
{
    let q = a / d + b / d;
    lemma_fundamental_div_mod(a, d);
    lemma_fundamental_div_mod(b, d);
    lemma_remainder_lower(a, d);
    lemma_remainder_lower(b, d);
    lemma_mul_is_distributive_add(d, a / d, b / d);
    assert(d * q <= a + b);
    lemma_div_is_ordered(d * q, a + b, d);
    lemma_div_multiples_vanish(q, d);
}

/// A weighted average of two values, with positive weights, lies between
/// them.
pub proof fn lemma_weighted_avg_bounds(a: int, x: int, b: int, y: int, lo: int, hi: int)
    requires
        0 < a,
        0 < b,
        lo <= x <= hi,
        lo <= y <= hi,
    ensures
        lo <= (a * x + b * y) / (a + b) <= hi,
{
    lemma_mul_left_inequality(a, lo, x);
    lemma_mul_left_inequality(a, x, hi);
    lemma_mul_left_inequality(b, lo, y);
    lemma_mul_left_inequality(b, y, hi);
    assert((a + b) * lo == a * lo + b * lo) by {
        lemma_mul_is_commutative(a + b, lo);
        lemma_mul_is_distributive_add(lo, a, b);
        lemma_mul_is_commutative(lo, a);
        lemma_mul_is_commutative(lo, b);
    }
    assert((a + b) * hi == a * hi + b * hi) by {
        lemma_mul_is_commutative(a + b, hi);
        lemma_mul_is_distributive_add(hi, a, b);
        lemma_mul_is_commutative(hi, a);
        lemma_mul_is_commutative(hi, b);
    }
    lemma_div_is_ordered((a + b) * lo, a * x + b * y, a + b);
    lemma_div_multiples_vanish(lo, a + b);
    lemma_multiply_divide_le(a * x + b * y, a + b, hi);
}

/// A value over a threshold, multiplied by a scale of at least one, stays
/// over the threshold.
pub proof fn lemma_mul_by_scale_exceeds(x: int, p: int, m: int)
    requires
        x > m,
        p >= 1,
        m >= 0,
    ensures
        x * p > m,
{
    lemma_mul_left_inequality(x, 1, p);
}

} // verus!
