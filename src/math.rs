//! Arithmetic facts shared by the proofs of the stream and fee computations.
use vstd::prelude::*;
use vstd::arithmetic::div_mod::{
    lemma_div_is_ordered, lemma_fundamental_div_mod, lemma_mod_pos_bound,
    lemma_multiply_divide_le, lemma_multiply_divide_lt,
};
use vstd::arithmetic::mul::{lemma_mul_inequality, lemma_mul_upper_bound};

verus! {

/// The product of two 64-bit values fits in 128 bits.
pub proof fn lemma_mul_u64_fits_u128(a: u64, b: u64)
    ensures
        (a as int) * (b as int) <= u128::MAX,
        0 <= (a as int) * (b as int),
{
    lemma_mul_upper_bound(a as int, u64::MAX as int, b as int, u64::MAX as int);
    assert((u64::MAX as int) * (u64::MAX as int) <= u128::MAX);
    assert(0 <= (a as int) * (b as int)) by (nonlinear_arith);
}

/// Taking a fraction `p / d` with `p <= d` of a non-negative amount never exceeds it.
pub proof fn lemma_fraction_le(p: int, a: int, d: int)
    requires
        0 <= p <= d,
        0 < d,
        0 <= a,
    ensures
        0 <= p * a / d <= a,
{
    lemma_mul_inequality(p, d, a);
    assert(d * a == a * d) by (nonlinear_arith);
    assert(p * a <= d * a) by (nonlinear_arith)
        requires
            p <= d,
            0 <= a,
    ;
    lemma_multiply_divide_le(p * a, d, a);
    assert(0 <= p * a) by (nonlinear_arith)
        requires
            0 <= p,
            0 <= a,
    ;
    lemma_div_pos(p * a, d);
}

/// Division of a non-negative value by a positive one is non-negative.
pub proof fn lemma_div_pos(x: int, d: int)
    requires
        0 <= x,
        0 < d,
    ensures
        0 <= x / d,
{
    lemma_div_is_ordered(0, x, d);
}

/// `x / d` is monotone in `x` for non-negative products `r * s`.
pub proof fn lemma_scaled_div_monotone(r: int, s1: int, s2: int, d: int)
    requires
        0 <= r,
        0 <= s1 <= s2,
        0 < d,
    ensures
        r * s1 / d <= r * s2 / d,
{
    assert(r * s1 <= r * s2) by (nonlinear_arith)
        requires
            0 <= r,
            s1 <= s2,
    ;
    lemma_div_is_ordered(r * s1, r * s2, d);
}

/// Below the number of seconds that a budget lasts, the amount vested at rate
/// `rate / interval` stays strictly below the budget.
pub proof fn lemma_below_full(budget: int, interval: int, rate: int, seconds: int)
    requires
        0 <= budget,
        0 < interval,
        0 < rate,
        0 <= seconds,
        seconds < budget * interval / rate,
    ensures
        rate * seconds / interval < budget,
        0 <= rate * seconds / interval,
{
    let q = budget * interval / rate;
    lemma_fundamental_div_mod(budget * interval, rate);
    lemma_mod_pos_bound(budget * interval, rate);
    assert(rate * (seconds + 1) <= rate * q) by (nonlinear_arith)
        requires
            seconds + 1 <= q,
            0 < rate,
    ;
    assert(rate * seconds < interval * budget) by (nonlinear_arith)
        requires
            rate * (seconds + 1) <= rate * q,
            budget * interval == rate * q + (budget * interval) % rate,
            0 <= (budget * interval) % rate,
            0 < rate,
    ;
    lemma_multiply_divide_lt(rate * seconds, interval, budget);
    assert(0 <= rate * seconds) by (nonlinear_arith)
        requires
            0 < rate,
            0 <= seconds,
    ;
    lemma_div_pos(rate * seconds, interval);
}

/// Vesting at rate `rate / interval` for the whole number of seconds that a budget
/// lasts never exceeds the budget.
pub proof fn lemma_full_seconds_within_budget(budget: int, interval: int, rate: int)
    requires
        0 <= budget,
        0 < interval,
        0 < rate,
    ensures
        rate * (budget * interval / rate) / interval <= budget,
{
    let q = budget * interval / rate;
    lemma_fundamental_div_mod(budget * interval, rate);
    lemma_mod_pos_bound(budget * interval, rate);
    assert(rate * q <= interval * budget) by (nonlinear_arith)
        requires
            budget * interval == rate * q + (budget * interval) % rate,
            0 <= (budget * interval) % rate,
    ;
    lemma_multiply_divide_le(rate * q, interval, budget);
}

/// A larger budget lasts at least as long at the same rate.
pub proof fn lemma_budget_seconds_monotone(b1: int, b2: int, interval: int, rate: int)
    requires
        0 <= b1 <= b2,
        0 <= interval,
        0 < rate,
    ensures
        b1 * interval / rate <= b2 * interval / rate,
{
    assert(b1 * interval <= b2 * interval) by (nonlinear_arith)
        requires
            b1 <= b2,
            0 <= interval,
    ;
    lemma_div_is_ordered(b1 * interval, b2 * interval, rate);
}

} // verus!
