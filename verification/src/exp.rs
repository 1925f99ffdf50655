//! The decaying exponential in fixed point.
//!
//! `exp_neg(x)` stands for `e^(-x)`. The argument is split into a whole
//! number of halvings and a rest below `ln 2`; the rest goes through a
//! fourteen-term series in nested form, carried at twelve decimal places.
//! `exp_fine(x)` is the value at those twelve places, before it is rounded
//! to millionths.

use crate::fixed::div_round;
use crate::fixed::div_round_exec;
use crate::fixed::lemma_div_round_bounds;
use crate::fixed::lemma_div_round_exact;
use crate::fixed::lemma_div_round_monotone;
use crate::fixed::ONE;
use vstd::arithmetic::div_mod::lemma_div_pos_is_pos;
use vstd::arithmetic::div_mod::lemma_fundamental_div_mod;
use vstd::arithmetic::div_mod::lemma_mod_bound;
use vstd::prelude::*;

verus! {

/// One, at the precision of the series.
pub const SERIES_ONE: i128 = 1_000_000_000_000;

/// `ln 2`, at the precision of the series.
pub const SERIES_LN2: i128 = 693_147_180_560;

/// Number of terms of the series.
pub const SERIES_TERMS: i128 = 14;

/// Arguments from here on give 0: thirty-two.
pub const EXP_CUTOFF: i64 = 32_000_000;

/// The series of `e^(-r)` from term `k` on, in nested form:
/// `1 - (r/k)(1 - (r/(k+1))(1 - ...))`.
pub open spec fn exp_series(r: int, k: int) -> int
    decreases SERIES_TERMS + 1 - k,
{
    if k < 1 || k > SERIES_TERMS {
        SERIES_ONE as int
    } else {
        SERIES_ONE - (r * exp_series(r, k + 1)) / (k * SERIES_ONE)
    }
}

/// `v` halved `n` times.
pub open spec fn halved(v: int, n: int) -> int
    decreases n,
{
    if n <= 0 {
        v
    } else {
        halved(v / 2, n - 1)
    }
}

/// `e^(-x)` at the precision of the series, for `x` from 0 on.
pub open spec fn exp_fine(x: int) -> int {
    let scaled = x * 1_000_000;
    halved(exp_series(scaled % (SERIES_LN2 as int), 1), scaled / (SERIES_LN2 as int))
}

/// `e^(-x)` for `x >= 0`, between 0 and `ONE`.
pub open spec fn exp_neg(x: int) -> int {
    if x <= 0 {
        ONE as int
    } else if x >= EXP_CUTOFF {
        0
    } else {
        div_round(exp_fine(x), 1_000_000)
    }
}

/// Arguments up to here keep `exp_fine` above `EXP_FINE_FLOOR`: three.
pub const EXP_FINE_REACH: i64 = 3_000_000;

/// What `exp_fine` stays above for arguments up to `EXP_FINE_REACH`.
pub const EXP_FINE_FLOOR: i128 = 19_000_000_000;

proof fn lemma_series_step(r: int, acc: int, k: int)
    requires
        0 <= r < SERIES_LN2,
        0 <= acc <= SERIES_ONE,
        k >= 1,
    ensures
        0 <= (r * acc) / (k * SERIES_ONE) <= r,
        0 <= r * acc <= SERIES_LN2 * SERIES_ONE,
        0 < k * SERIES_ONE,
{
    let s = SERIES_ONE as int;
    assert(0 <= r * acc <= r * s) by (nonlinear_arith)
        requires
            0 <= r,
            0 <= acc <= s,
    ;
    assert(r * s <= SERIES_LN2 * s) by (nonlinear_arith)
        requires
            0 <= r < SERIES_LN2,
            s > 0,
    ;
    assert(k * s >= s) by (nonlinear_arith)
        requires
            k >= 1,
            s > 0,
    ;
    lemma_div_pos_is_pos(r * acc, k * s);
    vstd::arithmetic::div_mod::lemma_div_is_ordered(r * acc, r * s, k * s);
    vstd::arithmetic::div_mod::lemma_div_is_ordered_by_denominator(r * s, s, k * s);
    vstd::arithmetic::div_mod::lemma_div_multiples_vanish(r, s);
    assert(r * s == s * r) by (nonlinear_arith);
}

/// The series stays between 0 and one.
pub proof fn lemma_series_range(r: int, k: int)
    requires
        0 <= r < SERIES_LN2,
    ensures
        0 <= exp_series(r, k) <= SERIES_ONE,
    decreases SERIES_TERMS + 1 - k,
{
    if 1 <= k <= SERIES_TERMS {
        lemma_series_range(r, k + 1);
        lemma_series_step(r, exp_series(r, k + 1), k);
    }
}

/// Halving keeps a value between 0 and where it started.
pub proof fn lemma_halved_range(v: int, n: int)
    requires
        0 <= v,
    ensures
        0 <= halved(v, n) <= v,
    decreases n,
{
    if n > 0 {
        lemma_halved_range(v / 2, n - 1);
    }
}

/// `exp_fine` lies between 0 and one.
pub proof fn lemma_exp_fine_range(x: int)
    requires
        0 <= x,
    ensures
        0 <= exp_fine(x) <= SERIES_ONE,
{
    let scaled = x * 1_000_000;
    let l = SERIES_LN2 as int;
    lemma_fundamental_div_mod(scaled, l);
    lemma_mod_bound(scaled, l);
    let r = scaled % l;
    lemma_series_range(r, 1);
    lemma_halved_range(exp_series(r, 1), scaled / l);
}

/// Up to three, `exp_fine` stays well above nothing: the series gives more
/// than `1 - ln 2`, and it is halved four times at most.
pub proof fn lemma_exp_fine_floor(x: int)
    requires
        0 <= x <= EXP_FINE_REACH,
    ensures
        EXP_FINE_FLOOR <= exp_fine(x) <= SERIES_ONE,
{
    lemma_exp_fine_range(x);
    let scaled = x * 1_000_000;
    let l = SERIES_LN2 as int;
    lemma_fundamental_div_mod(scaled, l);
    lemma_mod_bound(scaled, l);
    lemma_div_pos_is_pos(scaled, l);
    let r = scaled % l;
    let n = scaled / l;
    assert(n <= 4) by (nonlinear_arith)
        requires
            scaled == l * n + r,
            0 <= r,
            scaled <= 3_000_000_000_000,
            l == 693_147_180_560,
    ;
    lemma_series_range(r, 2);
    lemma_series_step(r, exp_series(r, 2), 1);
    let v = exp_series(r, 1);
    assert(v >= SERIES_ONE - r);
    reveal_with_fuel(halved, 6);
    assert(halved(v, n) >= v / 16);
}

/// `e^(-x)` lies between 0 and one, and is one at 0.
pub proof fn lemma_exp_neg_range(x: int)
    ensures
        0 <= exp_neg(x) <= ONE,
        x <= 0 ==> exp_neg(x) == ONE,
{
    if 0 < x < EXP_CUTOFF {
        lemma_exp_fine_range(x);
        let h = exp_fine(x);
        lemma_div_round_bounds(h, 1_000_000);
        lemma_div_round_monotone(h, SERIES_ONE as int, 1_000_000);
        lemma_div_round_exact(1_000_000, 1_000_000);
    }
}

/// `e^(-x)` at the precision of the series.
pub(crate) fn exp_fine_fx(x: i64) -> (r: i128)
    requires
        0 <= x < EXP_CUTOFF,
    ensures
        r == exp_fine(x as int),
        0 <= r <= SERIES_ONE,
{
    proof {
        lemma_exp_fine_range(x as int);
    }
    let scaled: i128 = (x as i128) * 1_000_000;
    let halvings: i128 = scaled / SERIES_LN2;
    let rest: i128 = scaled % SERIES_LN2;
    proof {
        lemma_fundamental_div_mod(scaled as int, SERIES_LN2 as int);
        lemma_mod_bound(scaled as int, SERIES_LN2 as int);
        lemma_div_pos_is_pos(scaled as int, SERIES_LN2 as int);
    }
    let mut acc: i128 = SERIES_ONE;
    let mut k: i128 = SERIES_TERMS;
    while k >= 1
        invariant
            0 <= k <= SERIES_TERMS,
            0 <= rest < SERIES_LN2,
            0 <= acc <= SERIES_ONE,
            acc == exp_series(rest as int, k + 1),
        decreases k,
    {
        proof {
            lemma_series_step(rest as int, acc as int, k as int);
        }
        acc = SERIES_ONE - (rest * acc) / (k * SERIES_ONE);
        k -= 1;
    }
    let mut value: i128 = acc;
    let mut n: i128 = halvings;
    while n > 0
        invariant
            0 <= n <= halvings,
            0 <= value <= SERIES_ONE,
            halved(value as int, n as int) == halved(acc as int, halvings as int),
        decreases n,
    {
        value = value / 2;
        n -= 1;
    }
    value
}

/// `e^(-x)` for `x >= 0`.
pub fn exp_neg_fx(x: i64) -> (r: i64)
    ensures
        r == exp_neg(x as int),
        0 <= r <= ONE,
{
    proof {
        lemma_exp_neg_range(x as int);
    }
    if x <= 0 {
        return ONE;
    }
    if x >= EXP_CUTOFF {
        return 0;
    }
    let q: i128 = div_round_exec(exp_fine_fx(x), 1_000_000);
    q as i64
}

} // verus!
