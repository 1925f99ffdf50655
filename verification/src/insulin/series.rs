//! The exponential curve where it is nearly flat.
//!
//! Write `s` for the share of the action that has passed, `x = end / tau`
//! for the steepness of the curve and `u = x s`. As the peak moves toward
//! the middle of the action, `x` falls to nothing and the closed form of
//! the curve divides one vanishing quantity by another. The same curve is
//! the quotient of two power series with positive terms only:
//!
//! - what has acted of a dose is `e^(x - u) A / N`, with
//!   `A = sum over n >= 2 of s^2 u^(n-2) (1 - 2 s / (n + 1)) / n!` and
//!   `N = sum over n >= 3 of (n - 2) x^(n-3) / n!`;
//! - what acts per unit of the elapsed share is `e^(x - u) s (1 - s) / N`.
//!
//! At `x = 0` these are `3 s^2 - 2 s^3` and `6 s (1 - s)`: a parabola of
//! activity with its peak in the middle. Both series are carried at twelve
//! decimal places and cut after the term of `SHARE_TERMS`.

use crate::exp::exp_fine;
use crate::exp::exp_fine_fx;
use crate::exp::lemma_exp_fine_floor;
use crate::exp::EXP_FINE_REACH;
use crate::exp::SERIES_ONE;
use crate::fixed::clamp;
use crate::fixed::div_round;
use crate::fixed::div_round_exec;
use crate::fixed::fx_mul;
use crate::fixed::mul_fx;
use crate::fixed::sat;
use crate::fixed::saturate;
use crate::fixed::ONE;
use vstd::arithmetic::div_mod::lemma_div_is_ordered;
use vstd::arithmetic::div_mod::lemma_div_is_ordered_by_denominator;
use vstd::arithmetic::div_mod::lemma_div_multiples_vanish;
use vstd::arithmetic::div_mod::lemma_div_pos_is_pos;
use vstd::prelude::*;

verus! {

/// The last term of both series.
pub const SHARE_TERMS: i128 = 30;

/// Term `n` of the series of what has acted, without its weight:
/// `s^2 u^(n-2) / n!`, with `reach` for `u` and `elapsed` for `s`, both at
/// twelve decimal places.
pub open spec fn used_term(reach: int, elapsed: int, n: int) -> int
    decreases n,
{
    if n <= 2 {
        (elapsed * elapsed) / (2 * SERIES_ONE)
    } else {
        (used_term(reach, elapsed, n - 1) * reach) / (n * SERIES_ONE)
    }
}

/// The series of what has acted up to term `n`, each term weighted by
/// `1 - 2 s / (n + 1)`.
pub open spec fn used_sum(reach: int, elapsed: int, n: int) -> int
    decreases n,
{
    if n < 2 {
        0
    } else {
        used_sum(reach, elapsed, n - 1) + (used_term(reach, elapsed, n) * (SERIES_ONE - (2
            * elapsed) / (n + 1))) / (SERIES_ONE as int)
    }
}

/// Term `n` of the norm, without its weight: `x^(n-3) / n!`, with `steep`
/// for `x` at twelve decimal places.
pub open spec fn norm_term(steep: int, n: int) -> int
    decreases n,
{
    if n <= 3 {
        SERIES_ONE / 6
    } else {
        (norm_term(steep, n - 1) * steep) / (n * SERIES_ONE)
    }
}

/// The norm up to term `n`, each term weighted by `n - 2`.
pub open spec fn norm_sum(steep: int, n: int) -> int
    decreases n,
{
    if n < 3 {
        0
    } else {
        norm_sum(steep, n - 1) + (n - 2) * norm_term(steep, n)
    }
}

/// `e^(x - u)` at twelve decimal places, for the elapsed share `s` and the
/// steepness `x` in millionths.
pub open spec fn series_growth(s: int, x: int) -> int {
    (SERIES_ONE * SERIES_ONE) / exp_fine(x - fx_mul(x, s))
}

/// The share of a dose that has acted when the share `s` of its action has
/// passed, under a curve of steepness `x`; held between nothing and all.
pub open spec fn series_used_share(s: int, x: int) -> int {
    let acted = (used_sum(x * s, s * 1_000_000, SHARE_TERMS as int) * series_growth(s, x)) / (
    SERIES_ONE as int);
    clamp(div_round(acted * ONE, norm_sum(x * 1_000_000, SHARE_TERMS as int)), 0, ONE as int)
}

/// What acts of a unit of insulin, per unit of the elapsed share, when the
/// share `s` of the action has passed.
pub open spec fn series_activity_share(s: int, x: int) -> int {
    let fine = s * 1_000_000;
    let bow = (fine * (SERIES_ONE - fine)) / (SERIES_ONE as int);
    let acting = (bow * series_growth(s, x)) / (SERIES_ONE as int);
    sat(div_round(acting * ONE, norm_sum(x * 1_000_000, SHARE_TERMS as int)))
}

/// One step from a term to the next keeps it between nothing and where it
/// was.
proof fn lemma_term_step(t: int, u: int, n: int)
    requires
        0 <= t <= SERIES_ONE,
        0 <= u <= 3 * SERIES_ONE,
        n >= 3,
    ensures
        0 <= (t * u) / (n * SERIES_ONE) <= t,
        0 <= t * u <= 3 * SERIES_ONE * SERIES_ONE,
        3 * SERIES_ONE <= n * SERIES_ONE,
{
    let s = SERIES_ONE as int;
    let d = n * s;
    assert(0 <= t * u <= t * d && d >= 3 * s && t * u <= 3 * s * s && t * d == d * t)
        by (nonlinear_arith)
        requires
            0 <= t <= s,
            0 <= u <= 3 * s,
            n >= 3,
            d == n * s,
            s > 0,
    ;
    lemma_div_pos_is_pos(t * u, d);
    lemma_div_is_ordered(t * u, t * d, d);
    lemma_div_multiples_vanish(t, d);
}

/// A share of a term lies between nothing and the term.
proof fn lemma_share_step(t: int, w: int)
    requires
        0 <= t,
        0 <= w <= SERIES_ONE,
    ensures
        0 <= (t * w) / (SERIES_ONE as int) <= t,
        0 <= t * w <= t * SERIES_ONE,
        t == 0 ==> t * w == 0,
{
    let s = SERIES_ONE as int;
    assert(0 <= t * w <= t * s && t * s == s * t && (t == 0 ==> t * w == 0)) by (nonlinear_arith)
        requires
            0 <= t,
            0 <= w <= s,
    ;
    lemma_div_pos_is_pos(t * w, s);
    lemma_div_is_ordered(t * w, t * s, s);
    lemma_div_multiples_vanish(t, s);
}

/// The terms of what has acted lie between nothing and one, their sum up
/// to term `n` between nothing and `n`; all are nothing at the start.
pub proof fn lemma_used_range(reach: int, elapsed: int, n: int)
    requires
        0 <= elapsed <= SERIES_ONE,
        0 <= reach <= 3 * SERIES_ONE,
    ensures
        0 <= used_term(reach, elapsed, n) <= SERIES_ONE,
        0 <= used_sum(reach, elapsed, n),
        n >= 0 ==> used_sum(reach, elapsed, n) <= n * SERIES_ONE,
        elapsed == 0 ==> used_term(reach, elapsed, n) == 0 && used_sum(reach, elapsed, n) == 0,
    decreases n,
{
    if n <= 2 {
        lemma_share_step(elapsed, elapsed);
        let square = elapsed * elapsed;
        assert(0 <= square <= 1_000_000_000_000_000_000_000_000);
        assert(0 <= square / 2_000_000_000_000 <= 1_000_000_000_000);
    } else {
        lemma_used_range(reach, elapsed, n - 1);
        let before = used_term(reach, elapsed, n - 1);
        lemma_term_step(before, reach, n);
        assert(before == 0 ==> before * reach == 0) by (nonlinear_arith);
    }
    if n >= 2 {
        if n == 2 {
            assert(used_sum(reach, elapsed, 1) == 0);
        } else {
            lemma_used_range(reach, elapsed, n - 1);
        }
        let weight = SERIES_ONE - (2 * elapsed) / (n + 1);
        assert(0 <= (2 * elapsed) / (n + 1) <= SERIES_ONE) by {
            lemma_div_pos_is_pos(2 * elapsed, n + 1);
            lemma_div_is_ordered_by_denominator(2 * elapsed, 2, n + 1);
        }
        lemma_share_step(used_term(reach, elapsed, n), weight);
    }
}

/// The terms of the norm lie between nothing and a sixth; the norm itself
/// is a sixth at least.
pub proof fn lemma_norm_range(steep: int, n: int)
    requires
        0 <= steep <= 3 * SERIES_ONE,
    ensures
        0 <= norm_term(steep, n) <= SERIES_ONE / 6,
        0 <= norm_sum(steep, n),
        3 <= n ==> SERIES_ONE / 6 <= norm_sum(steep, n),
        0 <= n <= SHARE_TERMS ==> norm_sum(steep, n) <= 5 * n * SERIES_ONE,
    decreases n,
{
    if n > 3 {
        lemma_norm_range(steep, n - 1);
        lemma_term_step(norm_term(steep, n - 1), steep, n);
    }
    if n >= 3 {
        if n == 3 {
            assert(norm_sum(steep, 2) == 0);
        } else {
            lemma_norm_range(steep, n - 1);
        }
        let t = norm_term(steep, n);
        assert(0 <= (n - 2) * t) by (nonlinear_arith)
            requires
                n >= 3,
                t >= 0,
        ;
        assert(n <= 30 ==> (n - 2) * t <= 28 * 166_666_666_666) by (nonlinear_arith)
            requires
                n >= 3,
                0 <= t <= 166_666_666_666,
        ;
    }
}

/// The growth factor lies between nothing and a little over fifty-two
/// where the steepness is three at most.
pub proof fn lemma_growth_range(s: int, x: int)
    requires
        0 <= s <= ONE,
        0 <= x <= EXP_FINE_REACH,
    ensures
        0 <= x - fx_mul(x, s) <= x,
        0 <= series_growth(s, x) <= 52_631_578_947_368,
{
    crate::fixed::lemma_fx_share(x, s, ONE as int);
    assert(fx_mul(x, s) == crate::fixed::fx_mul_div(x, s, ONE as int));
    let left = x - fx_mul(x, s);
    lemma_exp_fine_floor(left);
    let whole = SERIES_ONE * SERIES_ONE;
    assert(whole == 1_000_000_000_000_000_000_000_000);
    lemma_div_pos_is_pos(whole, exp_fine(left));
    lemma_div_is_ordered_by_denominator(whole, 19_000_000_000, exp_fine(left));
}

/// Both shares are nothing at the start, and the activity is never
/// negative.
pub proof fn lemma_series_shares(s: int, x: int)
    requires
        0 <= s <= ONE,
        0 <= x <= EXP_FINE_REACH,
    ensures
        0 <= series_used_share(s, x) <= ONE,
        0 <= series_activity_share(s, x),
        s == 0 ==> series_used_share(s, x) == 0 && series_activity_share(s, x) == 0,
{
    let fine = s * 1_000_000;
    let whole = SERIES_ONE as int;
    let norm = norm_sum(x * 1_000_000, SHARE_TERMS as int);
    let growth = series_growth(s, x);
    lemma_norm_range(x * 1_000_000, SHARE_TERMS as int);
    lemma_growth_range(s, x);
    let bow = (fine * (whole - fine)) / whole;
    lemma_share_step(fine, whole - fine);
    let acting = (bow * growth) / whole;
    assert(0 <= bow * growth) by (nonlinear_arith)
        requires
            0 <= bow,
            0 <= growth,
    ;
    lemma_div_pos_is_pos(bow * growth, whole);
    assert(0 <= acting * ONE);
    crate::fixed::lemma_div_round_bounds(acting * ONE, norm);
    if s == 0 {
        assert(x * s == 0) by (nonlinear_arith)
            requires
                s == 0,
        ;
        lemma_used_range(0, 0, SHARE_TERMS as int);
        assert(0 * growth == 0 && bow * growth == 0) by (nonlinear_arith)
            requires
                bow == 0,
        ;
        crate::fixed::lemma_div_round_exact(0, norm);
        assert(0 * norm == 0);
    }
}

/// The series of what has acted, summed to its last term.
fn used_series(reach: i128, elapsed: i128) -> (r: i128)
    requires
        0 <= elapsed <= SERIES_ONE,
        0 <= reach <= 3 * SERIES_ONE,
    ensures
        r == used_sum(reach as int, elapsed as int, SHARE_TERMS as int),
        0 <= r <= SHARE_TERMS * SERIES_ONE,
{
    proof {
        lemma_used_range(reach as int, elapsed as int, 2);
        lemma_share_step(elapsed as int, elapsed as int);
        assert(used_sum(reach as int, elapsed as int, 1) == 0);
        lemma_div_pos_is_pos(2 * elapsed, 3);
        lemma_div_is_ordered_by_denominator(2 * elapsed, 2, 3);
        lemma_share_step(
            used_term(reach as int, elapsed as int, 2),
            SERIES_ONE - (2 * elapsed) / 3,
        );
    }
    let mut term: i128 = (elapsed * elapsed) / (2 * SERIES_ONE);
    let mut total: i128 = (term * (SERIES_ONE - (2 * elapsed) / 3)) / SERIES_ONE;
    let mut n: i128 = 3;
    while n <= SHARE_TERMS
        invariant
            3 <= n <= SHARE_TERMS + 1,
            0 <= elapsed <= SERIES_ONE,
            0 <= reach <= 3 * SERIES_ONE,
            term == used_term(reach as int, elapsed as int, n - 1),
            total == used_sum(reach as int, elapsed as int, n - 1),
        decreases SHARE_TERMS + 1 - n,
    {
        proof {
            lemma_used_range(reach as int, elapsed as int, n - 1);
            lemma_used_range(reach as int, elapsed as int, n as int);
            lemma_term_step(term as int, reach as int, n as int);
            lemma_div_pos_is_pos(2 * elapsed, n + 1);
            lemma_div_is_ordered_by_denominator(2 * elapsed, 2, n + 1);
            lemma_share_step(
                used_term(reach as int, elapsed as int, n as int),
                SERIES_ONE - (2 * elapsed) / (n + 1),
            );
        }
        term = (term * reach) / (n * SERIES_ONE);
        total = total + (term * (SERIES_ONE - (2 * elapsed) / (n + 1))) / SERIES_ONE;
        n += 1;
    }
    proof {
        lemma_used_range(reach as int, elapsed as int, SHARE_TERMS as int);
    }
    total
}

/// The norm, summed to its last term.
fn norm_series(steep: i128) -> (r: i128)
    requires
        0 <= steep <= 3 * SERIES_ONE,
    ensures
        r == norm_sum(steep as int, SHARE_TERMS as int),
        SERIES_ONE / 6 <= r <= 5 * SHARE_TERMS * SERIES_ONE,
{
    proof {
        assert(norm_sum(steep as int, 2) == 0);
    }
    let mut term: i128 = SERIES_ONE / 6;
    let mut total: i128 = term;
    let mut n: i128 = 4;
    while n <= SHARE_TERMS
        invariant
            4 <= n <= SHARE_TERMS + 1,
            0 <= steep <= 3 * SERIES_ONE,
            term == norm_term(steep as int, n - 1),
            total == norm_sum(steep as int, n - 1),
        decreases SHARE_TERMS + 1 - n,
    {
        proof {
            lemma_norm_range(steep as int, n - 1);
            lemma_norm_range(steep as int, n as int);
            lemma_term_step(term as int, steep as int, n as int);
            assert(0 <= (n - 2) * norm_term(steep as int, n as int) <= 28 * 166_666_666_666)
                by (nonlinear_arith)
                requires
                    4 <= n <= 30,
                    0 <= norm_term(steep as int, n as int) <= 166_666_666_666,
            ;
        }
        term = (term * steep) / (n * SERIES_ONE);
        total = total + (n - 2) * term;
        n += 1;
    }
    proof {
        lemma_norm_range(steep as int, SHARE_TERMS as int);
    }
    total
}

/// The share of a dose that has acted, and what acts of a unit per unit of
/// the elapsed share, when the share `s` of the action has passed under a
/// curve of steepness `x`.
pub(crate) fn series_shares(s: i64, x: i64) -> (r: (i64, i64))
    requires
        0 <= s <= ONE,
        0 <= x <= EXP_FINE_REACH,
    ensures
        r.0 == series_used_share(s as int, x as int),
        r.1 == series_activity_share(s as int, x as int),
        0 <= r.0 <= ONE,
        0 <= r.1,
        s == 0 ==> r.0 == 0 && r.1 == 0,
{
    proof {
        lemma_series_shares(s as int, x as int);
        lemma_growth_range(s as int, x as int);
        lemma_exp_fine_floor(x - fx_mul(x as int, s as int));
        crate::fixed::lemma_mul_bounds(x as int, s as int, 3_000_000, 1_000_000);
        assert(0 <= x * s) by (nonlinear_arith)
            requires
                0 <= x,
                0 <= s,
        ;
    }
    let left: i64 = x - mul_fx(x, s);
    let growth: i128 = (SERIES_ONE * SERIES_ONE) / exp_fine_fx(left);
    let fine: i128 = (s as i128) * 1_000_000;
    let norm: i128 = norm_series((x as i128) * 1_000_000);
    let summed: i128 = used_series((x as i128) * (s as i128), fine);
    proof {
        crate::fixed::lemma_mul_bounds(
            summed as int,
            growth as int,
            30_000_000_000_000,
            52_631_578_947_368,
        );
        assert(0 <= summed * growth) by (nonlinear_arith)
            requires
                0 <= summed,
                0 <= growth,
        ;
        lemma_div_pos_is_pos(summed * growth, SERIES_ONE as int);
        lemma_div_is_ordered(
            summed * growth,
            30_000_000_000_000int * 52_631_578_947_368,
            SERIES_ONE as int,
        );
    }
    let acted: i128 = (summed * growth) / SERIES_ONE;
    let share: i128 = div_round_exec(acted * 1_000_000, norm);
    let used: i128 = if share < 0 {
        0
    } else if share > 1_000_000 {
        1_000_000
    } else {
        share
    };
    proof {
        lemma_share_step(fine as int, SERIES_ONE - fine);
        let bow = (fine * (SERIES_ONE - fine)) / (SERIES_ONE as int);
        crate::fixed::lemma_mul_bounds(bow, growth as int, 1_000_000_000_000, 52_631_578_947_368);
        assert(0 <= bow * growth) by (nonlinear_arith)
            requires
                0 <= bow,
                0 <= growth,
        ;
        lemma_div_pos_is_pos(bow * growth, SERIES_ONE as int);
        lemma_div_is_ordered(
            bow * growth,
            1_000_000_000_000int * 52_631_578_947_368,
            SERIES_ONE as int,
        );
    }
    let bow: i128 = (fine * (SERIES_ONE - fine)) / SERIES_ONE;
    let acting: i128 = (bow * growth) / SERIES_ONE;
    (used as i64, saturate(div_round_exec(acting * 1_000_000, norm)))
}

} // verus!
