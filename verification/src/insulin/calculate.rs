//! What one dose of insulin contributes to insulin on board and to insulin
//! activity, some minutes after it was given.
//!
//! The bilinear curve is two quadratic pieces with fixed coefficients. The
//! exponential curve has the time of peak activity as a parameter; its
//! shape depends on the steepness `end / tau` alone. A steep curve is
//! evaluated in closed form. A flat one, whose peak lies near the middle
//! of the action, is evaluated as the quotient of two series (see
//! `series`), and a peak behind the middle gives the curve of the peak
//! that lies as far before the middle, run backwards. So every peak time
//! has a curve that starts with the whole dose on board and ends with
//! none.

use super::InsulinCurve;
use super::series::lemma_series_shares;
use super::series::series_activity_share;
use super::series::series_shares;
use super::series::series_used_share;
use crate::exp::exp_neg;
use crate::fixed::clamp;
use crate::fixed::min_fx;
use crate::exp::exp_neg_fx;
use crate::fixed::abs_of;
use crate::fixed::add_fx;
use crate::fixed::div_fx;
use crate::fixed::div_int_fx;
use crate::fixed::div_round;
use crate::fixed::div_round_exec;
use crate::fixed::fx_add;
use crate::fixed::fx_div;
use crate::fixed::fx_div_int;
use crate::fixed::fx_from_int;
use crate::fixed::fx_mul;
use crate::fixed::fx_mul_div;
use crate::fixed::fx_scale;
use crate::fixed::fx_sub;
use crate::fixed::from_int_fx;
use crate::fixed::max_fx;
use crate::fixed::max_of;
use crate::fixed::mul_div_fx;
use crate::fixed::mul_fx;
use crate::fixed::sat;
use crate::fixed::scale_fx;
use crate::fixed::sub_fx;
use crate::fixed::ONE;
use crate::types::IOBContrib;
use vstd::prelude::*;

verus! {

/// The bilinear curve: activity rises in a straight line to its peak and
/// falls in a straight line to zero. Times are scaled so that the profile's
/// duration of insulin action maps to the curve's three hours.
pub struct BilinearCurve;

/// The exponential curve, with the duration of insulin action and the time
/// of peak activity as parameters.
pub struct ExponentialCurve;

/// Reference duration of the bilinear curve, hours.
pub const BILINEAR_DIA: i64 = 3_000_000;

/// Peak of the bilinear curve in scaled minutes.
pub const BILINEAR_PEAK: i64 = 75_000_000;

/// End of the bilinear curve in scaled minutes.
pub const BILINEAR_END: i64 = 180_000_000;

/// Minutes from the peak of the bilinear curve to its end.
pub const BILINEAR_FALL: i64 = 105_000_000;

/// Shortest duration of the exponential curve, hours.
pub const EXPONENTIAL_MIN_DIA: i64 = 5_000_000;

/// One million millionths squared: the divisor after a product of three
/// quantities of which two are multiplied exactly.
pub const ONE_SQUARED: i64 = 1_000_000_000_000;

/// The minutes since the dose on the curve's own time scale.
pub open spec fn bilinear_scaled(mins_ago: int, dia: int) -> int {
    fx_mul_div(mins_ago, BILINEAR_DIA as int, max_of(dia, BILINEAR_DIA as int))
}

/// Activity at the peak per unit of insulin: the triangle of activity has
/// area one over the duration of insulin action.
pub open spec fn bilinear_activity_peak(dia: int) -> int {
    fx_div(2_000_000, fx_scale(max_of(dia, BILINEAR_DIA as int), 60))
}

/// The share of a dose still on board before the peak, `scaled` minutes of
/// the curve after it was given: `1 - 0.001852 x (x - 1)` with
/// `x = scaled / 5 + 1`.
pub open spec fn bilinear_rising_share(scaled: int) -> int {
    let x = fx_add(fx_div_int(scaled, 5), ONE as int);
    ONE - div_round(1852 * (x * (x - ONE)), ONE_SQUARED as int)
}

/// The share of a dose still on board after the peak:
/// `0.55556 - y (0.054233 - 0.001323 y)` with `y = (scaled - 75) / 5`.
pub open spec fn bilinear_falling_share(scaled: int) -> int {
    let y = fx_div_int(fx_sub(scaled, BILINEAR_PEAK as int), 5);
    555_560 - div_round(y * (54_233_000_000 - 1323 * y), ONE_SQUARED as int)
}

/// The bilinear contribution of `insulin` units given `mins_ago` minutes
/// ago; nothing for no insulin, for a dose yet to come, or from the end of
/// the action on.
#[verifier::opaque]
pub open spec fn bilinear_contrib(insulin: int, mins_ago: int, dia: int) -> IOBContrib {
    let scaled = bilinear_scaled(mins_ago, dia);
    let peak = bilinear_activity_peak(dia);
    if insulin <= 0 || mins_ago < 0 {
        IOBContrib { iob_contrib: 0, activity_contrib: 0 }
    } else if scaled < BILINEAR_PEAK {
        IOBContrib {
            iob_contrib: fx_mul(insulin, bilinear_rising_share(scaled)) as i64,
            activity_contrib: fx_mul(insulin, fx_mul_div(peak, scaled, BILINEAR_PEAK as int)) as i64,
        }
    } else if scaled < BILINEAR_END {
        IOBContrib {
            iob_contrib: fx_mul(insulin, bilinear_falling_share(scaled)) as i64,
            activity_contrib: fx_mul(
                insulin,
                fx_sub(
                    peak,
                    fx_mul_div(peak, fx_sub(scaled, BILINEAR_PEAK as int), BILINEAR_FALL as int),
                ),
            ) as i64,
        }
    } else {
        IOBContrib { iob_contrib: 0, activity_contrib: 0 }
    }
}

/// End of the exponential curve, minutes.
pub open spec fn exponential_end(dia: int) -> int {
    fx_scale(max_of(dia, EXPONENTIAL_MIN_DIA as int), 60)
}

/// The time of peak activity in minutes.
pub open spec fn exponential_peak(peak: int) -> int {
    fx_from_int(peak)
}

/// How long the action lasts beyond the peak; negative for a peak behind
/// the end.
pub open spec fn exponential_room(end: int, peak: int) -> int {
    fx_sub(end, exponential_peak(peak))
}

/// How far the end of the action lies behind twice the peak; negative for
/// a peak behind the middle.
pub open spec fn exponential_span(end: int, peak: int) -> int {
    fx_sub(end, fx_scale(exponential_peak(peak), 2))
}

/// Time constant of the decay, `tp (end - tp) / (end - 2 tp)`, without its
/// sign. Where the formula divides by nothing or comes to nothing it is
/// held at a bound: for a peak in the middle of the action at the greatest
/// quantity, for a peak at nothing or at the end at a millionth of a
/// minute.
pub open spec fn exponential_tau(end: int, peak: int) -> int {
    let span = exponential_span(end, peak);
    if span == 0 {
        crate::fixed::LIMIT as int
    } else {
        max_of(
            fx_mul_div(
                exponential_peak(peak),
                abs_of(exponential_room(end, peak)),
                abs_of(span),
            ),
            1,
        )
    }
}

/// Whether the time constant of the formula is negative: the peak lies
/// behind the middle of the action and before its end. The curve is then
/// the one for the peak as far before the end as this one is behind the
/// start, run backwards. A peak at the very end counts as one just before
/// it: the dose stays on board until its action ends.
pub open spec fn exponential_mirrored(end: int, peak: int) -> bool {
    exponential_span(end, peak) < 0 && exponential_room(end, peak) >= 0
}

/// The steepness of the curve, `end / tau`. It falls to nothing as the
/// peak nears the middle of the action.
pub open spec fn exponential_steepness(end: int, tau: int) -> int {
    fx_div(end, tau)
}

/// From this steepness on the curve is taken in its closed form; below it,
/// as the quotient of two series. It is eight thirds, where the rise time
/// factor is three quarters.
pub const STEEP_FROM: i64 = 2_666_667;

/// The rise time factor `a = 2 tau / end`.
pub open spec fn exponential_rise(end: int, tau: int) -> int {
    fx_div(fx_scale(tau, 2), end)
}

/// What the scale factor divides one by: `1 - a + (1 + a) e^(-end / tau)`.
pub open spec fn exponential_norm(end: int, tau: int) -> int {
    let a = exponential_rise(end, tau);
    fx_add(fx_sub(ONE as int, a), fx_mul(fx_add(ONE as int, a), exp_neg(fx_div(end, tau))))
}

/// The share of a dose that has acted after `mins_ago` minutes, in closed
/// form: `S ((u v - (1 - a)(u + 1)) e^(-u) + (1 - a))` with `u = m / tau`,
/// `v = m / end` and `S` one over the norm; held between nothing and all.
pub open spec fn exponential_used_share(mins_ago: int, end: int, tau: int) -> int {
    let rest = fx_sub(ONE as int, exponential_rise(end, tau));
    let scale = fx_div(ONE as int, exponential_norm(end, tau));
    let u = fx_div(mins_ago, tau);
    let v = fx_div(mins_ago, end);
    let w = fx_sub(fx_mul(u, v), fx_mul(rest, fx_add(u, ONE as int)));
    clamp(fx_mul(scale, fx_add(fx_mul(w, exp_neg(u)), rest)), 0, ONE as int)
}

/// Activity per unit of insulin after `mins_ago` minutes, in closed form
/// and times `tau`: `S u (1 - v) e^(-u)`.
pub open spec fn exponential_activity_share(mins_ago: int, end: int, tau: int) -> int {
    let scale = fx_div(ONE as int, exponential_norm(end, tau));
    let u = fx_div(mins_ago, tau);
    let v = fx_div(mins_ago, end);
    fx_mul(fx_mul(fx_mul(scale, u), fx_sub(ONE as int, v)), exp_neg(u))
}

/// The share of a dose that has acted `at` minutes into an action that
/// lasts `end` minutes with time constant `tau`: nothing at the start, all
/// of it at the end. A steep curve is taken in its closed form, a flat one
/// as the quotient of two series.
pub open spec fn used_share_at(at: int, end: int, tau: int) -> int {
    let steep = exponential_steepness(end, tau);
    if at <= 0 {
        0
    } else if at >= end {
        ONE as int
    } else if steep >= STEEP_FROM {
        exponential_used_share(at, end, tau)
    } else {
        series_used_share(fx_div(at, end), steep)
    }
}

/// What acts of `insulin` units per minute, `at` minutes into the action:
/// nothing at the start and at the end.
pub open spec fn acting_at(insulin: int, at: int, end: int, tau: int) -> int {
    let steep = exponential_steepness(end, tau);
    if at <= 0 || at >= end {
        0
    } else if steep >= STEEP_FROM {
        fx_div(fx_mul(insulin, exponential_activity_share(at, end, tau)), tau)
    } else {
        fx_div(fx_mul(insulin, series_activity_share(fx_div(at, end), steep)), end)
    }
}

/// The exponential contribution of `insulin` units given `mins_ago` minutes
/// ago; nothing for no insulin, for a dose yet to come and from the end of
/// the action on. Every peak time has its curve: where the time constant
/// of the formula is negative, what has acted after `m` minutes is what is
/// left, under the curve run backwards, after `end - m`.
#[verifier::opaque]
pub open spec fn exponential_contrib(insulin: int, mins_ago: int, dia: int, peak: int) -> IOBContrib {
    let end = exponential_end(dia);
    let tau = exponential_tau(end, peak);
    let mirrored = exponential_mirrored(end, peak);
    let at = if mirrored {
        end - mins_ago
    } else {
        mins_ago
    };
    let used = if mirrored {
        ONE - used_share_at(at, end, tau)
    } else {
        used_share_at(at, end, tau)
    };
    if insulin <= 0 || mins_ago < 0 || mins_ago >= end {
        IOBContrib { iob_contrib: 0, activity_contrib: 0 }
    } else {
        IOBContrib {
            iob_contrib: fx_mul(insulin, fx_sub(ONE as int, used)) as i64,
            activity_contrib: acting_at(insulin, at, end, tau) as i64,
        }
    }
}

/// The contribution of `insulin` units given `mins_ago` minutes ago under
/// `curve`.
pub open spec fn iob_contrib_of(
    insulin: int,
    mins_ago: int,
    curve: InsulinCurve,
    dia: int,
    peak: int,
) -> IOBContrib {
    match curve {
        InsulinCurve::Bilinear => bilinear_contrib(insulin, mins_ago, dia),
        _ => exponential_contrib(insulin, mins_ago, dia, peak),
    }
}

/// The end of the action of a dose under `curve`, minutes.
pub open spec fn action_end(curve: InsulinCurve, dia: int) -> int {
    match curve {
        InsulinCurve::Bilinear => fx_scale(max_of(dia, BILINEAR_DIA as int), 60),
        _ => exponential_end(dia),
    }
}

/// The end of the exponential curve is five hours at least, and the share
/// of the action that has passed before it is one at most.
pub proof fn lemma_elapsed_share(mins_ago: int, dia: int)
    requires
        0 <= mins_ago < exponential_end(dia),
    ensures
        300_000_000 <= exponential_end(dia) <= crate::fixed::LIMIT,
        0 <= fx_div(mins_ago, exponential_end(dia)) <= ONE,
        mins_ago == 0 ==> fx_div(mins_ago, exponential_end(dia)) == 0,
{
    let end = exponential_end(dia);
    crate::fixed::lemma_fx_scale_monotone(EXPONENTIAL_MIN_DIA as int, max_of(dia, EXPONENTIAL_MIN_DIA as int), 60);
    assert(fx_scale(EXPONENTIAL_MIN_DIA as int, 60) == 300_000_000);
    crate::fixed::lemma_fx_signs(mins_ago, 0, end);
    crate::fixed::lemma_fx_div_monotone(mins_ago, end, end);
    crate::fixed::lemma_sat(end, end);
    crate::fixed::lemma_div_round_exact(1_000_000, end);
    assert(sat(end) * 1_000_000 == 1_000_000 * end);
    crate::fixed::lemma_fx_zero(0, end);
}

/// The time constant lies between a millionth of a minute and the
/// greatest quantity, and the steepness is never negative.
pub proof fn lemma_time_constant(dia: int, peak: int)
    ensures
        1 <= exponential_tau(exponential_end(dia), peak) <= crate::fixed::LIMIT,
        exponential_steepness(
            exponential_end(dia),
            exponential_tau(exponential_end(dia), peak),
        ) >= 0,
{
    let end = exponential_end(dia);
    let tau = exponential_tau(end, peak);
    lemma_elapsed_share(0, dia);
    crate::fixed::lemma_fx_signs(end, 0, tau);
}

/// The share that has acted lies between nothing and all, and what acts is
/// never negative.
pub proof fn lemma_shares_at(insulin: int, at: int, dia: int, peak: int)
    requires
        insulin >= 0,
    ensures
        0 <= used_share_at(at, exponential_end(dia), exponential_tau(exponential_end(dia), peak))
            <= ONE,
        0 <= acting_at(
            insulin,
            at,
            exponential_end(dia),
            exponential_tau(exponential_end(dia), peak),
        ) <= crate::fixed::LIMIT,
{
    let end = exponential_end(dia);
    let tau = exponential_tau(end, peak);
    let steep = exponential_steepness(end, tau);
    lemma_time_constant(dia, peak);
    if 0 < at < end {
        lemma_elapsed_share(at, dia);
        let v = fx_div(at, end);
        if steep >= STEEP_FROM {
            lemma_steep_norm(end, tau);
            let scale = fx_div(ONE as int, exponential_norm(end, tau));
            let u = fx_div(at, tau);
            crate::fixed::lemma_fx_signs(ONE as int, 0, exponential_norm(end, tau));
            crate::fixed::lemma_fx_signs(at, 0, tau);
            crate::exp::lemma_exp_neg_range(u);
            crate::fixed::lemma_fx_signs(scale, u, 1);
            crate::fixed::lemma_fx_signs(fx_mul(scale, u), fx_sub(ONE as int, v), 1);
            crate::fixed::lemma_fx_signs(
                fx_mul(fx_mul(scale, u), fx_sub(ONE as int, v)),
                exp_neg(u),
                1,
            );
            let acting = exponential_activity_share(at, end, tau);
            crate::fixed::lemma_fx_signs(insulin, acting, 1);
            crate::fixed::lemma_fx_signs(fx_mul(insulin, acting), 0, tau);
        } else {
            lemma_series_shares(v, steep);
            let acting = series_activity_share(v, steep);
            crate::fixed::lemma_fx_signs(insulin, acting, 1);
            crate::fixed::lemma_fx_signs(fx_mul(insulin, acting), 0, end);
        }
    }
}

/// Where the curve is steep, its rise time factor is three quarters at
/// most and its norm a quarter at least.
pub proof fn lemma_steep_norm(end: int, tau: int)
    requires
        0 < end <= crate::fixed::LIMIT,
        0 < tau <= crate::fixed::LIMIT,
        fx_div(end, tau) >= STEEP_FROM,
    ensures
        0 <= exponential_rise(end, tau) <= 750_001,
        exponential_norm(end, tau) >= 249_999,
{
    let q = div_round(end * 1_000_000, tau);
    assert(sat(end) == end && sat(tau) == tau);
    assert(sat(end) * (ONE as int) == end * 1_000_000);
    assert(q >= 2_666_667);
    crate::fixed::lemma_div_round_bounds(end * 1_000_000, tau);
    assert(tau * 5_333_333 <= 2_000_000 * end) by (nonlinear_arith)
        requires
            2 * tau * q <= 2 * (end * 1_000_000) + tau,
            q >= 2_666_667,
            tau > 0,
    ;
    let twice = fx_scale(tau, 2);
    assert(twice == 2 * tau);
    assert(sat(twice) * (ONE as int) == 2_000_000 * tau);
    assert(2_000_000 * tau <= 750_001 * end);
    crate::fixed::lemma_div_round_monotone(2_000_000 * tau, 750_001 * end, end);
    crate::fixed::lemma_div_round_exact(750_001, end);
    crate::fixed::lemma_div_round_bounds(2_000_000 * tau, end);
    let a = exponential_rise(end, tau);
    assert(0 <= a <= 750_001);
    let decayed = exp_neg(fx_div(end, tau));
    crate::exp::lemma_exp_neg_range(fx_div(end, tau));
    crate::fixed::lemma_fx_signs(fx_add(ONE as int, a), decayed, 1);
}

/// A dose is wholly on board at the moment it is given, and none of it
/// acts yet.
pub proof fn lemma_whole_dose_at_start(insulin: int, curve: InsulinCurve, dia: int, peak: int)
    requires
        0 < insulin <= crate::fixed::LIMIT,
    ensures
        iob_contrib_of(insulin, 0, curve, dia, peak).iob_contrib == insulin,
        iob_contrib_of(insulin, 0, curve, dia, peak).activity_contrib == 0,
{
    reveal(bilinear_contrib);
    reveal(exponential_contrib);
    crate::fixed::lemma_fx_zero(insulin, 1);
    crate::fixed::lemma_div_round_exact(insulin, 1_000_000);
    crate::fixed::lemma_div_round_exact(0, 5);
    crate::fixed::lemma_div_round_exact(0, 1_000_000);
    crate::fixed::lemma_div_round_exact(0, ONE_SQUARED as int);
    match curve {
        InsulinCurve::Bilinear => {
            let long = max_of(dia, BILINEAR_DIA as int);
            crate::fixed::lemma_div_round_exact(0, long);
            assert(sat(0) * sat(BILINEAR_DIA as int) == 0) by (nonlinear_arith)
                requires
                    sat(0) == 0,
            ;
            assert(0 * long == 0);
            assert(bilinear_scaled(0, dia) == 0);
            assert(bilinear_rising_share(0) == ONE) by {
                let x = fx_add(fx_div_int(0, 5), ONE as int);
                assert(x == ONE);
                assert(1852 * (x * (x - ONE)) == 0) by (nonlinear_arith)
                    requires
                        x == ONE,
                ;
            }
        },
        _ => {
            lemma_elapsed_share(0, dia);
            crate::fixed::lemma_fx_one(insulin);
        },
    }
}

/// Nothing of a dose is on board, and nothing of it acts, from the end of
/// its action on.
pub proof fn lemma_nothing_after_action(
    insulin: int,
    mins_ago: int,
    curve: InsulinCurve,
    dia: int,
    peak: int,
)
    requires
        mins_ago >= action_end(curve, dia),
        curve == InsulinCurve::Bilinear ==> max_of(dia, BILINEAR_DIA as int) * 60
            <= crate::fixed::LIMIT,
    ensures
        iob_contrib_of(insulin, mins_ago, curve, dia, peak) == (IOBContrib {
            iob_contrib: 0,
            activity_contrib: 0,
        }),
{
    reveal(bilinear_contrib);
    reveal(exponential_contrib);
    if curve == InsulinCurve::Bilinear {
        let long = max_of(dia, BILINEAR_DIA as int);
        let end = fx_scale(long, 60);
        assert(end == long * 60);
        crate::fixed::lemma_sat(end, mins_ago);
        assert(sat(mins_ago) * 3_000_000 >= 180_000_000 * long) by (nonlinear_arith)
            requires
                sat(mins_ago) >= long * 60,
        ;
        crate::fixed::lemma_div_round_monotone(
            180_000_000 * long,
            sat(mins_ago) * 3_000_000,
            long,
        );
        crate::fixed::lemma_div_round_exact(180_000_000, long);
        assert(bilinear_scaled(mins_ago, dia) >= BILINEAR_END);
    }
}

/// Under the exponential curve, what is on board of a dose lies between
/// nothing and the dose.
pub proof fn lemma_exponential_on_board(insulin: int, mins_ago: int, dia: int, peak: int)
    ensures
        0 <= exponential_contrib(insulin, mins_ago, dia, peak).iob_contrib <= max_of(insulin, 0),
{
    reveal(exponential_contrib);
    let end = exponential_end(dia);
    let tau = exponential_tau(end, peak);
    if insulin > 0 && 0 <= mins_ago < end {
        let at = if exponential_mirrored(end, peak) {
            end - mins_ago
        } else {
            mins_ago
        };
        lemma_shares_at(insulin, at, dia, peak);
        let used = if exponential_mirrored(end, peak) {
            ONE - used_share_at(at, end, tau)
        } else {
            used_share_at(at, end, tau)
        };
        let left = fx_sub(ONE as int, used);
        assert(0 <= left <= ONE);
        crate::fixed::lemma_sat(insulin, insulin);
        crate::fixed::lemma_sat(sat(insulin), sat(insulin));
        crate::fixed::lemma_fx_share(sat(insulin), left, ONE as int);
        assert(fx_mul(insulin, left) == crate::fixed::fx_mul_div(sat(insulin), left, ONE as int));
    }
}

/// Insulin never acts backwards: the activity of a dose is never negative.
#[verifier::rlimit(30)]
pub proof fn lemma_activity_sign(
    insulin: int,
    mins_ago: int,
    curve: InsulinCurve,
    dia: int,
    peak: int,
)
    ensures
        iob_contrib_of(insulin, mins_ago, curve, dia, peak).activity_contrib >= 0,
        -(crate::fixed::LIMIT as int) <= iob_contrib_of(
            insulin,
            mins_ago,
            curve,
            dia,
            peak,
        ).iob_contrib <= crate::fixed::LIMIT,
        iob_contrib_of(insulin, mins_ago, curve, dia, peak).activity_contrib
            <= crate::fixed::LIMIT,
{
    reveal(bilinear_contrib);
    reveal(exponential_contrib);
    if insulin > 0 && mins_ago >= 0 {
        match curve {
            InsulinCurve::Bilinear => {
                let long = max_of(dia, BILINEAR_DIA as int);
                let scaled = bilinear_scaled(mins_ago, dia);
                let top = bilinear_activity_peak(dia);
                crate::fixed::lemma_fx_signs(mins_ago, BILINEAR_DIA as int, long);
                crate::fixed::lemma_sat(long * 60, long * 60);
                assert(fx_scale(long, 60) > 0);
                crate::fixed::lemma_fx_signs(2_000_000, 0, fx_scale(long, 60));
                if scaled < BILINEAR_PEAK {
                    crate::fixed::lemma_fx_signs(top, scaled, BILINEAR_PEAK as int);
                    crate::fixed::lemma_fx_signs(
                        insulin,
                        fx_mul_div(top, scaled, BILINEAR_PEAK as int),
                        1,
                    );
                } else if scaled < BILINEAR_END {
                    let past = fx_sub(scaled, BILINEAR_PEAK as int);
                    crate::fixed::lemma_fx_share(top, past, BILINEAR_FALL as int);
                    crate::fixed::lemma_fx_signs(
                        insulin,
                        fx_sub(top, fx_mul_div(top, past, BILINEAR_FALL as int)),
                        1,
                    );
                }
            },
            _ => {
                let end = exponential_end(dia);
                if mins_ago < end {
                    let at = if exponential_mirrored(end, peak) {
                        end - mins_ago
                    } else {
                        mins_ago
                    };
                    lemma_shares_at(insulin, at, dia, peak);
                }
            },
        }
    }
}

/// The scaled minutes up to which the falling half of the bilinear curve
/// never rises: 177.48.
pub const BILINEAR_TURN: i64 = 177_480_000;

/// Under the bilinear curve, what is on board of a dose never rises from an
/// earlier moment to a later one on the same side of the peak, up to the
/// last two and a half scaled minutes, where the curve turns.
pub proof fn lemma_bilinear_never_rises(insulin: int, earlier: int, later: int, dia: int)
    requires
        0 <= earlier <= later,
        bilinear_scaled(later, dia) <= BILINEAR_TURN,
        bilinear_scaled(earlier, dia) < BILINEAR_PEAK <==> bilinear_scaled(later, dia)
            < BILINEAR_PEAK,
    ensures
        bilinear_contrib(insulin, later, dia).iob_contrib <= bilinear_contrib(
            insulin,
            earlier,
            dia,
        ).iob_contrib,
{
    reveal(bilinear_contrib);
    if insulin > 0 {
        let long = max_of(dia, BILINEAR_DIA as int);
        let scaled_earlier = bilinear_scaled(earlier, dia);
        let scaled_later = bilinear_scaled(later, dia);
        crate::fixed::lemma_fx_mul_div_monotone(earlier, later, BILINEAR_DIA as int, long);
        crate::fixed::lemma_fx_mul_div_monotone(0, earlier, BILINEAR_DIA as int, long);
        crate::fixed::lemma_div_round_exact(0, long);
        assert(sat(0) * sat(BILINEAR_DIA as int) == 0) by (nonlinear_arith)
            requires
                sat(0) == 0,
        ;
        assert(0 * long == 0);
        assert(0 <= scaled_earlier <= scaled_later);
        if scaled_later < BILINEAR_PEAK {
            crate::fixed::lemma_div_round_monotone(scaled_earlier, scaled_later, 5);
            crate::fixed::lemma_div_round_bounds(scaled_earlier, 5);
            crate::fixed::lemma_div_round_bounds(scaled_later, 5);
            let steps_earlier = fx_add(fx_div_int(scaled_earlier, 5), ONE as int);
            let steps_later = fx_add(fx_div_int(scaled_later, 5), ONE as int);
            assert(1852 * (steps_earlier * (steps_earlier - ONE)) <= 1852 * (steps_later * (steps_later - ONE))) by (nonlinear_arith)
                requires
                    ONE <= steps_earlier <= steps_later,
            ;
            crate::fixed::lemma_div_round_monotone(
                1852 * (steps_earlier * (steps_earlier - ONE)),
                1852 * (steps_later * (steps_later - ONE)),
                ONE_SQUARED as int,
            );
            crate::fixed::lemma_fx_mul_monotone(
                bilinear_rising_share(scaled_later),
                bilinear_rising_share(scaled_earlier),
                insulin,
            );
        } else {
            let past_earlier = fx_sub(scaled_earlier, BILINEAR_PEAK as int);
            let past_later = fx_sub(scaled_later, BILINEAR_PEAK as int);
            crate::fixed::lemma_div_round_monotone(past_earlier, past_later, 5);
            crate::fixed::lemma_div_round_bounds(past_earlier, 5);
            crate::fixed::lemma_div_round_monotone(past_later, 102_480_000, 5);
            crate::fixed::lemma_div_round_exact(20_496_000, 5);
            let steps_earlier = fx_div_int(past_earlier, 5);
            let steps_later = fx_div_int(past_later, 5);
            assert(steps_earlier * (54_233_000_000 - 1323 * steps_earlier) <= steps_later * (54_233_000_000 - 1323 * steps_later))
                by (nonlinear_arith)
                requires
                    0 <= steps_earlier <= steps_later <= 20_496_000,
            {
                assert(steps_later * (54_233_000_000 - 1323 * steps_later) - steps_earlier * (54_233_000_000 - 1323 * steps_earlier) == (steps_later
                    - steps_earlier) * (54_233_000_000 - 1323 * (steps_earlier + steps_later)));
                assert(54_233_000_000 - 1323 * (steps_earlier + steps_later) >= 0);
            }
            crate::fixed::lemma_div_round_monotone(
                steps_earlier * (54_233_000_000 - 1323 * steps_earlier),
                steps_later * (54_233_000_000 - 1323 * steps_later),
                ONE_SQUARED as int,
            );
            crate::fixed::lemma_fx_mul_monotone(
                bilinear_falling_share(scaled_later),
                bilinear_falling_share(scaled_earlier),
                insulin,
            );
        }
    }
}

/// The share of a dose on board under the bilinear curve, `scaled` minutes
/// of the curve after it was given.
pub open spec fn bilinear_share(scaled: int) -> int {
    if scaled < BILINEAR_PEAK {
        bilinear_rising_share(scaled)
    } else if scaled < BILINEAR_END {
        bilinear_falling_share(scaled)
    } else {
        0
    }
}

/// The most by which the share on board may rise under the bilinear curve:
/// the curve's two halves do not meet at the peak, and the falling half
/// dips below nothing before the end.
pub const BILINEAR_SLACK: i64 = 340;

/// Before the peak the share on board is 0.55552 at least; behind it, it
/// lies between -0.000226 and 0.55556, and behind the turn it is 0.00011
/// at most.
pub proof fn lemma_bilinear_share_bounds(scaled: int)
    requires
        0 <= scaled,
    ensures
        scaled < BILINEAR_PEAK ==> 555_520 <= bilinear_share(scaled) <= ONE,
        scaled >= BILINEAR_PEAK ==> -226 <= bilinear_share(scaled) <= 555_560,
        scaled >= BILINEAR_TURN ==> bilinear_share(scaled) <= 110,
{
    if scaled < BILINEAR_PEAK {
        crate::fixed::lemma_div_round_bounds(scaled, 5);
        crate::fixed::lemma_div_round_monotone(scaled, 75_000_000, 5);
        crate::fixed::lemma_div_round_exact(15_000_000, 5);
        let x = fx_add(fx_div_int(scaled, 5), ONE as int);
        assert(ONE <= x <= 16_000_000);
        let product = 1852 * (x * (x - ONE));
        assert(0 <= product <= 444_480_000_000_000_000) by (nonlinear_arith)
            requires
                1_000_000 <= x <= 16_000_000,
                product == 1852 * (x * (x - 1_000_000)),
        ;
        crate::fixed::lemma_div_round_bounds(product, ONE_SQUARED as int);
        crate::fixed::lemma_div_round_monotone(
            product,
            444_480_000_000_000_000,
            ONE_SQUARED as int,
        );
        crate::fixed::lemma_div_round_exact(444_480, ONE_SQUARED as int);
    } else if scaled < BILINEAR_END {
        let past = fx_sub(scaled, BILINEAR_PEAK as int);
        assert(0 <= past < 105_000_000);
        crate::fixed::lemma_div_round_bounds(past, 5);
        crate::fixed::lemma_div_round_monotone(past, 105_000_000, 5);
        crate::fixed::lemma_div_round_exact(21_000_000, 5);
        let y = fx_div_int(past, 5);
        assert(0 <= y <= 21_000_000);
        let product = y * (54_233_000_000 - 1323 * y);
        assert(0 <= product <= 555_786_000_000_000_000) by (nonlinear_arith)
            requires
                0 <= y <= 21_000_000,
                product == y * (54_233_000_000 - 1323 * y),
        {
            assert(5292 * product + (2646 * y - 54_233_000_000) * (2646 * y - 54_233_000_000)
                == 54_233_000_000 * 54_233_000_000);
            assert((2646 * y - 54_233_000_000) * (2646 * y - 54_233_000_000) >= 0);
        }
        crate::fixed::lemma_div_round_bounds(product, ONE_SQUARED as int);
        crate::fixed::lemma_div_round_monotone(
            product,
            555_786_000_000_000_000,
            ONE_SQUARED as int,
        );
        crate::fixed::lemma_div_round_exact(555_786, ONE_SQUARED as int);
        if scaled >= BILINEAR_TURN {
            crate::fixed::lemma_div_round_monotone(102_480_000, past, 5);
            crate::fixed::lemma_div_round_exact(20_496_000, 5);
            assert(product >= 555_450_000_000_000_000) by (nonlinear_arith)
                requires
                    20_496_000 <= y <= 21_000_000,
                    product == y * (54_233_000_000 - 1323 * y),
            {
                assert(product - 555_450_000_000_000_000 == (21_000_000 - y) * (1323 * y
                    - 26_450_000_000));
                assert(1323 * y - 26_450_000_000 >= 0);
            }
            crate::fixed::lemma_div_round_monotone(
                555_450_000_000_000_000,
                product,
                ONE_SQUARED as int,
            );
            crate::fixed::lemma_div_round_exact(555_450, ONE_SQUARED as int);
        }
    }
}

/// The share by which the falling half of the bilinear curve may dip below
/// nothing before the end: 0.000226.
pub const BILINEAR_DIP: i64 = 226;

/// Under the bilinear curve, what is on board of a dose is the dose at
/// most, and falls below nothing by 0.000226 of the dose at most.
pub proof fn lemma_bilinear_on_board(insulin: int, mins_ago: int, dia: int)
    requires
        insulin <= crate::fixed::LIMIT,
    ensures
        fx_mul(max_of(insulin, 0), -(BILINEAR_DIP as int)) <= bilinear_contrib(
            insulin,
            mins_ago,
            dia,
        ).iob_contrib <= max_of(insulin, 0),
{
    reveal(bilinear_contrib);
    crate::fixed::lemma_fx_zero(-(BILINEAR_DIP as int), 1);
    if insulin > 0 {
        crate::fixed::lemma_fx_mul_monotone(-(BILINEAR_DIP as int), 0, insulin);
        crate::fixed::lemma_fx_zero(insulin, 1);
    }
    if insulin > 0 && mins_ago >= 0 {
        let long = max_of(dia, BILINEAR_DIA as int);
        let scaled = bilinear_scaled(mins_ago, dia);
        crate::fixed::lemma_fx_mul_div_monotone(0, mins_ago, BILINEAR_DIA as int, long);
        crate::fixed::lemma_fx_zero(BILINEAR_DIA as int, long);
        crate::fixed::lemma_fx_zero(insulin, 1);
        lemma_bilinear_share_bounds(scaled);
        let share = bilinear_share(scaled);
        assert(bilinear_contrib(insulin, mins_ago, dia).iob_contrib == fx_mul(insulin, share));
        crate::fixed::lemma_fx_mul_monotone(-(BILINEAR_DIP as int), share, insulin);
        crate::fixed::lemma_fx_mul_monotone(share, ONE as int, insulin);
        crate::fixed::lemma_fx_one(insulin);
    }
}

/// A share that is greater by `slack` at most gives an amount that is
/// greater by that share of the dose at most, and a millionth for rounding.
pub proof fn lemma_share_slack(insulin: int, lower: int, upper: int, slack: int)
    requires
        0 <= insulin <= crate::fixed::LIMIT,
        -(ONE as int) <= lower <= ONE,
        -(ONE as int) <= upper <= ONE,
        0 <= slack <= ONE,
        upper <= lower + slack,
    ensures
        fx_mul(insulin, upper) <= fx_mul(insulin, lower) + fx_mul(insulin, slack) + 1,
{
    let one = ONE as int;
    assert(sat(insulin) == insulin && sat(lower) == lower && sat(upper) == upper && sat(slack)
        == slack);
    crate::fixed::lemma_div_round_bounds(insulin * lower, one);
    crate::fixed::lemma_div_round_bounds(insulin * upper, one);
    crate::fixed::lemma_div_round_bounds(insulin * slack, one);
    crate::fixed::lemma_mul_bounds(insulin, lower, crate::fixed::LIMIT as int, one);
    crate::fixed::lemma_mul_bounds(insulin, upper, crate::fixed::LIMIT as int, one);
    crate::fixed::lemma_mul_bounds(insulin, slack, crate::fixed::LIMIT as int, one);
    assert(insulin * upper <= insulin * lower + insulin * slack) by (nonlinear_arith)
        requires
            0 <= insulin,
            upper <= lower + slack,
    ;
    let whole = crate::fixed::LIMIT * one;
    crate::fixed::lemma_div_round_monotone(insulin * lower, whole, one);
    crate::fixed::lemma_div_round_monotone(-whole, insulin * lower, one);
    crate::fixed::lemma_div_round_monotone(insulin * upper, whole, one);
    crate::fixed::lemma_div_round_monotone(-whole, insulin * upper, one);
    crate::fixed::lemma_div_round_monotone(insulin * slack, whole, one);
    crate::fixed::lemma_div_round_monotone(-whole, insulin * slack, one);
    crate::fixed::lemma_div_round_exact(crate::fixed::LIMIT as int, one);
    crate::fixed::lemma_div_round_exact(-(crate::fixed::LIMIT as int), one);
}

/// Under the bilinear curve, what is on board of a dose at a later moment
/// exceeds what is on board at an earlier one by 0.00034 of the dose at
/// most, and a millionth for rounding.
pub proof fn lemma_bilinear_hardly_rises(insulin: int, earlier: int, later: int, dia: int)
    requires
        0 <= earlier <= later,
        insulin <= crate::fixed::LIMIT,
    ensures
        bilinear_contrib(insulin, later, dia).iob_contrib <= bilinear_contrib(
            insulin,
            earlier,
            dia,
        ).iob_contrib + fx_mul(max_of(insulin, 0), BILINEAR_SLACK as int) + 1,
{
    reveal(bilinear_contrib);
    crate::fixed::lemma_fx_zero(BILINEAR_SLACK as int, 1);
    if insulin > 0 {
        let long = max_of(dia, BILINEAR_DIA as int);
        let scaled_earlier = bilinear_scaled(earlier, dia);
        let scaled_later = bilinear_scaled(later, dia);
        crate::fixed::lemma_fx_mul_div_monotone(earlier, later, BILINEAR_DIA as int, long);
        crate::fixed::lemma_fx_mul_div_monotone(0, earlier, BILINEAR_DIA as int, long);
        crate::fixed::lemma_fx_zero(BILINEAR_DIA as int, long);
        crate::fixed::lemma_fx_zero(insulin, 1);
        assert(0 <= scaled_earlier <= scaled_later);
        lemma_bilinear_share_bounds(scaled_earlier);
        lemma_bilinear_share_bounds(scaled_later);
        let share_earlier = bilinear_share(scaled_earlier);
        let share_later = bilinear_share(scaled_later);
        assert(bilinear_contrib(insulin, earlier, dia).iob_contrib == fx_mul(
            insulin,
            share_earlier,
        ));
        assert(bilinear_contrib(insulin, later, dia).iob_contrib == fx_mul(insulin, share_later));
        if scaled_later <= BILINEAR_TURN && (scaled_earlier < BILINEAR_PEAK <==> scaled_later
            < BILINEAR_PEAK) {
            lemma_bilinear_never_rises(insulin, earlier, later, dia);
            crate::fixed::lemma_fx_signs(insulin, BILINEAR_SLACK as int, 1);
        } else {
            assert(share_later <= share_earlier + BILINEAR_SLACK);
            lemma_share_slack(insulin, share_earlier, share_later, BILINEAR_SLACK as int);
        }
    }
}

impl BilinearCurve {
    /// The contribution of `insulin` units given `mins_ago` minutes ago,
    /// with `dia` hours of insulin action.
    pub fn calculate(insulin: i64, mins_ago: i64, dia: i64) -> (r: IOBContrib)
        ensures
            r == bilinear_contrib(insulin as int, mins_ago as int, dia as int),
            r.activity_contrib >= 0,
            insulin <= crate::fixed::LIMIT ==> fx_mul(
                max_of(insulin as int, 0),
                -(BILINEAR_DIP as int),
            ) <= r.iob_contrib <= max_of(insulin as int, 0),
            insulin <= 0 || mins_ago < 0 ==> r.iob_contrib == 0 && r.activity_contrib == 0,
            mins_ago >= fx_scale(max_of(dia as int, BILINEAR_DIA as int), 60) && max_of(
                dia as int,
                BILINEAR_DIA as int,
            ) * 60 <= crate::fixed::LIMIT ==> r.iob_contrib == 0 && r.activity_contrib == 0,
            mins_ago == 0 && 0 < insulin <= crate::fixed::LIMIT ==> r.iob_contrib == insulin
                && r.activity_contrib == 0,
    {
        proof {
            if insulin <= crate::fixed::LIMIT {
                lemma_bilinear_on_board(insulin as int, mins_ago as int, dia as int);
            }
            if mins_ago == 0 && 0 < insulin <= crate::fixed::LIMIT {
                lemma_whole_dose_at_start(insulin as int, InsulinCurve::Bilinear, dia as int, 0);
            }
            if mins_ago >= fx_scale(max_of(dia as int, BILINEAR_DIA as int), 60) && max_of(
                dia as int,
                BILINEAR_DIA as int,
            ) * 60 <= crate::fixed::LIMIT {
                lemma_nothing_after_action(
                    insulin as int,
                    mins_ago as int,
                    InsulinCurve::Bilinear,
                    dia as int,
                    0,
                );
            }
            reveal(bilinear_contrib);
            lemma_activity_sign(
                insulin as int,
                mins_ago as int,
                InsulinCurve::Bilinear,
                dia as int,
                0,
            );
        }
        if insulin <= 0 || mins_ago < 0 {
            return IOBContrib::zero();
        }
        let dia: i64 = max_fx(dia, BILINEAR_DIA);
        let scaled: i64 = mul_div_fx(mins_ago, BILINEAR_DIA, dia);
        let peak: i64 = div_fx(2_000_000, scale_fx(dia, 60));
        proof {
            assert(sat(mins_ago as int) * 3_000_000 >= 0) by (nonlinear_arith)
                requires
                    sat(mins_ago as int) >= 0,
            ;
            crate::fixed::lemma_div_round_bounds(sat(mins_ago as int) * 3_000_000, dia as int);
            assert(scaled >= 0);
        }
        if scaled < BILINEAR_PEAK {
            let x: i64 = add_fx(div_int_fx(scaled, 5), ONE);
            let xw: i128 = x as i128;
            proof {
                crate::fixed::lemma_div_round_bounds(scaled as int, 5);
                crate::fixed::lemma_mul_bounds(xw as int, xw - ONE, 100_000_000, 100_000_000);
            }
            let product: i128 = xw * (xw - 1_000_000);
            let used: i128 = div_round_exec(1852 * product, 1_000_000_000_000);
            let share: i64 = (1_000_000 - used) as i64;
            IOBContrib {
                iob_contrib: mul_fx(insulin, share),
                activity_contrib: mul_fx(insulin, mul_div_fx(peak, scaled, BILINEAR_PEAK)),
            }
        } else if scaled < BILINEAR_END {
            let past: i64 = sub_fx(scaled, BILINEAR_PEAK);
            let y: i128 = div_int_fx(past, 5) as i128;
            proof {
                crate::fixed::lemma_div_round_bounds(past as int, 5);
                crate::fixed::lemma_mul_bounds(
                    y as int,
                    54_233_000_000 - 1323 * y,
                    200_000_000,
                    400_000_000_000,
                );
            }
            let product: i128 = y * (54_233_000_000 - 1323 * y);
            let used: i128 = div_round_exec(product, 1_000_000_000_000);
            let share: i64 = (555_560 - used) as i64;
            IOBContrib {
                iob_contrib: mul_fx(insulin, share),
                activity_contrib: mul_fx(
                    insulin,
                    sub_fx(peak, mul_div_fx(peak, past, BILINEAR_FALL)),
                ),
            }
        } else {
            IOBContrib::zero()
        }
    }
}

impl ExponentialCurve {
    /// The contribution of `insulin` units given `mins_ago` minutes ago,
    /// with `dia` hours of insulin action and peak activity after `peak`
    /// minutes.
    pub fn calculate(insulin: i64, mins_ago: i64, dia: i64, peak: u32) -> (r: IOBContrib)
        ensures
            r == exponential_contrib(insulin as int, mins_ago as int, dia as int, peak as int),
            r.activity_contrib >= 0,
            0 <= r.iob_contrib <= max_of(insulin as int, 0),
            insulin <= 0 || mins_ago < 0 || mins_ago >= exponential_end(dia as int)
                ==> r.iob_contrib == 0 && r.activity_contrib == 0,
            mins_ago == 0 && 0 < insulin <= crate::fixed::LIMIT ==> r.iob_contrib == insulin
                && r.activity_contrib == 0,
    {
        proof {
            if mins_ago == 0 && 0 < insulin <= crate::fixed::LIMIT {
                lemma_whole_dose_at_start(
                    insulin as int,
                    InsulinCurve::RapidActing,
                    dia as int,
                    peak as int,
                );
            }
            reveal(exponential_contrib);
            lemma_activity_sign(
                insulin as int,
                mins_ago as int,
                InsulinCurve::RapidActing,
                dia as int,
                peak as int,
            );
            lemma_exponential_on_board(insulin as int, mins_ago as int, dia as int, peak as int);
        }
        let end: i64 = scale_fx(max_fx(dia, EXPONENTIAL_MIN_DIA), 60);
        if insulin <= 0 || mins_ago < 0 || mins_ago >= end {
            return IOBContrib::zero();
        }
        proof {
            lemma_elapsed_share(mins_ago as int, dia as int);
            lemma_time_constant(dia as int, peak as int);
        }
        let tp: i64 = from_int_fx(peak as i64);
        let room: i64 = sub_fx(end, tp);
        let span: i64 = sub_fx(end, scale_fx(tp, 2));
        let tau: i64 = if span == 0 {
            crate::fixed::LIMIT
        } else {
            max_fx(mul_div_fx(tp, magnitude(room), magnitude(span)), 1)
        };
        let mirrored: bool = span < 0 && room >= 0;
        let at: i64 = if mirrored {
            end - mins_ago
        } else {
            mins_ago
        };
        proof {
            lemma_shares_at(insulin as int, at as int, dia as int, peak as int);
            if 0 < at < end {
                lemma_elapsed_share(at as int, dia as int);
            }
        }
        let (acted, activity_contrib) = shares_at(insulin, at, end, tau);
        let used: i64 = if mirrored {
            ONE - acted
        } else {
            acted
        };
        IOBContrib { iob_contrib: mul_fx(insulin, sub_fx(ONE, used)), activity_contrib }
    }
}

/// A quantity without its sign.
fn magnitude(x: i64) -> (r: i64)
    requires
        -crate::fixed::LIMIT <= x <= crate::fixed::LIMIT,
    ensures
        r == abs_of(x as int),
{
    if x < 0 {
        -x
    } else {
        x
    }
}

/// The share of a dose that has acted, and what acts of `insulin` units
/// per minute, `at` minutes into an action that lasts `end` minutes with
/// time constant `tau`.
fn shares_at(insulin: i64, at: i64, end: i64, tau: i64) -> (r: (i64, i64))
    requires
        insulin >= 0,
        0 < end <= crate::fixed::LIMIT,
        0 < tau <= crate::fixed::LIMIT,
        exponential_steepness(end as int, tau as int) >= 0,
        0 < at < end ==> 0 <= fx_div(at as int, end as int) <= ONE,
    ensures
        r.0 == used_share_at(at as int, end as int, tau as int),
        r.1 == acting_at(insulin as int, at as int, end as int, tau as int),
{
    if at <= 0 {
        return (0, 0);
    }
    if at >= end {
        return (ONE, 0);
    }
    let steep: i64 = div_fx(end, tau);
    if steep >= STEEP_FROM {
        proof {
            lemma_steep_norm(end as int, tau as int);
        }
        let a: i64 = div_fx(scale_fx(tau, 2), end);
        let rest: i64 = sub_fx(ONE, a);
        let norm: i64 = add_fx(rest, mul_fx(add_fx(ONE, a), exp_neg_fx(steep)));
        let scale: i64 = div_fx(ONE, norm);
        let u: i64 = div_fx(at, tau);
        let v: i64 = div_fx(at, end);
        let decayed: i64 = exp_neg_fx(u);
        let w: i64 = sub_fx(mul_fx(u, v), mul_fx(rest, add_fx(u, ONE)));
        let used: i64 = min_fx(max_fx(mul_fx(scale, add_fx(mul_fx(w, decayed), rest)), 0), ONE);
        let acting: i64 = mul_fx(mul_fx(mul_fx(scale, u), sub_fx(ONE, v)), decayed);
        (used, div_fx(mul_fx(insulin, acting), tau))
    } else {
        let (used, acting) = series_shares(div_fx(at, end), steep);
        (used, div_fx(mul_fx(insulin, acting), end))
    }
}

/// The contribution of `insulin` units given `mins_ago` minutes ago under
/// `curve`: nothing for no insulin, for a dose yet to come and from the end
/// of the action on; the whole dose, none of it acting, at the moment it is
/// given.
pub fn calculate_iob_contrib(
    insulin: i64,
    mins_ago: i64,
    curve: InsulinCurve,
    dia: i64,
    peak: u32,
) -> (r: IOBContrib)
    ensures
        r == iob_contrib_of(insulin as int, mins_ago as int, curve, dia as int, peak as int),
        0 <= r.activity_contrib <= crate::fixed::LIMIT,
        -crate::fixed::LIMIT <= r.iob_contrib <= crate::fixed::LIMIT,
        curve != InsulinCurve::Bilinear ==> 0 <= r.iob_contrib <= max_of(insulin as int, 0),
        insulin <= 0 || mins_ago < 0 ==> r.iob_contrib == 0 && r.activity_contrib == 0,
        mins_ago == 0 && 0 < insulin <= crate::fixed::LIMIT ==> r.iob_contrib == insulin
            && r.activity_contrib == 0,
        mins_ago >= action_end(curve, dia as int) && (curve == InsulinCurve::Bilinear ==> max_of(
            dia as int,
            BILINEAR_DIA as int,
        ) * 60 <= crate::fixed::LIMIT) ==> r.iob_contrib == 0 && r.activity_contrib == 0,
{
    proof {
        lemma_activity_sign(insulin as int, mins_ago as int, curve, dia as int, peak as int);
        if insulin <= 0 || mins_ago < 0 {
            reveal(bilinear_contrib);
            reveal(exponential_contrib);
        }
        if mins_ago == 0 && 0 < insulin <= crate::fixed::LIMIT {
            lemma_whole_dose_at_start(insulin as int, curve, dia as int, peak as int);
        }
        if mins_ago >= action_end(curve, dia as int) && (curve == InsulinCurve::Bilinear
            ==> max_of(dia as int, BILINEAR_DIA as int) * 60 <= crate::fixed::LIMIT) {
            lemma_nothing_after_action(
                insulin as int,
                mins_ago as int,
                curve,
                dia as int,
                peak as int,
            );
        }
    }
    match curve {
        InsulinCurve::Bilinear => BilinearCurve::calculate(insulin, mins_ago, dia),
        InsulinCurve::RapidActing | InsulinCurve::UltraRapid => ExponentialCurve::calculate(
            insulin,
            mins_ago,
            dia,
            peak,
        ),
    }
}

} // verus!
