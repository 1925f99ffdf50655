//! Saturating fixed-point arithmetic.
//!
//! Every real-valued quantity of the engine (mg/dL, units of insulin, U/hr,
//! grams, hours, minutes, dimensionless ratios) is held as a signed count of
//! millionths in an `i64`. Results are rounded to the nearest millionth, ties
//! away from zero, and saturate at `LIMIT`, a magnitude of 10^12 units that no
//! physiological quantity approaches. The specification functions work on
//! mathematical integers; the executable operations compute the same values
//! in `i128` and are proved free of overflow.

use vstd::arithmetic::div_mod::lemma_div_is_ordered;
use vstd::arithmetic::div_mod::lemma_div_pos_is_pos;
use vstd::arithmetic::div_mod::lemma_fundamental_div_mod;
use vstd::arithmetic::div_mod::lemma_mod_bound;
use vstd::prelude::*;

verus! {

/// One unit, in millionths.
pub const ONE: i64 = 1_000_000;

/// Magnitude at which results saturate.
pub const LIMIT: i64 = 1_000_000_000_000_000_000;

/// The greater of two.
pub open spec fn max_of(a: int, b: int) -> int {
    if a >= b {
        a
    } else {
        b
    }
}

/// The smaller of two.
pub open spec fn min_of(a: int, b: int) -> int {
    if a <= b {
        a
    } else {
        b
    }
}

/// The magnitude.
pub open spec fn abs_of(a: int) -> int {
    if a >= 0 {
        a
    } else {
        -a
    }
}

/// `x` limited to the interval `[lo, hi]`; the lower bound is applied first.
pub open spec fn clamp(x: int, lo: int, hi: int) -> int {
    min_of(max_of(x, lo), hi)
}

/// `x` limited to the magnitudes that the engine holds.
pub open spec fn sat(x: int) -> int {
    clamp(x, -(LIMIT as int), LIMIT as int)
}

/// Nearest integer to `n / d`, ties away from zero.
pub open spec fn div_round(n: int, d: int) -> int
    recommends
        d > 0,
{
    if n >= 0 {
        (2 * n + d) / (2 * d)
    } else {
        -((2 * (-n) + d) / (2 * d))
    }
}

/// Sum of two quantities.
pub open spec fn fx_add(a: int, b: int) -> int {
    sat(a + b)
}

/// Difference of two quantities.
pub open spec fn fx_sub(a: int, b: int) -> int {
    sat(a - b)
}

/// Product of two quantities.
pub open spec fn fx_mul(a: int, b: int) -> int {
    sat(div_round(sat(a) * sat(b), ONE as int))
}

/// Quotient of two quantities.
pub open spec fn fx_div(a: int, b: int) -> int
    recommends
        b > 0,
{
    sat(div_round(sat(a) * (ONE as int), b))
}

/// `a * b / c` with a single rounding.
pub open spec fn fx_mul_div(a: int, b: int, c: int) -> int
    recommends
        c > 0,
{
    sat(div_round(sat(a) * sat(b), c))
}

/// A quantity times a whole number.
pub open spec fn fx_scale(a: int, k: int) -> int {
    sat(sat(a) * k)
}

/// A quantity divided by a positive whole number.
pub open spec fn fx_div_int(a: int, k: int) -> int
    recommends
        k > 0,
{
    div_round(a, k)
}

/// The quantity that stands for the whole number `n`.
pub open spec fn fx_from_int(n: int) -> int {
    sat(n * (ONE as int))
}

/// Nearest multiple of `unit` to `x`, ties away from zero.
pub open spec fn fx_round_to(x: int, unit: int) -> int
    recommends
        unit > 0,
{
    sat(div_round(sat(x), unit) * unit)
}

/// Greatest multiple of `unit` that does not exceed `x`.
pub open spec fn fx_floor_to(x: int, unit: int) -> int
    recommends
        unit > 0,
{
    sat((sat(x) / unit) * unit)
}

/// The unit of rounding to `digits` decimal places; six places are held.
pub open spec fn decimal_unit(digits: int) -> int {
    if digits <= 0 {
        1_000_000
    } else if digits == 1 {
        100_000
    } else if digits == 2 {
        10_000
    } else if digits == 3 {
        1_000
    } else if digits == 4 {
        100
    } else if digits == 5 {
        10
    } else {
        1
    }
}

/// `x` rounded to `digits` decimal places.
pub open spec fn fx_round(x: int, digits: int) -> int {
    fx_round_to(x, decimal_unit(digits))
}

/// A rounded quotient keeps the sign of its dividend, is no greater in
/// magnitude, and lies within half a divisor of the exact quotient.
pub proof fn lemma_div_round_bounds(n: int, d: int)
    requires
        d > 0,
    ensures
        -abs_of(n) <= div_round(n, d) <= abs_of(n),
        n >= 0 ==> div_round(n, d) >= 0,
        n <= 0 ==> div_round(n, d) <= 0,
        2 * d * div_round(n, d) <= 2 * n + d,
        2 * d * div_round(n, d) >= 2 * n - d,
{
    let m = abs_of(n);
    let q = (2 * m + d) / (2 * d);
    lemma_fundamental_div_mod(2 * m + d, 2 * d);
    lemma_mod_bound(2 * m + d, 2 * d);
    lemma_div_pos_is_pos(2 * m + d, 2 * d);
    assert(2 * d * q <= 2 * m + d);
    assert(2 * d * q > 2 * m + d - 2 * d);
    assert(q <= m) by (nonlinear_arith)
        requires
            d >= 1,
            q >= 0,
            m >= 0,
            2 * d * q <= 2 * m + d,
    {
        if q > m {
            assert(q >= 1);
            assert(2 * d * q >= 2 * d * (m + 1));
            assert(2 * d * (m + 1) == 2 * d * m + 2 * d);
            assert(2 * d * m >= 2 * m);
        }
    }
    if n < 0 {
        assert(div_round(n, d) == -q);
        assert(2 * d * (-q) == -(2 * d * q)) by (nonlinear_arith);
    }
}

/// Rounded division is monotone in the dividend.
pub proof fn lemma_div_round_monotone(n1: int, n2: int, d: int)
    requires
        d > 0,
        n1 <= n2,
    ensures
        div_round(n1, d) <= div_round(n2, d),
{
    lemma_div_round_bounds(n1, d);
    lemma_div_round_bounds(n2, d);
    if n1 >= 0 {
        lemma_div_is_ordered(2 * n1 + d, 2 * n2 + d, 2 * d);
    } else if n2 < 0 {
        lemma_div_is_ordered(2 * (-n2) + d, 2 * (-n1) + d, 2 * d);
    }
}

/// An exact quotient is returned unchanged.
pub proof fn lemma_div_round_exact(q: int, d: int)
    requires
        d > 0,
    ensures
        div_round(q * d, d) == q,
{
    let m = abs_of(q);
    assert((2 * (m * d) + d) / (2 * d) == m) by (nonlinear_arith)
        requires
            d > 0,
            m >= 0,
    {
        assert(2 * (m * d) + d == m * (2 * d) + d);
        vstd::arithmetic::div_mod::lemma_fundamental_div_mod_converse(
            2 * (m * d) + d,
            2 * d,
            m,
            d,
        );
    }
    if q >= 0 {
        assert(q * d >= 0) by (nonlinear_arith)
            requires
                q >= 0,
                d > 0,
        ;
    } else {
        assert(q * d < 0) by (nonlinear_arith)
            requires
                q < 0,
                d > 0,
        ;
        assert(-(q * d) == m * d) by (nonlinear_arith)
            requires
                m == -q,
        ;
    }
}

/// A product of bounded factors is bounded by the product of the bounds.
pub proof fn lemma_mul_bounds(a: int, b: int, ba: int, bb: int)
    requires
        -ba <= a <= ba,
        -bb <= b <= bb,
    ensures
        -(ba * bb) <= a * b <= ba * bb,
{
    assert(-(ba * bb) <= a * b <= ba * bb) by (nonlinear_arith)
        requires
            -ba <= a <= ba,
            -bb <= b <= bb,
    {
        assert((ba - a) * (bb - b) >= 0);
        assert((ba + a) * (bb + b) >= 0);
        assert((ba - a) * (bb + b) >= 0);
        assert((ba + a) * (bb - b) >= 0);
    }
}

/// A product is monotone in a factor when the other factor is not negative.
pub proof fn lemma_mul_monotone(a1: int, a2: int, b: int)
    requires
        a1 <= a2,
        b >= 0,
    ensures
        a1 * b <= a2 * b,
        b * a1 <= b * a2,
{
    assert(a1 * b <= a2 * b && b * a1 <= b * a2) by (nonlinear_arith)
        requires
            a1 <= a2,
            b >= 0,
    ;
}

/// The floor of a quotient with a negative dividend, by way of a ceiling.
pub proof fn lemma_floor_quotient(v: int, u: int)
    requires
        u > 0,
    ensures
        v < 0 ==> v / u == -((-v + u - 1) / u),
        -abs_of(v) - 1 <= v / u <= abs_of(v),
{
    lemma_fundamental_div_mod(v, u);
    lemma_mod_bound(v, u);
    let q = v / u;
    let r = v % u;
    if v < 0 {
        let n = -v + u - 1;
        assert(n == (-q) * u + (u - 1 - r)) by (nonlinear_arith)
            requires
                v == u * q + r,
                n == -v + u - 1,
        ;
        vstd::arithmetic::div_mod::lemma_fundamental_div_mod_converse(n, u, -q, u - 1 - r);
        assert(q >= v) by (nonlinear_arith)
            requires
                v == u * q + r,
                0 <= r < u,
                u >= 1,
                v < 0,
        ;
        assert(q <= 0) by (nonlinear_arith)
            requires
                v == u * q + r,
                0 <= r < u,
                u >= 1,
                v < 0,
        ;
    } else {
        lemma_div_pos_is_pos(v, u);
        assert(q <= v) by (nonlinear_arith)
            requires
                v == u * q + r,
                0 <= r < u,
                u >= 1,
                q >= 0,
        ;
    }
}

/// Saturation is monotone and keeps what is already within the limit.
pub proof fn lemma_sat(x: int, y: int)
    ensures
        -(LIMIT as int) <= sat(x) <= LIMIT as int,
        -(LIMIT as int) <= x <= LIMIT as int ==> sat(x) == x,
        x <= y ==> sat(x) <= sat(y),
        x >= 0 ==> 0 <= sat(x) <= x,
        x <= 0 ==> x <= sat(x) <= 0,
{
}

/// A product of saturated factors fits in 128 bits with room to spare.
pub proof fn lemma_sat_product(a: int, b: int)
    ensures
        -1_000_000_000_000_000_000_000_000_000_000_000_000 <= sat(a) * sat(b)
            <= 1_000_000_000_000_000_000_000_000_000_000_000_000,
{
    lemma_mul_bounds(sat(a), sat(b), LIMIT as int, LIMIT as int);
    assert((LIMIT as int) * (LIMIT as int) == 1_000_000_000_000_000_000_000_000_000_000_000_000)
        by (nonlinear_arith);
}

/// The product of two quantities rises with a factor where the other is
/// not negative.
pub proof fn lemma_fx_mul_monotone(a1: int, a2: int, b: int)
    requires
        a1 <= a2,
        b >= 0,
    ensures
        fx_mul(a1, b) <= fx_mul(a2, b),
        fx_mul(b, a1) <= fx_mul(b, a2),
{
    lemma_sat(a1, a2);
    lemma_sat(b, b);
    lemma_mul_monotone(sat(a1), sat(a2), sat(b));
    lemma_div_round_monotone(sat(a1) * sat(b), sat(a2) * sat(b), ONE as int);
    lemma_div_round_monotone(sat(b) * sat(a1), sat(b) * sat(a2), ONE as int);
    lemma_sat(div_round(sat(a1) * sat(b), ONE as int), div_round(sat(a2) * sat(b), ONE as int));
    lemma_sat(div_round(sat(b) * sat(a1), ONE as int), div_round(sat(b) * sat(a2), ONE as int));
}

/// The quotient of two quantities rises with the dividend.
pub proof fn lemma_fx_div_monotone(a1: int, a2: int, b: int)
    requires
        a1 <= a2,
        b > 0,
    ensures
        fx_div(a1, b) <= fx_div(a2, b),
{
    lemma_sat(a1, a2);
    lemma_div_round_monotone(sat(a1) * (ONE as int), sat(a2) * (ONE as int), b);
    lemma_sat(div_round(sat(a1) * (ONE as int), b), div_round(sat(a2) * (ONE as int), b));
}

/// `a * b / c` rises with `a` where `b` is not negative.
pub proof fn lemma_fx_mul_div_monotone(a1: int, a2: int, b: int, c: int)
    requires
        a1 <= a2,
        b >= 0,
        c > 0,
    ensures
        fx_mul_div(a1, b, c) <= fx_mul_div(a2, b, c),
{
    lemma_sat(a1, a2);
    lemma_sat(b, b);
    lemma_mul_monotone(sat(a1), sat(a2), sat(b));
    lemma_div_round_monotone(sat(a1) * sat(b), sat(a2) * sat(b), c);
    lemma_sat(div_round(sat(a1) * sat(b), c), div_round(sat(a2) * sat(b), c));
}

/// A quantity times a whole number that is not negative rises with the
/// quantity.
pub proof fn lemma_fx_scale_monotone(a1: int, a2: int, k: int)
    requires
        a1 <= a2,
        k >= 0,
    ensures
        fx_scale(a1, k) <= fx_scale(a2, k),
{
    lemma_sat(a1, a2);
    lemma_mul_monotone(sat(a1), sat(a2), k);
    lemma_sat(sat(a1) * k, sat(a2) * k);
}

/// Rounding to a step rises with what is rounded.
pub proof fn lemma_round_to_monotone(x1: int, x2: int, unit: int)
    requires
        x1 <= x2,
        unit > 0,
    ensures
        fx_round_to(x1, unit) <= fx_round_to(x2, unit),
{
    lemma_sat(x1, x2);
    lemma_div_round_monotone(sat(x1), sat(x2), unit);
    lemma_mul_monotone(div_round(sat(x1), unit), div_round(sat(x2), unit), unit);
    lemma_sat(div_round(sat(x1), unit) * unit, div_round(sat(x2), unit) * unit);
}

/// The sign of a product and of a quotient of quantities that are not
/// negative.
pub proof fn lemma_fx_signs(a: int, b: int, c: int)
    requires
        a >= 0,
        b >= 0,
        c > 0,
    ensures
        fx_mul(a, b) >= 0,
        fx_div(a, c) >= 0,
        fx_mul_div(a, b, c) >= 0,
{
    lemma_sat(a, a);
    lemma_sat(b, b);
    lemma_mul_monotone(0, sat(a), sat(b));
    assert(0 * sat(b) == 0);
    lemma_mul_monotone(0, sat(a), ONE as int);
    lemma_div_round_bounds(sat(a) * sat(b), ONE as int);
    lemma_div_round_bounds(sat(a) * sat(b), c);
    lemma_div_round_bounds(sat(a) * (ONE as int), c);
}

/// A share of a quantity that is not negative: `a * b / c` with `b` between
/// nothing and `c` lies between nothing and `a`.
pub proof fn lemma_fx_share(a: int, b: int, c: int)
    requires
        0 <= a <= LIMIT,
        0 <= b <= c <= LIMIT,
        c > 0,
    ensures
        0 <= fx_mul_div(a, b, c) <= a,
{
    lemma_fx_signs(a, b, c);
    lemma_mul_monotone(b, c, a);
    lemma_div_round_monotone(a * b, a * c, c);
    lemma_div_round_exact(a, c);
    lemma_sat(div_round(a * b, c), a);
}

/// Nothing times or divided by anything is nothing.
pub proof fn lemma_fx_zero(b: int, c: int)
    requires
        c > 0,
    ensures
        fx_mul(0, b) == 0,
        fx_mul(b, 0) == 0,
        fx_div(0, c) == 0,
        fx_mul_div(0, b, c) == 0,
        fx_mul_div(b, 0, c) == 0,
{
    assert(sat(0) == 0);
    assert(0 * sat(b) == 0 && sat(b) * 0 == 0 && 0 * (ONE as int) == 0) by (nonlinear_arith);
    lemma_div_round_exact(0, ONE as int);
    lemma_div_round_exact(0, c);
    assert(0 * (ONE as int) == 0 && 0 * c == 0);
}

/// A quantity within the limit times one is the quantity.
pub proof fn lemma_fx_one(a: int)
    requires
        -(LIMIT as int) <= a <= LIMIT as int,
    ensures
        fx_mul(a, ONE as int) == a,
{
    assert(sat(a) == a && sat(ONE as int) == ONE);
    lemma_div_round_exact(a, ONE as int);
}

/// A share of a quantity of either sign: `a * b / c` with `b` between
/// nothing and `c` lies between nothing and `a`.
pub proof fn lemma_fx_share_signed(a: int, b: int, c: int)
    requires
        -(LIMIT as int) <= a <= LIMIT,
        0 <= b <= c <= LIMIT,
        c > 0,
    ensures
        a >= 0 ==> 0 <= fx_mul_div(a, b, c) <= a,
        a <= 0 ==> a <= fx_mul_div(a, b, c) <= 0,
{
    if a >= 0 {
        lemma_fx_share(a, b, c);
    } else {
        lemma_fx_share(-a, b, c);
        assert((-a) * b == -(a * b)) by (nonlinear_arith);
        assert(a * b <= 0) by (nonlinear_arith)
            requires
                a < 0,
                b >= 0,
        ;
        assert(sat(a) == a && sat(-a) == -a && sat(b) == b);
        if a * b == 0 {
            assert(div_round(0, c) == 0) by {
                lemma_div_round_bounds(0, c);
            }
        }
    }
}

/// Whether `x` is a whole number of steps.
pub open spec fn on_grid(x: int, unit: int) -> bool {
    x % unit == 0
}

/// What is a whole number of steps stays as it is when rounded to the step.
pub proof fn lemma_round_to_fixed(x: int, unit: int)
    requires
        unit > 0,
        on_grid(x, unit),
        -(LIMIT as int) <= x <= LIMIT as int,
    ensures
        fx_round_to(x, unit) == x,
{
    lemma_fundamental_div_mod(x, unit);
    let q = x / unit;
    assert(x == q * unit) by (nonlinear_arith)
        requires
            x == unit * q + x % unit,
            x % unit == 0,
    ;
    lemma_div_round_exact(q, unit);
}

/// What is rounded to a step lies within half a step of what it was.
pub proof fn lemma_round_to_close(x: int, unit: int)
    requires
        unit > 0,
        -(LIMIT as int) <= x <= LIMIT as int,
    ensures
        -unit <= 2 * (fx_round_to(x, unit) - x) <= unit,
{
    let q = div_round(sat(x), unit);
    lemma_div_round_bounds(x, unit);
    assert(q * unit == unit * q) by (nonlinear_arith);
    assert(2 * (unit * q) == 2 * unit * q) by (nonlinear_arith);
}

/// A sum rounded to thousandths differs from the sum of its two parts,
/// each rounded to thousandths, by a thousandth at most.
pub proof fn lemma_rounded_sum(a: int, b: int)
    requires
        -(LIMIT as int) <= a <= LIMIT as int,
        -(LIMIT as int) <= b <= LIMIT as int,
        -(LIMIT as int) <= a + b <= LIMIT as int,
    ensures
        -1000 <= fx_round(a + b, 3) - (fx_round(a, 3) + fx_round(b, 3)) <= 1000,
{
    lemma_round_to_close(a + b, 1000);
    lemma_round_to_close(a, 1000);
    lemma_round_to_close(b, 1000);
    let whole = fx_round_to(a + b, 1000);
    let first = fx_round_to(a, 1000);
    let second = fx_round_to(b, 1000);
    if -LIMIT < whole < LIMIT {
        lemma_round_to_on_grid(a + b, 1000);
    }
    if -LIMIT < first < LIMIT {
        lemma_round_to_on_grid(a, 1000);
    }
    if -LIMIT < second < LIMIT {
        lemma_round_to_on_grid(b, 1000);
    }
    assert(whole % 1000 == 0 && first % 1000 == 0 && second % 1000 == 0);
}

/// What is rounded to a step is a whole number of steps, unless it
/// saturates.
pub proof fn lemma_round_to_on_grid(x: int, unit: int)
    requires
        unit > 0,
        -(LIMIT as int) < fx_round_to(x, unit) < LIMIT as int,
    ensures
        on_grid(fx_round_to(x, unit), unit),
{
    let q = div_round(sat(x), unit);
    vstd::arithmetic::div_mod::lemma_mod_multiples_basic(q, unit);
}

/// What is cut down to a step does not exceed what was cut; where it is
/// positive, it is a whole number of steps.
pub proof fn lemma_floor_to_below(x: int, unit: int)
    requires
        unit > 0,
    ensures
        fx_floor_to(x, unit) <= sat(x),
        fx_floor_to(x, unit) > 0 ==> on_grid(fx_floor_to(x, unit), unit),
{
    let v = sat(x);
    lemma_fundamental_div_mod(v, unit);
    lemma_mod_bound(v, unit);
    let q = v / unit;
    assert(q * unit == unit * q) by (nonlinear_arith);
    vstd::arithmetic::div_mod::lemma_mod_multiples_basic(q, unit);
}

/// The greater of two quantities.
pub fn max_fx(a: i64, b: i64) -> (r: i64)
    ensures
        r == max_of(a as int, b as int),
{
    if a >= b {
        a
    } else {
        b
    }
}

/// The smaller of two quantities.
pub fn min_fx(a: i64, b: i64) -> (r: i64)
    ensures
        r == min_of(a as int, b as int),
{
    if a <= b {
        a
    } else {
        b
    }
}

/// `x` limited to the magnitudes that the engine holds.
pub fn saturate(x: i128) -> (r: i64)
    ensures
        r == sat(x as int),
        -LIMIT <= r <= LIMIT,
{
    if x > 1_000_000_000_000_000_000 {
        1_000_000_000_000_000_000
    } else if x < -1_000_000_000_000_000_000 {
        -1_000_000_000_000_000_000
    } else {
        x as i64
    }
}

/// Nearest integer to `n / d`, ties away from zero.
pub fn div_round_exec(n: i128, d: i128) -> (q: i128)
    requires
        0 < d <= 0x1000_0000_0000_0000_0000_0000_0000_0000,
        -0x1000_0000_0000_0000_0000_0000_0000_0000 <= n <= 0x1000_0000_0000_0000_0000_0000_0000_0000,
    ensures
        q == div_round(n as int, d as int),
        -abs_of(n as int) <= q <= abs_of(n as int),
{
    proof {
        lemma_div_round_bounds(n as int, d as int);
    }
    if n >= 0 {
        (2 * n + d) / (2 * d)
    } else {
        -((2 * (-n) + d) / (2 * d))
    }
}

/// Sum of two quantities.
pub fn add_fx(a: i64, b: i64) -> (r: i64)
    ensures
        r == fx_add(a as int, b as int),
        -LIMIT <= r <= LIMIT,
{
    saturate(a as i128 + b as i128)
}

/// Difference of two quantities.
pub fn sub_fx(a: i64, b: i64) -> (r: i64)
    ensures
        r == fx_sub(a as int, b as int),
        -LIMIT <= r <= LIMIT,
{
    saturate(a as i128 - b as i128)
}

/// Product of two quantities.
pub fn mul_fx(a: i64, b: i64) -> (r: i64)
    ensures
        r == fx_mul(a as int, b as int),
        -LIMIT <= r <= LIMIT,
{
    let x: i128 = saturate(a as i128) as i128;
    let y: i128 = saturate(b as i128) as i128;
    proof {
        lemma_sat_product(a as int, b as int);
    }
    saturate(div_round_exec(x * y, 1_000_000))
}

/// Quotient of two quantities.
pub fn div_fx(a: i64, b: i64) -> (r: i64)
    requires
        b > 0,
    ensures
        r == fx_div(a as int, b as int),
        -LIMIT <= r <= LIMIT,
{
    let x: i128 = saturate(a as i128) as i128;
    saturate(div_round_exec(x * 1_000_000, b as i128))
}

/// `a * b / c` with a single rounding.
pub fn mul_div_fx(a: i64, b: i64, c: i64) -> (r: i64)
    requires
        c > 0,
    ensures
        r == fx_mul_div(a as int, b as int, c as int),
        -LIMIT <= r <= LIMIT,
{
    let x: i128 = saturate(a as i128) as i128;
    let y: i128 = saturate(b as i128) as i128;
    proof {
        lemma_sat_product(a as int, b as int);
    }
    saturate(div_round_exec(x * y, c as i128))
}

/// A quantity times a whole number.
pub fn scale_fx(a: i64, k: i64) -> (r: i64)
    ensures
        r == fx_scale(a as int, k as int),
        -LIMIT <= r <= LIMIT,
{
    let x: i128 = saturate(a as i128) as i128;
    proof {
        lemma_mul_bounds(x as int, k as int, LIMIT as int, 0x8000_0000_0000_0000);
        assert((LIMIT as int) * 0x8000_0000_0000_0000 < 0x1000_0000_0000_0000_0000_0000_0000_0000)
            by (nonlinear_arith);
    }
    saturate(x * (k as i128))
}

/// A quantity divided by a positive whole number.
pub fn div_int_fx(a: i64, k: i64) -> (r: i64)
    requires
        k > 0,
    ensures
        r == fx_div_int(a as int, k as int),
{
    let q: i128 = div_round_exec(a as i128, k as i128);
    q as i64
}

/// The quantity that stands for a whole number.
pub fn from_int_fx(n: i64) -> (r: i64)
    ensures
        r == fx_from_int(n as int),
        -LIMIT <= r <= LIMIT,
{
    saturate((n as i128) * 1_000_000)
}

/// Nearest multiple of `unit` to `x`, ties away from zero.
pub fn round_to_fx(x: i64, unit: i64) -> (r: i64)
    requires
        unit > 0,
    ensures
        r == fx_round_to(x as int, unit as int),
        -LIMIT <= r <= LIMIT,
{
    let v: i128 = saturate(x as i128) as i128;
    let q: i128 = div_round_exec(v, unit as i128);
    proof {
        lemma_mul_bounds(q as int, unit as int, LIMIT as int, 0x8000_0000_0000_0000);
        assert((LIMIT as int) * 0x8000_0000_0000_0000 < 0x1000_0000_0000_0000_0000_0000_0000_0000)
            by (nonlinear_arith);
    }
    saturate(q * (unit as i128))
}

/// Greatest multiple of `unit` that does not exceed `x`.
pub fn floor_to_fx(x: i64, unit: i64) -> (r: i64)
    requires
        unit > 0,
    ensures
        r == fx_floor_to(x as int, unit as int),
        -LIMIT <= r <= LIMIT,
{
    let v: i128 = saturate(x as i128) as i128;
    let u: i128 = unit as i128;
    let q: i128 = if v >= 0 {
        v / u
    } else {
        -((-v + u - 1) / u)
    };
    proof {
        lemma_floor_quotient(v as int, u as int);
        lemma_mul_bounds(q as int, u as int, LIMIT as int + 1, 0x8000_0000_0000_0000);
        assert((LIMIT as int + 1) * 0x8000_0000_0000_0000
            < 0x1000_0000_0000_0000_0000_0000_0000_0000) by (nonlinear_arith);
    }
    saturate(q * u)
}

/// The unit of rounding to `digits` decimal places.
pub fn decimal_unit_exec(digits: u32) -> (u: i64)
    ensures
        u == decimal_unit(digits as int),
        1 <= u <= 1_000_000,
{
    if digits == 0 {
        1_000_000
    } else if digits == 1 {
        100_000
    } else if digits == 2 {
        10_000
    } else if digits == 3 {
        1_000
    } else if digits == 4 {
        100
    } else if digits == 5 {
        10
    } else {
        1
    }
}

/// `x` rounded to `digits` decimal places.
pub fn round_fx(x: i64, digits: u32) -> (r: i64)
    ensures
        r == fx_round(x as int, digits as int),
        -LIMIT <= r <= LIMIT,
{
    round_to_fx(x, decimal_unit_exec(digits))
}

} // verus!
