//! Rounding and order statistics.

pub mod round;

pub use round::round_basal;
pub use round::round_value;

use crate::fixed::add_fx;
use crate::fixed::fx_add;
use crate::fixed::fx_mul;
use crate::fixed::fx_round;
use crate::fixed::mul_fx;
use crate::fixed::round_fx;
use crate::fixed::ONE;
use vstd::prelude::*;

verus! {

/// `value` rounded to `digits` decimal places.
pub fn round(value: i64, digits: u32) -> (r: i64)
    ensures
        r == fx_round(value as int, digits as int),
{
    round_fx(value, digits)
}

/// Position of the `p`-th percentile among `n` sorted values, in millionths
/// of an index.
pub open spec fn percentile_position(p: int, n: int) -> int {
    p * (n - 1) / 100
}

/// The `p`-th percentile of `data`, interpolated linearly between the two
/// values that surround its position; the first value for a `p` below
/// nothing.
pub open spec fn percentile_of(data: Seq<i64>, p: int) -> int {
    let position = percentile_position(p, data.len() as int);
    let lower = position / 1_000_000;
    let weight = position % 1_000_000;
    if p <= 0 {
        data[0] as int
    } else if weight == 0 {
        data[lower] as int
    } else {
        fx_add(
            fx_mul(data[lower] as int, 1_000_000 - weight),
            fx_mul(data[lower + 1] as int, weight),
        )
    }
}

proof fn lemma_percentile_position(p: int, n: int)
    requires
        0 <= p <= 100_000_000,
        n >= 1,
    ensures
        0 <= percentile_position(p, n) <= 1_000_000 * (n - 1),
        0 <= percentile_position(p, n) / 1_000_000 <= n - 1,
        percentile_position(p, n) % 1_000_000 != 0 ==> percentile_position(p, n) / 1_000_000 < n
            - 1,
{
    let m = n - 1;
    assert(0 <= p * m <= 100_000_000 * m) by (nonlinear_arith)
        requires
            0 <= p <= 100_000_000,
            m >= 0,
    ;
    let x = percentile_position(p, n);
    assert(x == (p * m) / 100);
    assert(0 <= x <= 1_000_000 * m);
}

/// The `p`-th percentile of sorted `data`; `None` for no data. Among two
/// values or more, `p` is 100 at most.
pub fn percentile(data: &Vec<i64>, p: i64) -> (r: Option<i64>)
    requires
        data.len() >= 2 ==> p <= 100 * ONE,
    ensures
        r is Some <==> data.len() > 0,
        r matches Some(v) ==> v == percentile_of(data@, p as int),
{
    let n: usize = data.len();
    if n == 0 {
        return None;
    }
    if p <= 0 || n == 1 {
        assert(p * 0 == 0);
        return Some(data[0]);
    }
    proof {
        lemma_percentile_position(p as int, n as int);
    }
    let product: i128 = (p as i128) * ((n - 1) as i128);
    let position: i128 = product / 100;
    let lower: usize = (position / 1_000_000) as usize;
    let weight: i64 = (position % 1_000_000) as i64;
    if weight == 0 {
        Some(data[lower])
    } else {
        Some(add_fx(mul_fx(data[lower], 1_000_000 - weight), mul_fx(data[lower + 1], weight)))
    }
}

} // verus!
