//! Rounding of basal rates to what a pump can deliver.

use crate::fixed::fx_round;
use crate::fixed::fx_round_to;
use crate::fixed::lemma_round_to_fixed;
use crate::fixed::lemma_round_to_monotone;
use crate::fixed::lemma_round_to_on_grid;
use crate::fixed::on_grid;
use crate::fixed::LIMIT;
use crate::fixed::round_fx;
use crate::fixed::round_to_fx;
use crate::text::contains;
use crate::text::text_contains;
use crate::types::Profile;
use vstd::prelude::*;

verus! {

/// Step of the basal rates of the newer Medtronic pumps: 0.025 U/hr.
pub const FINE_INCREMENT: i64 = 25_000;

/// Step of the basal rates of most pumps: 0.05 U/hr.
pub const COARSE_INCREMENT: i64 = 50_000;

/// Step of the basal rates above `HIGH_RATE`: 0.1 U/hr.
pub const HIGH_RATE_INCREMENT: i64 = 100_000;

/// The rate above which every pump rounds to `HIGH_RATE_INCREMENT`: 10 U/hr.
pub const HIGH_RATE: i64 = 10_000_000;

/// Whether a model number names a pump with the fine step.
pub open spec fn newer_medtronic(model: Seq<char>) -> bool {
    ||| contains(model, "523"@)
    ||| contains(model, "723"@)
    ||| contains(model, "554"@)
    ||| contains(model, "754"@)
    ||| contains(model, "530G"@)
    ||| contains(model, "630G"@)
    ||| contains(model, "670G"@)
    ||| contains(model, "770G"@)
    ||| contains(model, "780G"@)
}

/// Whether a model number names a pump with the fine step.
pub fn is_newer_medtronic(model: &str) -> (r: bool)
    ensures
        r == newer_medtronic(model@),
{
    text_contains(model, "523") || text_contains(model, "723") || text_contains(model, "554")
        || text_contains(model, "754") || text_contains(model, "530G") || text_contains(
        model,
        "630G",
    ) || text_contains(model, "670G") || text_contains(model, "770G") || text_contains(
        model,
        "780G",
    )
}

/// The step of the profile's pump: the fine one for the newer Medtronic
/// models, else the configured one, else the coarse one where none is
/// configured.
pub open spec fn pump_increment_of(profile: Profile) -> int {
    if profile.model matches Some(model) && newer_medtronic(model@) {
        FINE_INCREMENT as int
    } else if profile.pump_increment > 0 {
        profile.pump_increment as int
    } else {
        COARSE_INCREMENT as int
    }
}

/// `rate` rounded to the nearest multiple of `increment`, or of
/// `HIGH_RATE_INCREMENT` where it exceeds `HIGH_RATE`.
pub open spec fn round_to_increment_of(rate: int, increment: int) -> int {
    if rate > HIGH_RATE {
        fx_round_to(rate, HIGH_RATE_INCREMENT as int)
    } else {
        fx_round_to(rate, increment)
    }
}

/// `rate` as the profile's pump can deliver it.
pub open spec fn round_basal_of(rate: int, profile: Profile) -> int {
    round_to_increment_of(rate, pump_increment_of(profile))
}

/// The step of the profile's pump.
pub fn get_pump_increment(profile: &Profile) -> (r: i64)
    ensures
        r == pump_increment_of(*profile),
        r > 0,
{
    let fine: bool = match &profile.model {
        Some(model) => is_newer_medtronic(model.as_str()),
        None => false,
    };
    if fine {
        FINE_INCREMENT
    } else if profile.pump_increment > 0 {
        profile.pump_increment
    } else {
        COARSE_INCREMENT
    }
}

/// `rate` rounded to the nearest multiple of `increment`.
pub fn round_to_increment(rate: i64, increment: i64) -> (r: i64)
    requires
        increment > 0,
    ensures
        r == round_to_increment_of(rate as int, increment as int),
{
    if rate > HIGH_RATE {
        round_to_fx(rate, HIGH_RATE_INCREMENT)
    } else {
        round_to_fx(rate, increment)
    }
}

/// `rate` as the profile's pump can deliver it.
pub fn round_basal(rate: i64, profile: &Profile) -> (r: i64)
    ensures
        r == round_basal_of(rate as int, *profile),
{
    round_to_increment(rate, get_pump_increment(profile))
}

/// `value` rounded to `digits` decimal places.
pub fn round_value(value: i64, digits: u32) -> (r: i64)
    ensures
        r == fx_round(value as int, digits as int),
{
    round_fx(value, digits)
}

/// Whether the pump's step divides the rate from which every pump rounds
/// to a tenth: then the rounded rates form one rising scale.
pub open spec fn regular_increment(increment: int) -> bool {
    increment > 0 && on_grid(HIGH_RATE as int, increment)
}

/// Rounding to the pump's step rises with the rate.
pub proof fn lemma_round_to_increment_monotone(x1: int, x2: int, increment: int)
    requires
        x1 <= x2,
        regular_increment(increment),
    ensures
        round_to_increment_of(x1, increment) <= round_to_increment_of(x2, increment),
{
    lemma_round_to_monotone(x1, x2, increment);
    lemma_round_to_monotone(x1, x2, HIGH_RATE_INCREMENT as int);
    if x1 <= HIGH_RATE && x2 > HIGH_RATE {
        lemma_round_to_monotone(x1, HIGH_RATE as int, increment);
        lemma_round_to_fixed(HIGH_RATE as int, increment);
        lemma_round_to_monotone(HIGH_RATE as int, x2, HIGH_RATE_INCREMENT as int);
        lemma_round_to_fixed(HIGH_RATE as int, HIGH_RATE_INCREMENT as int);
    }
}

/// A rate that is not negative is not negative when rounded.
pub proof fn lemma_round_to_increment_sign(x: int, increment: int)
    requires
        x >= 0,
        increment > 0,
    ensures
        round_to_increment_of(x, increment) >= 0,
{
    lemma_round_to_monotone(0, x, increment);
    lemma_round_to_monotone(0, x, HIGH_RATE_INCREMENT as int);
    lemma_round_to_fixed(0, increment);
    lemma_round_to_fixed(0, HIGH_RATE_INCREMENT as int);
}

/// A rounded rate stays as it is when rounded again.
pub proof fn lemma_round_to_increment_again(x: int, increment: int)
    requires
        regular_increment(increment),
        -(LIMIT as int) < round_to_increment_of(x, increment) < LIMIT as int,
    ensures
        round_to_increment_of(round_to_increment_of(x, increment), increment)
            == round_to_increment_of(x, increment),
{
    let once = round_to_increment_of(x, increment);
    if x > HIGH_RATE {
        lemma_round_to_on_grid(x, HIGH_RATE_INCREMENT as int);
        lemma_round_to_monotone(HIGH_RATE as int, x, HIGH_RATE_INCREMENT as int);
        lemma_round_to_fixed(HIGH_RATE as int, HIGH_RATE_INCREMENT as int);
        lemma_round_to_fixed(once, HIGH_RATE_INCREMENT as int);
        if once == HIGH_RATE {
            lemma_round_to_fixed(once, increment);
        }
    } else {
        lemma_round_to_on_grid(x, increment);
        lemma_round_to_monotone(x, HIGH_RATE as int, increment);
        lemma_round_to_fixed(HIGH_RATE as int, increment);
        lemma_round_to_fixed(once, increment);
    }
}

} // verus!
