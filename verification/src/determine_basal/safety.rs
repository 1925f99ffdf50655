//! What the controller never does.

use super::algorithm::Decision;
use super::algorithm::LOW_GLUCOSE;
use super::smb::lemma_smb_within_cap;
use super::smb::max_smb_of;
use super::DetermineBasalInputs;
use crate::fixed::clamp;
use crate::fixed::fx_add;
use crate::fixed::fx_mul;
use crate::fixed::fx_scale;
use crate::fixed::fx_sub;
use crate::fixed::lemma_div_round_bounds;
use crate::fixed::lemma_fx_div_monotone;
use crate::fixed::lemma_fx_mul_monotone;
use crate::fixed::lemma_fx_scale_monotone;
use crate::fixed::lemma_sat;
use crate::fixed::max_of;
use crate::fixed::on_grid;
use crate::fixed::sat;
use crate::fixed::LIMIT;
use crate::types::Profile;
use crate::utils::round::lemma_round_to_increment_again;
use crate::utils::round::lemma_round_to_increment_monotone;
use crate::utils::round::lemma_round_to_increment_sign;
use crate::utils::round::pump_increment_of;
use crate::utils::round::regular_increment;
use crate::utils::round::round_basal_of;
use vstd::prelude::*;

verus! {

/// Whether the profile's ceiling and the pump's steps fit together: the
/// step divides 10 U/hr, the greatest basal rate is a rate that the pump
/// can deliver, and the scheduled basal as the pump delivers it does not
/// exceed it.
pub open spec fn ceiling_fits(profile: Profile) -> bool {
    &&& regular_increment(pump_increment_of(profile))
    &&& 0 <= profile.max_basal < LIMIT
    &&& round_basal_of(profile.max_basal as int, profile) == profile.max_basal
    &&& round_basal_of(profile.current_basal as int, profile) <= profile.max_basal
}

/// Whether two sets of inputs agree in all that the rate depends on beside
/// glucose and insulin on board.
pub open spec fn same_setting(a: DetermineBasalInputs, b: DetermineBasalInputs) -> bool {
    &&& *a.profile == *b.profile
    &&& a.current_temp.duration == b.current_temp.duration
    &&& a.current_temp.rate == b.current_temp.rate
    &&& a.glucose_status.delta == b.glucose_status.delta
}

/// The insulin required is not positive below the target and not negative
/// above it.
proof fn lemma_insulin_req_sign(inputs: DetermineBasalInputs)
    requires
        inputs.profile.sens > 0,
    ensures
        inputs.eventual_bg() <= inputs.target_bg() ==> inputs.insulin_req() <= 0,
        inputs.eventual_bg() >= inputs.target_bg() ==> inputs.insulin_req() >= 0,
        inputs.eventual_bg() <= inputs.target_bg() ==> inputs.needed_rate() <= sat(inputs.basal()),
        inputs.eventual_bg() >= inputs.target_bg() ==> inputs.needed_rate() >= sat(inputs.basal()),
{
    let gap = fx_sub(inputs.eventual_bg(), inputs.target_bg());
    let sens = inputs.profile.sens as int;
    lemma_sat(gap, 0);
    lemma_sat(0, gap);
    lemma_div_round_bounds(sat(gap) * 1_000_000, sens);
    let req = inputs.insulin_req();
    lemma_sat(req, 0);
    lemma_sat(0, req);
    let twice = fx_scale(req, 2);
    lemma_sat(inputs.basal() + twice, inputs.basal());
    lemma_sat(inputs.basal(), inputs.basal() + twice);
}

/// The scheduled basal as the pump delivers it lies within the limit and is
/// not negative where the scheduled basal is positive.
proof fn lemma_basal_range(inputs: DetermineBasalInputs)
    requires
        inputs.profile.current_basal > 0,
        pump_increment_of(*inputs.profile) > 0,
    ensures
        0 <= inputs.basal() <= LIMIT,
        sat(inputs.basal()) == inputs.basal(),
{
    lemma_round_to_increment_sign(
        inputs.profile.current_basal as int,
        pump_increment_of(*inputs.profile),
    );
}

/// The temporary basal rate that is recommended is never negative and never
/// above the profile's greatest basal rate.
pub proof fn lemma_rate_within_ceiling(inputs: DetermineBasalInputs)
    requires
        ceiling_fits(*inputs.profile),
    ensures
        inputs.rate() matches Some(rate) ==> 0 <= rate <= inputs.profile.max_basal,
{
    let profile = *inputs.profile;
    let increment = pump_increment_of(profile);
    let ceiling = profile.max_basal as int;
    match inputs.decision() {
        Decision::Rejected | Decision::Hold | Decision::Suspend => {},
        Decision::CancelHighTemp => {
            lemma_basal_range(inputs);
        },
        Decision::Raise => {
            let capped = clamp(inputs.needed_rate(), 0, ceiling);
            lemma_round_to_increment_monotone(capped, ceiling, increment);
            lemma_round_to_increment_sign(capped, increment);
        },
        Decision::Lower => {
            lemma_basal_range(inputs);
            lemma_insulin_req_sign(inputs);
            let floored = max_of(inputs.needed_rate(), 0);
            lemma_round_to_increment_monotone(floored, ceiling, increment);
            lemma_round_to_increment_sign(floored, increment);
        },
    }
}

/// The micro bolus that is recommended is at least one step of the pump, a
/// whole number of steps, and no more than the basal of the minutes that cap
/// it: those of the profile's cap with carbs on board, those of its cap
/// without.
pub proof fn lemma_units_within_cap(inputs: DetermineBasalInputs)
    ensures
        inputs.units() matches Some(units) ==> {
            &&& units >= inputs.profile.bolus_increment > 0
            &&& units <= max_smb_of(
                *inputs.profile,
                inputs.meal_data.meal_cob as int,
                inputs.basal(),
            )
            &&& on_grid(units, inputs.profile.bolus_increment as int)
        },
{
    lemma_smb_within_cap(
        *inputs.profile,
        inputs.insulin_req(),
        inputs.meal_data.meal_cob as int,
        inputs.basal(),
    );
}

/// With glucose below 80 mg/dL and a basal rate to work with, delivery is
/// suspended and no micro bolus is given.
pub proof fn lemma_low_glucose_suspends(inputs: DetermineBasalInputs)
    requires
        inputs.bg() < LOW_GLUCOSE,
        inputs.profile.current_basal > 0,
    ensures
        inputs.decision() == Decision::Suspend,
        inputs.rate() == Some(0int),
        inputs.units() is None,
{
}

/// Where the eventual glucose is not higher, the recommended rate is not
/// higher.
proof fn lemma_rate_follows_eventual(lower: DetermineBasalInputs, higher: DetermineBasalInputs)
    requires
        same_setting(lower, higher),
        ceiling_fits(*lower.profile),
        lower.profile.min_bg <= lower.profile.max_bg,
        lower.profile.current_basal > 0,
        lower.profile.sens > 0,
        lower.bg() >= LOW_GLUCOSE,
        higher.bg() >= LOW_GLUCOSE,
        lower.eventual_bg() <= higher.eventual_bg(),
    ensures
        lower.rate() is Some && higher.rate() is Some ==> lower.rate().unwrap()
            <= higher.rate().unwrap(),
{
    let profile = *lower.profile;
    let increment = pump_increment_of(profile);
    let ceiling = profile.max_basal as int;
    let basal = lower.basal();
    assert(higher.basal() == basal);
    lemma_basal_range(lower);
    lemma_insulin_req_sign(lower);
    lemma_insulin_req_sign(higher);
    lemma_round_to_increment_again(profile.current_basal as int, increment);
    let sens = profile.sens as int;
    let gap_lower = fx_sub(lower.eventual_bg(), lower.target_bg());
    let gap_higher = fx_sub(higher.eventual_bg(), higher.target_bg());
    lemma_sat(lower.eventual_bg() - lower.target_bg(), higher.eventual_bg() - higher.target_bg());
    lemma_fx_div_monotone(gap_lower, gap_higher, sens);
    lemma_fx_scale_monotone(lower.insulin_req(), higher.insulin_req(), 2);
    lemma_sat(
        basal + fx_scale(lower.insulin_req(), 2),
        basal + fx_scale(higher.insulin_req(), 2),
    );
    let needed_lower = lower.needed_rate();
    let needed_higher = higher.needed_rate();
    assert(needed_lower <= needed_higher);
    if lower.rate() is Some && higher.rate() is Some {
        match higher.decision() {
            Decision::Lower => {
                lemma_round_to_increment_monotone(
                    max_of(needed_lower, 0),
                    max_of(needed_higher, 0),
                    increment,
                );
            },
            Decision::CancelHighTemp => {
                if lower.decision() == Decision::Lower {
                    lemma_round_to_increment_monotone(max_of(needed_lower, 0), basal, increment);
                }
            },
            Decision::Raise => {
                let capped = clamp(needed_higher, 0, ceiling);
                lemma_round_to_increment_monotone(basal, capped, increment);
                if lower.decision() == Decision::Lower {
                    lemma_round_to_increment_monotone(max_of(needed_lower, 0), basal, increment);
                } else if lower.decision() == Decision::Raise {
                    lemma_round_to_increment_monotone(
                        clamp(needed_lower, 0, ceiling),
                        capped,
                        increment,
                    );
                }
            },
            _ => {},
        }
    }
}

/// With all else the same, more insulin on board never raises the
/// recommended rate.
pub proof fn lemma_more_insulin_never_raises_rate(less: DetermineBasalInputs, more: DetermineBasalInputs)
    requires
        same_setting(less, more),
        less.glucose_status.glucose == more.glucose_status.glucose,
        less.iob_data.iob <= more.iob_data.iob,
        ceiling_fits(*less.profile),
        less.profile.min_bg <= less.profile.max_bg,
    ensures
        less.rate() is Some && more.rate() is Some ==> more.rate().unwrap() <= less.rate().unwrap(),
{
    if less.profile.current_basal > 0 && less.bg() >= LOW_GLUCOSE && less.profile.sens > 0 {
        lemma_fx_mul_monotone(
            less.iob_data.iob as int,
            more.iob_data.iob as int,
            less.profile.sens as int,
        );
        let trend = fx_add(less.bg(), fx_scale(less.glucose_status.delta as int, 12));
        let fall_less = fx_mul(less.iob_data.iob as int, less.profile.sens as int);
        let fall_more = fx_mul(more.iob_data.iob as int, less.profile.sens as int);
        lemma_sat(trend - fall_more, trend - fall_less);
        lemma_rate_follows_eventual(more, less);
    }
}

/// With all else the same, higher glucose never lowers the recommended
/// rate.
pub proof fn lemma_higher_glucose_never_lowers_rate(
    lower: DetermineBasalInputs,
    higher: DetermineBasalInputs,
)
    requires
        same_setting(lower, higher),
        lower.iob_data.iob == higher.iob_data.iob,
        lower.glucose_status.glucose <= higher.glucose_status.glucose,
        ceiling_fits(*lower.profile),
        lower.profile.min_bg <= lower.profile.max_bg,
    ensures
        lower.rate() is Some && higher.rate() is Some ==> lower.rate().unwrap()
            <= higher.rate().unwrap(),
{
    lemma_rate_within_ceiling(higher);
    if lower.profile.current_basal > 0 && lower.bg() >= LOW_GLUCOSE && lower.profile.sens > 0 {
        let rise = fx_scale(lower.glucose_status.delta as int, 12);
        let fall = fx_mul(lower.iob_data.iob as int, lower.profile.sens as int);
        lemma_sat(lower.bg() + rise, higher.bg() + rise);
        lemma_sat(fx_add(lower.bg(), rise) - fall, fx_add(higher.bg(), rise) - fall);
        lemma_rate_follows_eventual(lower, higher);
    }
}

} // verus!
