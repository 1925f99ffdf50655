//! The super micro bolus: when it is enabled and how large it may be.

use crate::fixed::div_int_fx;
use crate::fixed::floor_to_fx;
use crate::fixed::fx_div_int;
use crate::fixed::fx_floor_to;
use crate::fixed::fx_mul;
use crate::fixed::fx_scale;
use crate::fixed::lemma_floor_to_below;
use crate::fixed::lemma_sat;
use crate::fixed::on_grid;
use crate::fixed::min_fx;
use crate::fixed::min_of;
use crate::fixed::mul_fx;
use crate::fixed::scale_fx;
use crate::fixed::ONE;
use crate::types::treatment::NEUTRAL_TARGET;
use crate::types::MealData;
use crate::types::Profile;
use vstd::prelude::*;

verus! {

/// Whether the profile and the meal data enable a micro bolus at glucose
/// `bg` with target `target_bg`. The two safety rules come first: no micro
/// bolus with a high temporary target unless allowed, and none after a bolus
/// wizard entry unless that risk is accepted.
pub open spec fn smb_enabled(
    profile: Profile,
    micro_bolus_allowed: bool,
    meal_data: MealData,
    bg: int,
    target_bg: int,
) -> bool {
    if !micro_bolus_allowed {
        false
    } else if !profile.allow_smb_with_high_temptarget && profile.temptarget_set && target_bg
        > NEUTRAL_TARGET {
        false
    } else if meal_data.bw_found && !profile.a52_risk_enable {
        false
    } else if profile.enable_smb_always {
        true
    } else if profile.enable_smb_with_cob && meal_data.meal_cob > 0 {
        true
    } else if profile.enable_smb_after_carbs && meal_data.carbs > 0 {
        true
    } else if profile.enable_smb_with_temptarget && profile.temptarget_set && target_bg
        < NEUTRAL_TARGET {
        true
    } else {
        profile.enable_smb_high_bg && bg >= profile.enable_smb_high_bg_target
    }
}

/// The minutes of basal that cap a micro bolus: one cap with carbs on board,
/// another without.
pub open spec fn smb_cap_minutes(profile: Profile, cob: int) -> int {
    if cob > 0 {
        profile.max_smb_basal_minutes as int
    } else {
        profile.max_uam_smb_basal_minutes as int
    }
}

/// The largest micro bolus: the basal of the capping minutes.
pub open spec fn max_smb_of(profile: Profile, cob: int, basal: int) -> int {
    fx_div_int(fx_scale(basal, smb_cap_minutes(profile, cob)), 60)
}

/// The micro bolus before the test against the pump's step: the deliverable
/// share of the insulin required, capped, and cut down to a multiple of the
/// step.
pub open spec fn smb_size(profile: Profile, insulin_req: int, cob: int, basal: int) -> int {
    fx_floor_to(
        min_of(
            fx_mul(insulin_req, min_of(profile.smb_delivery_ratio as int, ONE as int)),
            max_smb_of(profile, cob, basal),
        ),
        profile.bolus_increment as int,
    )
}

/// The micro bolus to deliver, if any: none without insulin required, none
/// without a positive step, none below one step.
pub open spec fn smb_of(profile: Profile, insulin_req: int, cob: int, basal: int) -> Option<int> {
    if insulin_req <= 0 || profile.bolus_increment <= 0 {
        None
    } else if smb_size(profile, insulin_req, cob, basal) >= profile.bolus_increment {
        Some(smb_size(profile, insulin_req, cob, basal))
    } else {
        None
    }
}

/// A micro bolus is at least one step of the pump, a whole number of steps,
/// and no more than the basal of the capping minutes.
pub proof fn lemma_smb_within_cap(profile: Profile, insulin_req: int, cob: int, basal: int)
    ensures
        smb_of(profile, insulin_req, cob, basal) matches Some(units) ==> {
            &&& units >= profile.bolus_increment > 0
            &&& units <= max_smb_of(profile, cob, basal)
            &&& on_grid(units, profile.bolus_increment as int)
        },
{
    if smb_of(profile, insulin_req, cob, basal) is Some {
        let wanted = min_of(
            fx_mul(insulin_req, min_of(profile.smb_delivery_ratio as int, ONE as int)),
            max_smb_of(profile, cob, basal),
        );
        lemma_floor_to_below(wanted, profile.bolus_increment as int);
        lemma_sat(wanted, wanted);
    }
}

/// Whether a micro bolus is enabled.
pub fn should_enable_smb(
    profile: &Profile,
    micro_bolus_allowed: bool,
    meal_data: &MealData,
    bg: i64,
    target_bg: i64,
) -> (r: bool)
    ensures
        r == smb_enabled(*profile, micro_bolus_allowed, *meal_data, bg as int, target_bg as int),
{
    if !micro_bolus_allowed {
        return false;
    }
    if !profile.allow_smb_with_high_temptarget && profile.temptarget_set && target_bg
        > NEUTRAL_TARGET {
        return false;
    }
    if meal_data.bw_found && !profile.a52_risk_enable {
        return false;
    }
    if profile.enable_smb_always {
        return true;
    }
    if profile.enable_smb_with_cob && meal_data.meal_cob > 0 {
        return true;
    }
    if profile.enable_smb_after_carbs && meal_data.carbs > 0 {
        return true;
    }
    if profile.enable_smb_with_temptarget && profile.temptarget_set && target_bg < NEUTRAL_TARGET {
        return true;
    }
    if profile.enable_smb_high_bg && bg >= profile.enable_smb_high_bg_target {
        return true;
    }
    false
}

/// The largest micro bolus.
pub fn calculate_max_smb(profile: &Profile, iob: i64, cob: i64, basal: i64) -> (r: i64)
    ensures
        r == max_smb_of(*profile, cob as int, basal as int),
{
    let max_minutes: u32 = if cob > 0 {
        profile.max_smb_basal_minutes
    } else {
        profile.max_uam_smb_basal_minutes
    };
    div_int_fx(scale_fx(basal, max_minutes as i64), 60)
}

/// The micro bolus to deliver, if any.
pub fn calculate_smb(profile: &Profile, insulin_req: i64, iob: i64, cob: i64, basal: i64) -> (r:
    Option<i64>)
    ensures
        r is Some <==> smb_of(*profile, insulin_req as int, cob as int, basal as int) is Some,
        r matches Some(units) ==> smb_of(*profile, insulin_req as int, cob as int, basal as int)
            == Some(units as int),
        r matches Some(units) ==> {
            &&& units >= profile.bolus_increment > 0
            &&& units <= max_smb_of(*profile, cob as int, basal as int)
            &&& on_grid(units as int, profile.bolus_increment as int)
        },
{
    proof {
        lemma_smb_within_cap(*profile, insulin_req as int, cob as int, basal as int);
    }
    if insulin_req <= 0 || profile.bolus_increment <= 0 {
        return None;
    }
    let max_smb: i64 = calculate_max_smb(profile, iob, cob, basal);
    let smb_ratio: i64 = min_fx(profile.smb_delivery_ratio, ONE);
    let smb: i64 = floor_to_fx(min_fx(mul_fx(insulin_req, smb_ratio), max_smb), profile.bolus_increment);
    if smb >= profile.bolus_increment {
        Some(smb)
    } else {
        None
    }
}

} // verus!
