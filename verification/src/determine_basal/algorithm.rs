//! The decision: suspend, hold, raise or lower.

use super::predictions::calculate_eventual_bg;
use super::predictions::cob_point;
use super::predictions::default_point;
use super::predictions::eventual_bg_of;
use super::predictions::generate_cob_predictions;
use super::predictions::generate_iob_only_predictions;
use super::predictions::generate_uam_predictions;
use super::predictions::generate_zero_temp_predictions;
use super::predictions::iob_point;
use super::predictions::is_curve;
use super::predictions::predict_glucose;
use super::predictions::uam_point;
use super::predictions::zero_temp_point;
use super::safety::ceiling_fits;
use super::safety::lemma_rate_within_ceiling;
use super::safety::lemma_units_within_cap;
use super::smb::calculate_smb;
use super::smb::max_smb_of;
use super::smb::should_enable_smb;
use super::smb::smb_enabled;
use super::smb::smb_of;
use super::DetermineBasalInputs;
use crate::error::OrefError;
use crate::fixed::add_fx;
use crate::fixed::clamp;
use crate::fixed::div_fx;
use crate::fixed::fx_add;
use crate::fixed::fx_div;
use crate::fixed::fx_scale;
use crate::fixed::fx_sub;
use crate::fixed::max_fx;
use crate::fixed::max_of;
use crate::fixed::min_fx;
use crate::fixed::on_grid;
use crate::fixed::scale_fx;
use crate::fixed::sub_fx;
use crate::text::decimal_text;
use crate::text::push_decimal;
use crate::time::minutes_between;
use crate::time::minutes_from;
use crate::types::DetermineBasalResult;
use crate::utils::round::round_basal_of;
use crate::utils::round_basal;
use vstd::prelude::*;
use vstd::string::StringExecFns;

verus! {

/// Below this glucose delivery is suspended: 80 mg/dL.
pub const LOW_GLUCOSE: i64 = 80_000_000;

/// Duration of every temporary basal rate that the controller sets, minutes.
pub const TEMP_DURATION: u32 = 30;

/// What the controller does.
#[derive(Debug, Clone, Copy, PartialEq, Eq, Structural)]
pub enum Decision {
    /// The profile gives no basal rate or no sensitivity to work with.
    Rejected,
    /// Glucose is low: no delivery for half an hour.
    Suspend,
    /// Eventual glucose is in range and a higher temporary rate is running:
    /// back to the scheduled rate.
    CancelHighTemp,
    /// Eventual glucose is in range: nothing to change.
    Hold,
    /// Eventual glucose is above the range: more insulin.
    Raise,
    /// Eventual glucose is below the range: less insulin.
    Lower,
}

/// Whether an optional quantity holds the given optional value.
pub open spec fn holds(field: Option<i64>, value: Option<int>) -> bool {
    match value {
        Some(v) => field == Some(v as i64) && v == v as i64,
        None => field is None,
    }
}

/// Why delivery is suspended.
pub open spec fn suspend_text(bg: int) -> Seq<char> {
    "BG "@ + decimal_text(bg, 0) + " < 80, temp zero"@
}

/// Why nothing changes, or why a high temporary rate is cancelled.
pub open spec fn range_text(eventual: int, low: int, high: int, cancel: bool) -> Seq<char> {
    "Eventual BG "@ + decimal_text(eventual, 0) + " in range ("@ + decimal_text(low, 0) + "-"@
        + decimal_text(high, 0) + if cancel {
        "), canceling high temp"@
    } else {
        "), no action needed"@
    }
}

/// Why the rate is raised.
pub open spec fn raise_text(eventual: int, high: int, insulin_req: int, rate: int) -> Seq<char> {
    "Eventual BG "@ + decimal_text(eventual, 0) + " > "@ + decimal_text(high, 0)
        + ", insulin required "@ + decimal_text(insulin_req, 2) + "U, setting temp "@
        + decimal_text(rate, 2) + "U/hr"@
}

/// Why the rate is lowered.
pub open spec fn lower_text(eventual: int, low: int, rate: int) -> Seq<char> {
    "Eventual BG "@ + decimal_text(eventual, 0) + " < "@ + decimal_text(low, 0)
        + ", reducing to "@ + decimal_text(rate, 2) + "U/hr"@
}

fn suspend_reason(bg: i64) -> (r: String)
    ensures
        r@ == suspend_text(bg as int),
{
    let mut reason: String = String::from_str("BG ");
    push_decimal(&mut reason, bg, 0);
    reason.append(" < 80, temp zero");
    reason
}

fn range_reason(eventual: i64, low: i64, high: i64, cancel: bool) -> (r: String)
    ensures
        r@ == range_text(eventual as int, low as int, high as int, cancel),
{
    let mut reason: String = String::from_str("Eventual BG ");
    push_decimal(&mut reason, eventual, 0);
    reason.append(" in range (");
    push_decimal(&mut reason, low, 0);
    reason.append("-");
    push_decimal(&mut reason, high, 0);
    if cancel {
        reason.append("), canceling high temp");
    } else {
        reason.append("), no action needed");
    }
    reason
}

fn raise_reason(eventual: i64, high: i64, insulin_req: i64, rate: i64) -> (r: String)
    ensures
        r@ == raise_text(eventual as int, high as int, insulin_req as int, rate as int),
{
    let mut reason: String = String::from_str("Eventual BG ");
    push_decimal(&mut reason, eventual, 0);
    reason.append(" > ");
    push_decimal(&mut reason, high, 0);
    reason.append(", insulin required ");
    push_decimal(&mut reason, insulin_req, 2);
    reason.append("U, setting temp ");
    push_decimal(&mut reason, rate, 2);
    reason.append("U/hr");
    reason
}

fn lower_reason(eventual: i64, low: i64, rate: i64) -> (r: String)
    ensures
        r@ == lower_text(eventual as int, low as int, rate as int),
{
    let mut reason: String = String::from_str("Eventual BG ");
    push_decimal(&mut reason, eventual, 0);
    reason.append(" < ");
    push_decimal(&mut reason, low, 0);
    reason.append(", reducing to ");
    push_decimal(&mut reason, rate, 2);
    reason.append("U/hr");
    reason
}

impl<'a> DetermineBasalInputs<'a> {
    /// Current glucose, mg/dL.
    pub open spec fn bg(self) -> int {
        self.glucose_status.glucose as int
    }

    /// The target: the lower bound of the range.
    pub open spec fn target_bg(self) -> int {
        self.profile.min_bg as int
    }

    /// The scheduled basal rate as the pump delivers it.
    pub open spec fn basal(self) -> int {
        round_basal_of(self.profile.current_basal as int, *self.profile)
    }

    /// Glucose expected once the insulin on board has acted.
    pub open spec fn eventual_bg(self) -> int {
        eventual_bg_of(
            self.bg(),
            self.glucose_status.delta as int,
            self.iob_data.iob as int,
            self.profile.sens as int,
        )
    }

    /// Insulin that brings the eventual glucose to the target, units.
    pub open spec fn insulin_req(self) -> int {
        fx_div(fx_sub(self.eventual_bg(), self.target_bg()), self.profile.sens as int)
    }

    /// The rate that delivers the insulin required within half an hour.
    pub open spec fn needed_rate(self) -> int {
        fx_add(self.basal(), fx_scale(self.insulin_req(), 2))
    }

    /// What the controller does: it rejects a profile without a basal
    /// rate, suspends below 80 mg/dL, rejects a profile without a
    /// sensitivity, and else goes by where the eventual glucose lies.
    pub open spec fn decision(self) -> Decision {
        if self.profile.current_basal <= 0 {
            Decision::Rejected
        } else if self.bg() < LOW_GLUCOSE {
            Decision::Suspend
        } else if self.profile.sens <= 0 {
            Decision::Rejected
        } else if self.profile.min_bg <= self.eventual_bg() <= self.profile.max_bg {
            if self.current_temp.active() && self.current_temp.rate > self.basal() {
                Decision::CancelHighTemp
            } else {
                Decision::Hold
            }
        } else if self.eventual_bg() > self.profile.max_bg {
            Decision::Raise
        } else {
            Decision::Lower
        }
    }

    /// The temporary basal rate to set, if any.
    pub open spec fn rate(self) -> Option<int> {
        match self.decision() {
            Decision::Rejected => None,
            Decision::Suspend => Some(0),
            Decision::CancelHighTemp => Some(self.basal()),
            Decision::Hold => None,
            Decision::Raise => Some(
                round_basal_of(
                    clamp(self.needed_rate(), 0, self.profile.max_basal as int),
                    *self.profile,
                ),
            ),
            Decision::Lower => Some(round_basal_of(max_of(self.needed_rate(), 0), *self.profile)),
        }
    }

    /// Whether a micro bolus comes into question.
    pub open spec fn smb_considered(self) -> bool {
        &&& self.decision() == Decision::Raise
        &&& self.micro_bolus_allowed
        &&& self.insulin_req() > 0
        &&& smb_enabled(
            *self.profile,
            self.micro_bolus_allowed,
            *self.meal_data,
            self.bg(),
            self.target_bg(),
        )
    }

    /// The micro bolus to deliver, if any.
    pub open spec fn units(self) -> Option<int> {
        if self.smb_considered() {
            smb_of(*self.profile, self.insulin_req(), self.meal_data.meal_cob as int, self.basal())
        } else {
            None
        }
    }

    /// The decision in words.
    pub open spec fn reason(self) -> Seq<char> {
        match self.decision() {
            Decision::Rejected => if self.profile.current_basal <= 0 {
                "Could not get current basal rate"@
            } else {
                "Could not get insulin sensitivity"@
            },
            Decision::Suspend => suspend_text(self.bg()),
            Decision::CancelHighTemp => range_text(
                self.eventual_bg(),
                self.profile.min_bg as int,
                self.profile.max_bg as int,
                true,
            ),
            Decision::Hold => range_text(
                self.eventual_bg(),
                self.profile.min_bg as int,
                self.profile.max_bg as int,
                false,
            ),
            Decision::Raise => raise_text(
                self.eventual_bg(),
                self.profile.max_bg as int,
                self.insulin_req(),
                self.rate().unwrap(),
            ),
            Decision::Lower => lower_text(
                self.eventual_bg(),
                self.profile.min_bg as int,
                self.rate().unwrap(),
            ),
        }
    }

    /// Whether `x` carries the five predicted curves of these inputs.
    pub open spec fn predicts(self, x: DetermineBasalResult) -> bool {
        let bg = self.bg();
        let delta = self.glucose_status.delta as int;
        let iob = self.iob_data.iob as int;
        let sens = self.profile.sens as int;
        let basal = self.profile.current_basal as int;
        let cob = self.meal_data.meal_cob as int;
        let carb_ratio = self.profile.carb_ratio as int;
        &&& x.predicted_bg matches Some(curve) && is_curve(
            curve@,
            |i: int| default_point(bg, delta, iob, sens, i),
        )
        &&& x.pred_bgs_iob matches Some(curve) && is_curve(
            curve@,
            |i: int| iob_point(bg, iob, sens, i),
        )
        &&& x.pred_bgs_zt matches Some(curve) && is_curve(
            curve@,
            |i: int| zero_temp_point(bg, delta, iob, sens, basal, i),
        )
        &&& x.pred_bgs_uam matches Some(curve) && is_curve(
            curve@,
            |i: int| uam_point(bg, delta, iob, sens, i),
        )
        &&& x.pred_bgs_cob matches Some(curve) && is_curve(
            curve@,
            |i: int| cob_point(bg, delta, iob, sens, cob, carb_ratio, i),
        )
    }

    /// Whether `x` is the recommendation for these inputs.
    pub open spec fn is_answered_by(self, x: DetermineBasalResult) -> bool {
        &&& holds(x.rate, self.rate())
        &&& x.duration == if self.rate() is Some {
            Some(TEMP_DURATION)
        } else {
            None
        }
        &&& holds(x.units, self.units())
        &&& x.reason@ == self.reason()
        &&& match self.decision() {
            Decision::Rejected => x.carries_no_figures(),
            decision => {
                &&& x.cob == self.meal_data.meal_cob
                &&& x.iob == self.iob_data.iob
                &&& x.eventual_bg == if decision == Decision::Suspend {
                    self.bg()
                } else {
                    self.eventual_bg()
                }
                &&& x.bg_mins_ago == Some(
                    minutes_between(
                        self.glucose_status.date as int,
                        self.current_time as int,
                    ) as i64,
                )
                &&& x.target_bg == Some(self.profile.min_bg)
                &&& x.sensitivity_ratio == if decision == Decision::Suspend {
                    None
                } else {
                    Some(self.autosens_data.ratio)
                }
                &&& holds(
                    x.insulin_req,
                    if decision == Decision::Suspend {
                        None
                    } else {
                        Some(self.insulin_req())
                    },
                )
                &&& self.predicts(x)
            },
        }
    }
}

/// Whether two optional curves hold the same points.
pub open spec fn same_curve(a: Option<Vec<i64>>, b: Option<Vec<i64>>) -> bool {
    match (a, b) {
        (Some(x), Some(y)) => x@ == y@,
        (None, None) => true,
        _ => false,
    }
}

/// The inputs determine the recommendation: two answers to the same inputs
/// agree in every figure, in every curve and in the reason.
pub proof fn lemma_one_answer(
    inputs: DetermineBasalInputs,
    x: DetermineBasalResult,
    y: DetermineBasalResult,
)
    requires
        inputs.is_answered_by(x),
        inputs.is_answered_by(y),
    ensures
        x.rate == y.rate,
        x.duration == y.duration,
        x.units == y.units,
        x.reason@ == y.reason@,
        x.cob == y.cob,
        x.iob == y.iob,
        x.eventual_bg == y.eventual_bg,
        x.bg_mins_ago == y.bg_mins_ago,
        x.target_bg == y.target_bg,
        x.sensitivity_ratio == y.sensitivity_ratio,
        x.insulin_req == y.insulin_req,
        same_curve(x.predicted_bg, y.predicted_bg),
        same_curve(x.pred_bgs_iob, y.pred_bgs_iob),
        same_curve(x.pred_bgs_zt, y.pred_bgs_zt),
        same_curve(x.pred_bgs_uam, y.pred_bgs_uam),
        same_curve(x.pred_bgs_cob, y.pred_bgs_cob),
{
    if inputs.decision() != Decision::Rejected {
        assert(x.predicted_bg.unwrap()@ =~= y.predicted_bg.unwrap()@);
        assert(x.pred_bgs_iob.unwrap()@ =~= y.pred_bgs_iob.unwrap()@);
        assert(x.pred_bgs_zt.unwrap()@ =~= y.pred_bgs_zt.unwrap()@);
        assert(x.pred_bgs_uam.unwrap()@ =~= y.pred_bgs_uam.unwrap()@);
        assert(x.pred_bgs_cob.unwrap()@ =~= y.pred_bgs_cob.unwrap()@);
    }
}

/// The recommendation for `inputs`: a temporary basal rate for half an hour
/// where one is to be set, and a micro bolus where one is due.
#[verifier::rlimit(30)]
pub fn determine_basal(inputs: &DetermineBasalInputs) -> (r: Result<DetermineBasalResult, OrefError>)
    ensures
        r matches Ok(x) && inputs.is_answered_by(x),
        r matches Ok(x) && (ceiling_fits(*inputs.profile) && x.rate is Some ==> 0 <= x.rate.unwrap()
            <= inputs.profile.max_basal),
        r matches Ok(x) && (inputs.bg() < LOW_GLUCOSE && inputs.profile.current_basal > 0 ==> x.rate
            == Some(0i64) && x.units is None),
        r matches Ok(x) && (x.units is Some ==> {
            &&& x.units.unwrap() >= inputs.profile.bolus_increment > 0
            &&& x.units.unwrap() <= max_smb_of(
                *inputs.profile,
                inputs.meal_data.meal_cob as int,
                inputs.basal(),
            )
            &&& on_grid(x.units.unwrap() as int, inputs.profile.bolus_increment as int)
        }),
{
    proof {
        if ceiling_fits(*inputs.profile) {
            lemma_rate_within_ceiling(*inputs);
        }
        lemma_units_within_cap(*inputs);
    }
    let glucose_status = inputs.glucose_status;
    let current_temp = inputs.current_temp;
    let iob_data = inputs.iob_data;
    let profile = inputs.profile;
    let meal_data = inputs.meal_data;

    if profile.current_basal <= 0 {
        return Ok(DetermineBasalResult::error("Could not get current basal rate"));
    }
    let bg: i64 = glucose_status.glucose;
    let target_bg: i64 = profile.min_bg;
    let sens: i64 = profile.sens;
    let basal: i64 = round_basal(profile.current_basal, profile);
    let bg_mins_ago: i64 = minutes_from(glucose_status.date, inputs.current_time);

    if bg >= LOW_GLUCOSE && sens <= 0 {
        return Ok(DetermineBasalResult::error("Could not get insulin sensitivity"));
    }
    let pred_bgs = predict_glucose(glucose_status, iob_data, profile);
    let pred_bgs_iob = generate_iob_only_predictions(glucose_status, iob_data, profile);
    let pred_bgs_zt = generate_zero_temp_predictions(glucose_status, iob_data, profile);
    let pred_bgs_uam = generate_uam_predictions(glucose_status, iob_data, profile);
    let pred_bgs_cob = generate_cob_predictions(glucose_status, iob_data, meal_data, profile);

    if bg < LOW_GLUCOSE {
        let mut result = DetermineBasalResult::temp_basal(0, TEMP_DURATION, suspend_reason(bg));
        result.cob = meal_data.meal_cob;
        result.iob = iob_data.iob;
        result.eventual_bg = bg;
        result.bg_mins_ago = Some(bg_mins_ago);
        result.target_bg = Some(target_bg);
        result.predicted_bg = Some(pred_bgs);
        result.pred_bgs_iob = Some(pred_bgs_iob);
        result.pred_bgs_zt = Some(pred_bgs_zt);
        result.pred_bgs_uam = Some(pred_bgs_uam);
        result.pred_bgs_cob = Some(pred_bgs_cob);
        return Ok(result);
    }
    let eventual_bg: i64 = calculate_eventual_bg(glucose_status, iob_data, profile);
    let insulin_req: i64 = div_fx(sub_fx(eventual_bg, target_bg), sens);

    let mut result = DetermineBasalResult::default();
    result.cob = meal_data.meal_cob;
    result.iob = iob_data.iob;
    result.eventual_bg = eventual_bg;
    result.bg_mins_ago = Some(bg_mins_ago);
    result.target_bg = Some(target_bg);
    result.sensitivity_ratio = Some(inputs.autosens_data.ratio);
    result.predicted_bg = Some(pred_bgs);
    result.pred_bgs_iob = Some(pred_bgs_iob);
    result.pred_bgs_zt = Some(pred_bgs_zt);
    result.pred_bgs_uam = Some(pred_bgs_uam);
    result.pred_bgs_cob = Some(pred_bgs_cob);
    result.insulin_req = Some(insulin_req);

    if eventual_bg >= profile.min_bg && eventual_bg <= profile.max_bg {
        let cancel: bool = current_temp.is_active() && current_temp.rate > basal;
        if cancel {
            result.rate = Some(basal);
            result.duration = Some(TEMP_DURATION);
        }
        result.reason = range_reason(eventual_bg, profile.min_bg, profile.max_bg, cancel);
        return Ok(result);
    }
    let needed: i64 = add_fx(basal, scale_fx(insulin_req, 2));
    if eventual_bg > profile.max_bg {
        let needed_rate: i64 = round_basal(min_fx(max_fx(needed, 0), profile.max_basal), profile);
        if inputs.micro_bolus_allowed && insulin_req > 0 && should_enable_smb(
            profile,
            inputs.micro_bolus_allowed,
            meal_data,
            bg,
            target_bg,
        ) {
            result.units = calculate_smb(profile, insulin_req, iob_data.iob, meal_data.meal_cob, basal);
        }
        result.rate = Some(needed_rate);
        result.duration = Some(TEMP_DURATION);
        result.reason = raise_reason(eventual_bg, profile.max_bg, insulin_req, needed_rate);
        return Ok(result);
    }
    let needed_rate: i64 = round_basal(max_fx(needed, 0), profile);
    result.rate = Some(needed_rate);
    result.duration = Some(TEMP_DURATION);
    result.reason = lower_reason(eventual_bg, profile.min_bg, needed_rate);
    Ok(result)
}

} // verus!
