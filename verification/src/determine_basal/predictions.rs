//! Eventual glucose and the predicted glucose curves.

use crate::exp::exp_neg;
use crate::exp::exp_neg_fx;
use crate::fixed::add_fx;
use crate::fixed::div_int_fx;
use crate::fixed::div_fx;
use crate::fixed::div_round;
use crate::fixed::div_round_exec;
use crate::fixed::fx_add;
use crate::fixed::fx_div;
use crate::fixed::fx_div_int;
use crate::fixed::fx_mul;
use crate::fixed::fx_round;
use crate::fixed::fx_scale;
use crate::fixed::fx_sub;
use crate::fixed::max_fx;
use crate::fixed::max_of;
use crate::fixed::mul_fx;
use crate::fixed::round_fx;
use crate::fixed::scale_fx;
use crate::fixed::sub_fx;
use crate::fixed::ONE;
use crate::types::GlucoseStatus;
use crate::types::IOBData;
use crate::types::MealData;
use crate::types::Profile;
use vstd::prelude::*;

verus! {

/// Number of points of a predicted curve: four hours in steps of five minutes.
pub const PREDICTION_POINTS: usize = 48;

/// No prediction goes below 39 mg/dL.
pub const PREDICTION_FLOOR: i64 = 39_000_000;

/// The factor `e^(-5 i / tau)` by which an effect has decayed at point `i`,
/// with `tau` in minutes.
pub open spec fn decay(i: int, tau: int) -> int {
    exp_neg(div_round(i * 5_000_000, tau))
}

/// The bell `e^(-((5 i - 45) / 30)^2)` of carb absorption around 45 minutes.
pub open spec fn absorption_bell(i: int) -> int {
    exp_neg(div_round((i - 9) * (i - 9) * 1_000_000, 36))
}

/// The fall of glucose that the insulin on board still causes at point `i`.
pub open spec fn iob_effect(iob: int, sens: int, i: int) -> int {
    fx_mul(fx_mul(iob, decay(i, 60)), sens)
}

/// The change of glucose that the trend `delta` adds up to at point `i`,
/// where the trend decays with `tau` minutes.
pub open spec fn delta_effect(delta: int, i: int, tau: int) -> int {
    fx_mul(fx_scale(delta, i), decay(i, tau))
}

/// The rise of glucose at point `i` for want of the scheduled basal:
/// half of `basal / 60 * minutes * sens`.
pub open spec fn basal_rise(basal: int, sens: int, i: int) -> int {
    fx_mul(fx_div_int(fx_scale(basal, i), 24), sens)
}

/// The rise of glucose at point `i` from the carbs on board.
pub open spec fn carb_effect(cob: int, carb_ratio: int, sens: int, i: int) -> int {
    if cob > 0 {
        fx_mul(
            fx_div_int(fx_mul(fx_div(cob, max_of(carb_ratio, ONE as int)), sens), 2),
            absorption_bell(i),
        )
    } else {
        0
    }
}

/// Point `i` of the default curve: the trend decays over 30 minutes.
pub open spec fn default_point(bg: int, delta: int, iob: int, sens: int, i: int) -> int {
    max_of(
        fx_sub(fx_add(bg, delta_effect(delta, i, 30)), iob_effect(iob, sens, i)),
        PREDICTION_FLOOR as int,
    )
}

/// Point `i` of the curve with insulin on board alone.
pub open spec fn iob_point(bg: int, iob: int, sens: int, i: int) -> int {
    max_of(fx_sub(bg, iob_effect(iob, sens, i)), PREDICTION_FLOOR as int)
}

/// Point `i` of the curve without any delivery: a rising trend decays over
/// 45 minutes, a falling one is left out.
pub open spec fn zero_temp_point(
    bg: int,
    delta: int,
    iob: int,
    sens: int,
    basal: int,
    i: int,
) -> int {
    max_of(
        fx_sub(
            fx_add(fx_add(bg, delta_effect(max_of(delta, 0), i, 45)), basal_rise(basal, sens, i)),
            iob_effect(iob, sens, i),
        ),
        PREDICTION_FLOOR as int,
    )
}

/// Point `i` of the curve of an unannounced meal: the trend decays over 60
/// minutes.
pub open spec fn uam_point(bg: int, delta: int, iob: int, sens: int, i: int) -> int {
    max_of(
        fx_sub(fx_add(bg, delta_effect(delta, i, 60)), iob_effect(iob, sens, i)),
        PREDICTION_FLOOR as int,
    )
}

/// Point `i` of the curve with carb absorption.
pub open spec fn cob_point(
    bg: int,
    delta: int,
    iob: int,
    sens: int,
    cob: int,
    carb_ratio: int,
    i: int,
) -> int {
    max_of(
        fx_sub(
            fx_add(fx_add(bg, delta_effect(delta, i, 30)), carb_effect(cob, carb_ratio, sens, i)),
            iob_effect(iob, sens, i),
        ),
        PREDICTION_FLOOR as int,
    )
}

/// Whether `curve` holds `point(i)` at each of its 48 points.
pub open spec fn is_curve(curve: Seq<i64>, point: spec_fn(int) -> int) -> bool {
    &&& curve.len() == PREDICTION_POINTS
    &&& forall|i: int| 0 <= i < PREDICTION_POINTS ==> #[trigger] curve[i] == point(i)
}

/// Glucose expected once the insulin on board has acted and the trend has
/// run for an hour; never below 0.
pub open spec fn eventual_bg_of(bg: int, delta: int, iob: int, sens: int) -> int {
    max_of(fx_sub(fx_add(bg, fx_scale(delta, 12)), fx_mul(iob, sens)), 0)
}

/// Change of glucose per five minutes that the insulin activity explains,
/// to two decimal places.
pub open spec fn bgi_of(activity: int, sens: int) -> int {
    fx_round(fx_scale(fx_mul(fx_sub(0, activity), sens), 5), 2)
}

/// Change of glucose per five minutes that is expected where the eventual
/// glucose is to reach the target within two hours.
pub open spec fn expected_delta_of(target_bg: int, eventual_bg: int, bgi: int) -> int {
    fx_div_int(
        fx_round(fx_add(bgi, fx_div_int(fx_scale(fx_sub(target_bg, eventual_bg), 10), 24)), 0),
        10,
    )
}

fn decay_fx(i: usize, tau: i64) -> (r: i64)
    requires
        i < PREDICTION_POINTS,
        0 < tau <= 1000,
    ensures
        r == decay(i as int, tau as int),
        0 <= r <= ONE,
{
    let x: i128 = div_round_exec((i as i128) * 5_000_000, tau as i128);
    exp_neg_fx(x as i64)
}

fn absorption_bell_fx(i: usize) -> (r: i64)
    requires
        i < PREDICTION_POINTS,
    ensures
        r == absorption_bell(i as int),
        0 <= r <= ONE,
{
    let d: i128 = i as i128 - 9;
    assert(0 <= d * d <= 1600) by (nonlinear_arith)
        requires
            -9 <= d <= 40,
    ;
    let x: i128 = div_round_exec(d * d * 1_000_000, 36);
    exp_neg_fx(x as i64)
}

fn iob_effect_fx(iob: i64, sens: i64, i: usize) -> (r: i64)
    requires
        i < PREDICTION_POINTS,
    ensures
        r == iob_effect(iob as int, sens as int, i as int),
{
    mul_fx(mul_fx(iob, decay_fx(i, 60)), sens)
}

fn delta_effect_fx(delta: i64, i: usize, tau: i64) -> (r: i64)
    requires
        i < PREDICTION_POINTS,
        0 < tau <= 1000,
    ensures
        r == delta_effect(delta as int, i as int, tau as int),
{
    mul_fx(scale_fx(delta, i as i64), decay_fx(i, tau))
}

/// The default curve of predicted glucose.
pub fn predict_glucose(glucose_status: &GlucoseStatus, iob_data: &IOBData, profile: &Profile) -> (r:
    Vec<i64>)
    ensures
        is_curve(
            r@,
            |i: int|
                default_point(
                    glucose_status.glucose as int,
                    glucose_status.delta as int,
                    iob_data.iob as int,
                    profile.sens as int,
                    i,
                ),
        ),
{
    let bg: i64 = glucose_status.glucose;
    let sens: i64 = profile.sens;
    let mut curve: Vec<i64> = Vec::new();
    let mut i: usize = 0;
    while i < PREDICTION_POINTS
        invariant
            i <= PREDICTION_POINTS,
            bg == glucose_status.glucose,
            sens == profile.sens,
            curve@.len() == i,
            forall|j: int|
                0 <= j < i ==> #[trigger] curve@[j] == default_point(
                    bg as int,
                    glucose_status.delta as int,
                    iob_data.iob as int,
                    sens as int,
                    j,
                ),
        decreases PREDICTION_POINTS - i,
    {
        let point: i64 = max_fx(
            sub_fx(
                add_fx(bg, delta_effect_fx(glucose_status.delta, i, 30)),
                iob_effect_fx(iob_data.iob, sens, i),
            ),
            PREDICTION_FLOOR,
        );
        curve.push(point);
        i += 1;
    }
    curve
}

/// The curve with insulin on board alone.
pub fn generate_iob_only_predictions(
    glucose_status: &GlucoseStatus,
    iob_data: &IOBData,
    profile: &Profile,
) -> (r: Vec<i64>)
    ensures
        is_curve(
            r@,
            |i: int|
                iob_point(
                    glucose_status.glucose as int,
                    iob_data.iob as int,
                    profile.sens as int,
                    i,
                ),
        ),
{
    let bg: i64 = glucose_status.glucose;
    let sens: i64 = profile.sens;
    let mut curve: Vec<i64> = Vec::new();
    let mut i: usize = 0;
    while i < PREDICTION_POINTS
        invariant
            i <= PREDICTION_POINTS,
            bg == glucose_status.glucose,
            sens == profile.sens,
            curve@.len() == i,
            forall|j: int|
                0 <= j < i ==> #[trigger] curve@[j] == iob_point(
                    bg as int,
                    iob_data.iob as int,
                    sens as int,
                    j,
                ),
        decreases PREDICTION_POINTS - i,
    {
        let point: i64 = max_fx(sub_fx(bg, iob_effect_fx(iob_data.iob, sens, i)), PREDICTION_FLOOR);
        curve.push(point);
        i += 1;
    }
    curve
}

/// The curve without any delivery.
pub fn generate_zero_temp_predictions(
    glucose_status: &GlucoseStatus,
    iob_data: &IOBData,
    profile: &Profile,
) -> (r: Vec<i64>)
    ensures
        is_curve(
            r@,
            |i: int|
                zero_temp_point(
                    glucose_status.glucose as int,
                    glucose_status.delta as int,
                    iob_data.iob as int,
                    profile.sens as int,
                    profile.current_basal as int,
                    i,
                ),
        ),
{
    let bg: i64 = glucose_status.glucose;
    let sens: i64 = profile.sens;
    let basal: i64 = profile.current_basal;
    let rising: i64 = max_fx(glucose_status.delta, 0);
    let mut curve: Vec<i64> = Vec::new();
    let mut i: usize = 0;
    while i < PREDICTION_POINTS
        invariant
            i <= PREDICTION_POINTS,
            bg == glucose_status.glucose,
            sens == profile.sens,
            basal == profile.current_basal,
            rising == max_of(glucose_status.delta as int, 0),
            curve@.len() == i,
            forall|j: int|
                0 <= j < i ==> #[trigger] curve@[j] == zero_temp_point(
                    bg as int,
                    glucose_status.delta as int,
                    iob_data.iob as int,
                    sens as int,
                    basal as int,
                    j,
                ),
        decreases PREDICTION_POINTS - i,
    {
        let rise: i64 = mul_fx(div_int_fx(scale_fx(basal, i as i64), 24), sens);
        let point: i64 = max_fx(
            sub_fx(
                add_fx(add_fx(bg, delta_effect_fx(rising, i, 45)), rise),
                iob_effect_fx(iob_data.iob, sens, i),
            ),
            PREDICTION_FLOOR,
        );
        curve.push(point);
        i += 1;
    }
    curve
}

/// The curve of an unannounced meal.
pub fn generate_uam_predictions(
    glucose_status: &GlucoseStatus,
    iob_data: &IOBData,
    profile: &Profile,
) -> (r: Vec<i64>)
    ensures
        is_curve(
            r@,
            |i: int|
                uam_point(
                    glucose_status.glucose as int,
                    glucose_status.delta as int,
                    iob_data.iob as int,
                    profile.sens as int,
                    i,
                ),
        ),
{
    let bg: i64 = glucose_status.glucose;
    let sens: i64 = profile.sens;
    let mut curve: Vec<i64> = Vec::new();
    let mut i: usize = 0;
    while i < PREDICTION_POINTS
        invariant
            i <= PREDICTION_POINTS,
            bg == glucose_status.glucose,
            sens == profile.sens,
            curve@.len() == i,
            forall|j: int|
                0 <= j < i ==> #[trigger] curve@[j] == uam_point(
                    bg as int,
                    glucose_status.delta as int,
                    iob_data.iob as int,
                    sens as int,
                    j,
                ),
        decreases PREDICTION_POINTS - i,
    {
        let point: i64 = max_fx(
            sub_fx(
                add_fx(bg, delta_effect_fx(glucose_status.delta, i, 60)),
                iob_effect_fx(iob_data.iob, sens, i),
            ),
            PREDICTION_FLOOR,
        );
        curve.push(point);
        i += 1;
    }
    curve
}

/// The curve with carb absorption.
pub fn generate_cob_predictions(
    glucose_status: &GlucoseStatus,
    iob_data: &IOBData,
    meal_data: &MealData,
    profile: &Profile,
) -> (r: Vec<i64>)
    ensures
        is_curve(
            r@,
            |i: int|
                cob_point(
                    glucose_status.glucose as int,
                    glucose_status.delta as int,
                    iob_data.iob as int,
                    profile.sens as int,
                    meal_data.meal_cob as int,
                    profile.carb_ratio as int,
                    i,
                ),
        ),
{
    let bg: i64 = glucose_status.glucose;
    let sens: i64 = profile.sens;
    let cob: i64 = meal_data.meal_cob;
    let carb_ratio: i64 = max_fx(profile.carb_ratio, ONE);
    let mut curve: Vec<i64> = Vec::new();
    let mut i: usize = 0;
    while i < PREDICTION_POINTS
        invariant
            i <= PREDICTION_POINTS,
            bg == glucose_status.glucose,
            sens == profile.sens,
            cob == meal_data.meal_cob,
            carb_ratio == max_of(profile.carb_ratio as int, ONE as int),
            curve@.len() == i,
            forall|j: int|
                0 <= j < i ==> #[trigger] curve@[j] == cob_point(
                    bg as int,
                    glucose_status.delta as int,
                    iob_data.iob as int,
                    sens as int,
                    cob as int,
                    profile.carb_ratio as int,
                    j,
                ),
        decreases PREDICTION_POINTS - i,
    {
        let carbs: i64 = if cob > 0 {
            mul_fx(div_int_fx(mul_fx(div_fx(cob, carb_ratio), sens), 2), absorption_bell_fx(i))
        } else {
            0
        };
        let point: i64 = max_fx(
            sub_fx(
                add_fx(add_fx(bg, delta_effect_fx(glucose_status.delta, i, 30)), carbs),
                iob_effect_fx(iob_data.iob, sens, i),
            ),
            PREDICTION_FLOOR,
        );
        curve.push(point);
        i += 1;
    }
    curve
}

/// Glucose expected once the insulin on board has acted.
pub fn calculate_eventual_bg(
    glucose_status: &GlucoseStatus,
    iob_data: &IOBData,
    profile: &Profile,
) -> (r: i64)
    ensures
        r == eventual_bg_of(
            glucose_status.glucose as int,
            glucose_status.delta as int,
            iob_data.iob as int,
            profile.sens as int,
        ),
        r >= 0,
{
    max_fx(
        sub_fx(
            add_fx(glucose_status.glucose, scale_fx(glucose_status.delta, 12)),
            mul_fx(iob_data.iob, profile.sens),
        ),
        0,
    )
}

/// Change of glucose per five minutes that is expected on the way to the
/// target.
pub fn calculate_expected_delta(target_bg: i64, eventual_bg: i64, bgi: i64) -> (r: i64)
    ensures
        r == expected_delta_of(target_bg as int, eventual_bg as int, bgi as int),
{
    let target_delta: i64 = sub_fx(target_bg, eventual_bg);
    div_int_fx(round_fx(add_fx(bgi, div_int_fx(scale_fx(target_delta, 10), 24)), 0), 10)
}

/// Change of glucose per five minutes that the insulin activity explains.
pub fn calculate_bgi(activity: i64, sens: i64) -> (r: i64)
    ensures
        r == bgi_of(activity as int, sens as int),
{
    round_fx(scale_fx(mul_fx(sub_fx(0, activity), sens), 5), 2)
}

} // verus!
