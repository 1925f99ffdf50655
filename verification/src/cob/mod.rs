//! Carbs on board, from the deviation of glucose from what insulin explains.

pub mod bucket;

pub use bucket::bucket_glucose_data;
pub use bucket::BucketedGlucose;

use crate::determine_basal::predictions::bgi_of;
use crate::determine_basal::predictions::calculate_bgi;
use crate::error::OrefError;
use crate::fixed::add_fx;
use crate::fixed::clamp;
use crate::fixed::div_int_fx;
use crate::fixed::div_round;
use crate::fixed::div_round_exec;
use crate::fixed::fx_add;
use crate::fixed::fx_div_int;
use crate::fixed::fx_mul_div;
use crate::fixed::fx_round;
use crate::fixed::fx_sub;
use crate::fixed::max_fx;
use crate::fixed::max_of;
use crate::fixed::min_fx;
use crate::fixed::min_of;
use crate::fixed::mul_div_fx;
use crate::fixed::round_fx;
use crate::fixed::sub_fx;
use crate::iob::calculate_current;
use crate::iob::history::CHUNK_MILLIS;
use crate::iob::iob_sample;
use crate::profile::isf::sens_at;
use crate::profile::isf_lookup;
use crate::time::is_instant;
use crate::time::millis_between;
use crate::time::millis_from;
use crate::time::valid_instant;
use crate::types::glucose::MIN_VALID_GLUCOSE;
use crate::types::COBResult;
use crate::types::GlucoseReading;
use crate::types::IOBData;
use crate::types::Profile;
use crate::types::Treatment;
use bucket::bucketed;
use vstd::prelude::*;

verus! {

/// Fewer buckets than this tell nothing.
pub const MIN_BUCKETS: usize = 4;

/// Where the smallest deviation and its slope start before any is seen.
pub const UNSEEN_MINIMUM: i64 = 999_000_000;

/// What the deviations since a meal show.
#[derive(Debug, Clone)]
pub struct CarbAbsorptionResult {
    /// Carbs absorbed since the meal, grams.
    pub carbs_absorbed: i64,
    /// Deviation at the most recent bucket, mg/dL per five minutes.
    pub current_deviation: i64,
    pub max_deviation: i64,
    pub min_deviation: i64,
    /// Slope from the greatest deviation to the current one; never positive.
    pub slope_from_max_deviation: i64,
    /// Slope from the smallest deviation to the current one; never negative.
    pub slope_from_min_deviation: i64,
    /// The deviations in whole mg/dL.
    pub all_deviations: Vec<i32>,
}

impl Default for CarbAbsorptionResult {
    fn default() -> (r: Self)
        ensures
            r.trace() == AbsorptionTrace::nothing(),
    {
        let r = CarbAbsorptionResult {
            carbs_absorbed: 0,
            current_deviation: 0,
            max_deviation: 0,
            min_deviation: 0,
            slope_from_max_deviation: 0,
            slope_from_min_deviation: 0,
            all_deviations: Vec::new(),
        };
        proof {
            assert(r.all_deviations@ =~= Seq::<i32>::empty());
        }
        r
    }
}

/// The mathematical content of a `CarbAbsorptionResult`.
pub struct AbsorptionTrace {
    pub carbs_absorbed: i64,
    pub current_deviation: i64,
    pub max_deviation: i64,
    pub min_deviation: i64,
    pub slope_from_max_deviation: i64,
    pub slope_from_min_deviation: i64,
    pub all_deviations: Seq<i32>,
}

impl CarbAbsorptionResult {
    /// The mathematical content of the result.
    pub open spec fn trace(self) -> AbsorptionTrace {
        AbsorptionTrace {
            carbs_absorbed: self.carbs_absorbed,
            current_deviation: self.current_deviation,
            max_deviation: self.max_deviation,
            min_deviation: self.min_deviation,
            slope_from_max_deviation: self.slope_from_max_deviation,
            slope_from_min_deviation: self.slope_from_min_deviation,
            all_deviations: self.all_deviations@,
        }
    }
}

impl AbsorptionTrace {
    /// What no data shows.
    pub open spec fn nothing() -> AbsorptionTrace {
        AbsorptionTrace {
            carbs_absorbed: 0,
            current_deviation: 0,
            max_deviation: 0,
            min_deviation: 0,
            slope_from_max_deviation: 0,
            slope_from_min_deviation: 0,
            all_deviations: Seq::<i32>::empty(),
        }
    }

    /// Where the walk over the buckets starts.
    pub open spec fn start() -> AbsorptionTrace {
        AbsorptionTrace {
            min_deviation: UNSEEN_MINIMUM,
            slope_from_min_deviation: UNSEEN_MINIMUM,
            ..AbsorptionTrace::nothing()
        }
    }
}

/// The moment at which schedules and insulin are looked up for a bucket:
/// the bucket's own time, or `clock` where that is no calendar instant.
pub open spec fn moment(time: i64, clock: i64) -> i64 {
    if is_instant(time as int) {
        time
    } else {
        clock
    }
}

/// A deviation in whole mg/dL.
pub open spec fn whole_deviation(deviation: int) -> i32 {
    clamp(div_round(deviation, 1_000_000), i32::MIN as int, i32::MAX as int) as i32
}

/// Whether the meal lies within the absorption window that ends at `clock`.
pub open spec fn meal_in_window(t: Treatment, clock: int, hours: int) -> bool {
    &&& t.meal_event()
    &&& t.effective_date_of() <= clock
    &&& 5 * (clock - t.effective_date_of()) <= 18 * hours
}

/// The time of the most recent meal in the window among the first `n`
/// treatments.
pub open spec fn meal_time_upto(treatments: Seq<Treatment>, clock: int, hours: int, n: int) -> Option<
    i64,
>
    decreases n,
{
    if n <= 0 {
        None
    } else {
        let before = meal_time_upto(treatments, clock, hours, n - 1);
        let t = treatments[n - 1];
        if meal_in_window(t, clock, hours) && (before is None || before.unwrap()
            <= t.effective_date_of()) {
            Some(t.effective_date_of())
        } else {
            before
        }
    }
}

/// The time of the most recent meal in the window.
pub open spec fn meal_time_of(treatments: Seq<Treatment>, clock: int, hours: int) -> Option<i64> {
    meal_time_upto(treatments, clock, hours, treatments.len() as int)
}

/// The carbs entered from `meal` to `clock` among the first `n` treatments.
pub open spec fn total_carbs_upto(treatments: Seq<Treatment>, meal: int, clock: int, n: int) -> int
    decreases n,
{
    if n <= 0 {
        0
    } else {
        let before = total_carbs_upto(treatments, meal, clock, n - 1);
        let t = treatments[n - 1];
        if t.meal_event() && meal <= t.effective_date_of() <= clock {
            fx_add(before, t.carbs_of())
        } else {
            before
        }
    }
}

/// Insulin activity at the moment of a bucket.
pub open spec fn activity_at(
    profile: Profile,
    treatments: Seq<Treatment>,
    time: i64,
    clock: i64,
) -> int {
    iob_sample(profile, treatments, moment(time, clock), true, 0).activity as int
}

/// The trace after bucket `i`. A bucket takes part with the buckets one and
/// three places behind it, unless it or the third is below 39 mg/dL.
/// Its deviation is what glucose changed beyond what insulin explains;
/// behind the meal, the greater of the deviation, half the current deviation
/// and the profile's floor counts as carb impact and is turned into grams.
pub open spec fn absorption_step(
    trace: AbsorptionTrace,
    profile: Profile,
    buckets: Seq<BucketedGlucose>,
    treatments: Seq<Treatment>,
    meal: int,
    clock: i64,
    i: int,
) -> AbsorptionTrace {
    let b = buckets[i];
    let at = moment(b.date, clock);
    let sens = sens_at(profile, at as int);
    let bgi = bgi_of(activity_at(profile, treatments, b.date, clock), sens);
    let delta = fx_sub(b.glucose as int, buckets[i + 1].glucose as int);
    let avg_delta = fx_div_int(fx_sub(b.glucose as int, buckets[i + 3].glucose as int), 3);
    let deviation = fx_round(fx_sub(delta, bgi), 2);
    let avg_deviation = fx_round(fx_sub(avg_delta, bgi), 3);
    let slope = fx_mul_div(
        fx_sub(trace.current_deviation as int, avg_deviation),
        CHUNK_MILLIS as int,
        millis_between(b.date as int, clock as int),
    );
    let seen = if i == 0 {
        AbsorptionTrace {
            current_deviation: avg_deviation as i64,
            all_deviations: if clock > b.date {
                trace.all_deviations.push(whole_deviation(avg_deviation))
            } else {
                trace.all_deviations
            },
            ..trace
        }
    } else if clock > b.date {
        AbsorptionTrace {
            max_deviation: max_of(trace.max_deviation as int, avg_deviation) as i64,
            slope_from_max_deviation: if avg_deviation > trace.max_deviation {
                min_of(slope, 0) as i64
            } else {
                trace.slope_from_max_deviation
            },
            min_deviation: min_of(trace.min_deviation as int, avg_deviation) as i64,
            slope_from_min_deviation: if avg_deviation < trace.min_deviation {
                max_of(slope, 0) as i64
            } else {
                trace.slope_from_min_deviation
            },
            all_deviations: trace.all_deviations.push(whole_deviation(avg_deviation)),
            ..trace
        }
    } else {
        trace
    };
    let impact = max_of(
        max_of(deviation, fx_div_int(seen.current_deviation as int, 2)),
        profile.min_5m_carbimpact as int,
    );
    if b.glucose < MIN_VALID_GLUCOSE || buckets[i + 3].glucose < MIN_VALID_GLUCOSE {
        trace
    } else if b.date > meal && sens > 0 {
        AbsorptionTrace {
            carbs_absorbed: fx_add(
                seen.carbs_absorbed as int,
                fx_mul_div(impact, profile.carb_ratio as int, sens),
            ) as i64,
            ..seen
        }
    } else {
        seen
    }
}

/// The trace after the first `n` buckets.
pub open spec fn absorption_upto(
    profile: Profile,
    buckets: Seq<BucketedGlucose>,
    treatments: Seq<Treatment>,
    meal: int,
    clock: i64,
    n: int,
) -> AbsorptionTrace
    decreases n,
{
    if n <= 0 {
        AbsorptionTrace::start()
    } else {
        absorption_step(
            absorption_upto(profile, buckets, treatments, meal, clock, n - 1),
            profile,
            buckets,
            treatments,
            meal,
            clock,
            n - 1,
        )
    }
}

/// What the readings show of a meal at `meal`: nothing with fewer than four
/// buckets, else the trace over all buckets that have three behind them.
pub open spec fn absorption_of(
    profile: Profile,
    readings: Seq<GlucoseReading>,
    treatments: Seq<Treatment>,
    meal: i64,
    clock: i64,
) -> AbsorptionTrace {
    let buckets = bucketed(readings, meal as int, profile.max_meal_absorption_time as int);
    if buckets.len() < MIN_BUCKETS {
        AbsorptionTrace::nothing()
    } else {
        absorption_upto(profile, buckets, treatments, meal as int, clock, buckets.len() - 3)
    }
}

/// Whether the readings give the four buckets that a meal at `meal` takes
/// to be judged.
pub open spec fn enough_buckets(profile: Profile, readings: Seq<GlucoseReading>, meal: i64) -> bool {
    bucketed(readings, meal as int, profile.max_meal_absorption_time as int).len() >= MIN_BUCKETS
}

/// Carbs on board at `clock`: nothing without a meal in the absorption
/// window and nothing with fewer than four buckets, else what was entered
/// since the most recent meal less what the deviations show as absorbed,
/// but not less than nothing.
pub open spec fn cob_of(
    profile: Profile,
    readings: Seq<GlucoseReading>,
    treatments: Seq<Treatment>,
    clock: i64,
) -> COBResult {
    match meal_time_of(treatments, clock as int, profile.max_meal_absorption_time as int) {
        None => COBResult::zero_result(),
        Some(meal) => if !enough_buckets(profile, readings, meal) {
            COBResult::zero_result()
        } else {
            let trace = absorption_of(profile, readings, treatments, meal, clock);
            COBResult {
                meal_cob: max_of(
                    fx_sub(
                        total_carbs_upto(
                            treatments,
                            meal as int,
                            clock as int,
                            treatments.len() as int,
                        ),
                        trace.carbs_absorbed as int,
                    ),
                    0,
                ) as i64,
                carbs_absorbed: trace.carbs_absorbed,
                current_deviation: trace.current_deviation,
                max_deviation: trace.max_deviation,
                min_deviation: trace.min_deviation,
                slope_from_max: trace.slope_from_max_deviation,
                slope_from_min: trace.slope_from_min_deviation,
            }
        },
    }
}

/// The carbs entered are never negative.
pub proof fn lemma_total_carbs_sign(treatments: Seq<Treatment>, meal: int, clock: int, n: int)
    ensures
        0 <= total_carbs_upto(treatments, meal, clock, n) <= crate::fixed::LIMIT,
    decreases n,
{
    if n > 0 {
        lemma_total_carbs_sign(treatments, meal, clock, n - 1);
    }
}

/// With a carb ratio and a floor of the carb impact that are not negative,
/// the carbs absorbed are never negative.
pub proof fn lemma_absorbed_sign(
    profile: Profile,
    buckets: Seq<BucketedGlucose>,
    treatments: Seq<Treatment>,
    meal: int,
    clock: i64,
    n: int,
)
    requires
        profile.carb_ratio >= 0,
        profile.min_5m_carbimpact >= 0,
    ensures
        absorption_upto(profile, buckets, treatments, meal, clock, n).carbs_absorbed >= 0,
    decreases n,
{
    if n > 0 {
        lemma_absorbed_sign(profile, buckets, treatments, meal, clock, n - 1);
        let trace = absorption_upto(profile, buckets, treatments, meal, clock, n - 1);
        let after = absorption_step(trace, profile, buckets, treatments, meal, clock, n - 1);
        let sens = sens_at(profile, moment(buckets[n - 1].date, clock) as int);
        if after.carbs_absorbed != trace.carbs_absorbed {
            assert(sens > 0);
            let impact = choose|impact: int|
                impact >= profile.min_5m_carbimpact && after.carbs_absorbed == fx_add(
                    trace.carbs_absorbed as int,
                    fx_mul_div(impact, profile.carb_ratio as int, sens),
                );
            crate::fixed::lemma_fx_mul_div_monotone(0, impact, profile.carb_ratio as int, sens);
            crate::fixed::lemma_div_round_exact(0, sens);
            assert(fx_mul_div(0, profile.carb_ratio as int, sens) == 0) by {
                assert(crate::fixed::sat(0) * crate::fixed::sat(profile.carb_ratio as int) == 0)
                    by (nonlinear_arith);
            }
        }
    }
}

/// The carbs entered since the most recent meal in the absorption window;
/// nothing without such a meal.
pub open spec fn carbs_since_meal(profile: Profile, treatments: Seq<Treatment>, clock: i64) -> int {
    match meal_time_of(treatments, clock as int, profile.max_meal_absorption_time as int) {
        Some(meal) => total_carbs_upto(
            treatments,
            meal as int,
            clock as int,
            treatments.len() as int,
        ),
        None => 0,
    }
}

/// Carbs on board are never negative; with a carb ratio and a floor of the
/// carb impact that are not negative, they never exceed the carbs entered
/// since the meal.
pub proof fn lemma_cob_within_carbs(
    profile: Profile,
    readings: Seq<GlucoseReading>,
    treatments: Seq<Treatment>,
    clock: i64,
)
    ensures
        cob_of(profile, readings, treatments, clock).meal_cob >= 0,
        profile.carb_ratio >= 0 && profile.min_5m_carbimpact >= 0 ==> cob_of(
            profile,
            readings,
            treatments,
            clock,
        ).meal_cob <= carbs_since_meal(profile, treatments, clock),
{
    match meal_time_of(treatments, clock as int, profile.max_meal_absorption_time as int) {
        Some(meal) => {
            lemma_total_carbs_sign(treatments, meal as int, clock as int, treatments.len() as int);
            if profile.carb_ratio >= 0 && profile.min_5m_carbimpact >= 0 {
                let buckets = bucketed(readings, meal as int, profile.max_meal_absorption_time as int);
                lemma_absorbed_sign(
                    profile,
                    buckets,
                    treatments,
                    meal as int,
                    clock,
                    buckets.len() - 3,
                );
            }
        },
        None => {},
    }
}

/// The time of the most recent meal within the absorption window.
pub fn find_meal_time(treatments: &Vec<Treatment>, clock: i64, max_absorption_hours: i64) -> (r:
    Option<i64>)
    ensures
        r == meal_time_of(treatments@, clock as int, max_absorption_hours as int),
{
    let mut found: Option<i64> = None;
    let mut i: usize = 0;
    while i < treatments.len()
        invariant
            i <= treatments.len(),
            found == meal_time_upto(
                treatments@,
                clock as int,
                max_absorption_hours as int,
                i as int,
            ),
        decreases treatments.len() - i,
    {
        let t = &treatments[i];
        let date: i64 = t.effective_date();
        let since: i128 = clock as i128 - date as i128;
        if t.has_carbs() && date <= clock && 5 * since <= 18 * (max_absorption_hours as i128) {
            let later: bool = match found {
                Some(m) => m <= date,
                None => true,
            };
            if later {
                found = Some(date);
            }
        }
        i += 1;
    }
    found
}

/// The carbs entered from `meal_time` to `clock`.
pub fn calculate_total_carbs(treatments: &Vec<Treatment>, meal_time: i64, clock: i64) -> (r: i64)
    ensures
        r == total_carbs_upto(
            treatments@,
            meal_time as int,
            clock as int,
            treatments.len() as int,
        ),
        r >= 0,
{
    let mut total: i64 = 0;
    let mut i: usize = 0;
    while i < treatments.len()
        invariant
            i <= treatments.len(),
            total == total_carbs_upto(treatments@, meal_time as int, clock as int, i as int),
            total >= 0,
        decreases treatments.len() - i,
    {
        let t = &treatments[i];
        let date: i64 = t.effective_date();
        if let Some(carbs) = t.carbs {
            if carbs >= 1_000_000 && meal_time <= date && date <= clock {
                total = add_fx(total, carbs);
            }
        }
        i += 1;
    }
    total
}

/// Insulin on board at the moment of a bucket.
pub fn calculate_iob_at_time(profile: &Profile, treatments: &Vec<Treatment>, time: i64, clock: i64) -> (r:
    IOBData)
    requires
        is_instant(clock as int),
    ensures
        r == iob_sample(*profile, treatments@, moment(time, clock), true, 0),
{
    let at: i64 = if valid_instant(time) {
        time
    } else {
        clock
    };
    match calculate_current(profile, treatments, at) {
        Ok(d) => d,
        Err(_) => IOBData::zero(at),
    }
}

/// A deviation in whole mg/dL.
fn to_whole(deviation: i64) -> (r: i32)
    ensures
        r == whole_deviation(deviation as int),
{
    let q: i128 = div_round_exec(deviation as i128, 1_000_000);
    if q > i32::MAX as i128 {
        i32::MAX
    } else if q < i32::MIN as i128 {
        i32::MIN
    } else {
        q as i32
    }
}

/// The result after one more bucket.
#[verifier::rlimit(30)]
fn absorb_bucket(
    result: CarbAbsorptionResult,
    profile: &Profile,
    buckets: &Vec<BucketedGlucose>,
    treatments: &Vec<Treatment>,
    meal_time: i64,
    ci_time: i64,
    i: usize,
) -> (r: CarbAbsorptionResult)
    requires
        i + 3 < buckets.len(),
        is_instant(ci_time as int),
    ensures
        r.trace() == absorption_step(
            result.trace(),
            *profile,
            buckets@,
            treatments@,
            meal_time as int,
            ci_time,
            i as int,
        ),
{
    let b: BucketedGlucose = buckets[i];
    let third: BucketedGlucose = buckets[i + 3];
    let next: BucketedGlucose = buckets[i + 1];
    if b.glucose < MIN_VALID_GLUCOSE || third.glucose < MIN_VALID_GLUCOSE {
        return result;
    }
    let mut result = result;
    let at: i64 = if valid_instant(b.date) {
        b.date
    } else {
        ci_time
    };
    let sens: i64 = isf_lookup(profile, at);
    let iob: IOBData = calculate_iob_at_time(profile, treatments, b.date, ci_time);
    let bgi: i64 = calculate_bgi(iob.activity, sens);
    let delta: i64 = sub_fx(b.glucose, next.glucose);
    let avg_delta: i64 = div_int_fx(sub_fx(b.glucose, third.glucose), 3);
    let deviation: i64 = round_fx(sub_fx(delta, bgi), 2);
    let avg_deviation: i64 = round_fx(sub_fx(avg_delta, bgi), 3);
    if i == 0 {
        result.current_deviation = avg_deviation;
        if ci_time > b.date {
            result.all_deviations.push(to_whole(avg_deviation));
        }
    } else if ci_time > b.date {
        let slope: i64 = mul_div_fx(
            sub_fx(result.current_deviation, avg_deviation),
            CHUNK_MILLIS,
            millis_from(b.date, ci_time),
        );
        if avg_deviation > result.max_deviation {
            result.slope_from_max_deviation = min_fx(slope, 0);
            result.max_deviation = avg_deviation;
        }
        if avg_deviation < result.min_deviation {
            result.slope_from_min_deviation = max_fx(slope, 0);
            result.min_deviation = avg_deviation;
        }
        result.all_deviations.push(to_whole(avg_deviation));
    }
    if b.date > meal_time && sens > 0 {
        let impact: i64 = max_fx(
            max_fx(deviation, div_int_fx(result.current_deviation, 2)),
            profile.min_5m_carbimpact,
        );
        result.carbs_absorbed = add_fx(
            result.carbs_absorbed,
            mul_div_fx(impact, profile.carb_ratio, sens),
        );
    }
    result
}

/// What the readings, most recent first, show of a meal at `meal_time`,
/// where they give the four buckets that it takes.
fn judge_absorption(
    profile: &Profile,
    glucose_data: &Vec<GlucoseReading>,
    treatments: &Vec<Treatment>,
    meal_time: i64,
    ci_time: i64,
) -> (r: Option<CarbAbsorptionResult>)
    requires
        is_instant(ci_time as int),
    ensures
        r is Some <==> enough_buckets(*profile, glucose_data@, meal_time),
        r matches Some(result) ==> result.trace() == absorption_of(
            *profile,
            glucose_data@,
            treatments@,
            meal_time,
            ci_time,
        ),
{
    let buckets: Vec<BucketedGlucose> = bucket_glucose_data(
        glucose_data,
        meal_time,
        profile.max_meal_absorption_time,
    );
    if buckets.len() < MIN_BUCKETS {
        return None;
    }
    let mut result = CarbAbsorptionResult {
        carbs_absorbed: 0,
        current_deviation: 0,
        max_deviation: 0,
        min_deviation: UNSEEN_MINIMUM,
        slope_from_max_deviation: 0,
        slope_from_min_deviation: UNSEEN_MINIMUM,
        all_deviations: Vec::new(),
    };
    let stop: usize = buckets.len() - 3;
    let mut i: usize = 0;
    proof {
        assert(result.all_deviations@ =~= Seq::<i32>::empty());
    }
    while i < stop
        invariant
            i <= stop,
            stop == buckets.len() - 3,
            is_instant(ci_time as int),
            result.trace() == absorption_upto(
                *profile,
                buckets@,
                treatments@,
                meal_time as int,
                ci_time,
                i as int,
            ),
        decreases stop - i,
    {
        result = absorb_bucket(result, profile, &buckets, treatments, meal_time, ci_time, i);
        i += 1;
    }
    Some(result)
}

/// What the readings, most recent first, show of a meal at `meal_time`.
pub fn detect_carb_absorption_internal(
    profile: &Profile,
    glucose_data: &Vec<GlucoseReading>,
    treatments: &Vec<Treatment>,
    meal_time: i64,
    ci_time: i64,
) -> (r: CarbAbsorptionResult)
    requires
        is_instant(ci_time as int),
    ensures
        r.trace() == absorption_of(*profile, glucose_data@, treatments@, meal_time, ci_time),
{
    match judge_absorption(profile, glucose_data, treatments, meal_time, ci_time) {
        Some(result) => result,
        None => CarbAbsorptionResult::default(),
    }
}

/// Carbs on board at `clock`, from the readings, most recent first, and the
/// treatments. A `clock` that is no calendar instant is refused.
pub fn calculate(
    profile: &Profile,
    glucose_data: &Vec<GlucoseReading>,
    treatments: &Vec<Treatment>,
    clock: i64,
) -> (r: Result<COBResult, OrefError>)
    ensures
        r is Err <==> !is_instant(clock as int),
        r matches Err(e) ==> e == OrefError::InvalidTimestamp,
        r matches Ok(cob) ==> cob == cob_of(*profile, glucose_data@, treatments@, clock),
        is_instant(clock as int) && meal_time_of(
            treatments@,
            clock as int,
            profile.max_meal_absorption_time as int,
        ) is None ==> r == Ok::<COBResult, OrefError>(COBResult::zero_result()),
        r matches Ok(cob) ==> cob.meal_cob >= 0,
        r matches Ok(cob) ==> profile.carb_ratio >= 0 && profile.min_5m_carbimpact >= 0
            ==> cob.meal_cob <= carbs_since_meal(*profile, treatments@, clock),
{
    proof {
        lemma_cob_within_carbs(*profile, glucose_data@, treatments@, clock);
    }
    if !valid_instant(clock) {
        return Err(OrefError::InvalidTimestamp);
    }
    let meal_time: i64 = match find_meal_time(treatments, clock, profile.max_meal_absorption_time) {
        Some(m) => m,
        None => {
            return Ok(COBResult::default());
        },
    };
    let absorption = match judge_absorption(profile, glucose_data, treatments, meal_time, clock) {
        Some(result) => result,
        None => {
            return Ok(COBResult::default());
        },
    };
    let total_carbs: i64 = calculate_total_carbs(treatments, meal_time, clock);
    Ok(
        COBResult {
            meal_cob: max_fx(sub_fx(total_carbs, absorption.carbs_absorbed), 0),
            carbs_absorbed: absorption.carbs_absorbed,
            current_deviation: absorption.current_deviation,
            max_deviation: absorption.max_deviation,
            min_deviation: absorption.min_deviation,
            slope_from_max: absorption.slope_from_max_deviation,
            slope_from_min: absorption.slope_from_min_deviation,
        },
    )
}

/// The carbs that the readings show as absorbed since a meal at
/// `meal_time`, with no insulin taken into account. A `clock` that is no
/// calendar instant is refused.
pub fn detect_carb_absorption(
    profile: &Profile,
    glucose_data: &Vec<GlucoseReading>,
    meal_time: i64,
    clock: i64,
) -> (r: Result<i64, OrefError>)
    ensures
        r is Err <==> !is_instant(clock as int),
        r matches Err(e) ==> e == OrefError::InvalidTimestamp,
        r matches Ok(grams) ==> grams == absorption_of(
            *profile,
            glucose_data@,
            Seq::<Treatment>::empty(),
            meal_time,
            clock,
        ).carbs_absorbed,
{
    if !valid_instant(clock) {
        return Err(OrefError::InvalidTimestamp);
    }
    let none: Vec<Treatment> = Vec::new();
    proof {
        assert(none@ =~= Seq::<Treatment>::empty());
    }
    let result = detect_carb_absorption_internal(profile, glucose_data, &none, meal_time, clock);
    Ok(result.carbs_absorbed)
}

} // verus!
