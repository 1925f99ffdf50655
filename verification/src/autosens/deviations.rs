//! The deviations that count for autosens.
//!
//! Each bucket from the fourth on gives one deviation: what glucose changed
//! in five minutes beyond what insulin explains. A bucket is classified as
//! carb absorption, as unannounced meal or as neither; only the deviations
//! of the last kind count.

use super::AutosensConfig;
use crate::cob::activity_at;
use crate::cob::calculate_iob_at_time;
use crate::cob::moment;
use crate::cob::BucketedGlucose;
use crate::determine_basal::predictions::bgi_of;
use crate::determine_basal::predictions::calculate_bgi;
use crate::fixed::add_fx;
use crate::fixed::div_int_fx;
use crate::fixed::div_round;
use crate::fixed::div_round_exec;
use crate::fixed::fx_add;
use crate::fixed::fx_div_int;
use crate::fixed::fx_mul_div;
use crate::fixed::fx_round;
use crate::fixed::fx_scale;
use crate::fixed::fx_sub;
use crate::fixed::max_fx;
use crate::fixed::max_of;
use crate::fixed::mul_div_fx;
use crate::fixed::round_fx;
use crate::fixed::scale_fx;
use crate::fixed::sub_fx;
use crate::iob::iob_sample;
use crate::order::insert_by_key;
use crate::order::sorted_by_key;
use crate::order::Keyed;
use crate::profile::basal::basal_at;
use crate::profile::basal_lookup;
use crate::profile::isf::sens_at;
use crate::profile::isf_lookup;
use crate::time::hour_of_day;
use crate::time::is_instant;
use crate::time::minute_of_hour;
use crate::time::utc_hour_minute;
use crate::types::treatment::NEUTRAL_TARGET;
use crate::types::IOBData;
use crate::types::Profile;
use crate::types::TempTarget;
use crate::types::Treatment;
use vstd::prelude::*;

verus! {

/// Buckets below this glucose give no deviation: 40 mg/dL.
pub const MIN_DEVIATION_GLUCOSE: i64 = 40_000_000;

/// Below this glucose a rise counts as no deviation: 80 mg/dL.
pub const HYPO_GLUCOSE: i64 = 80_000_000;

/// Carbs on board below this count as absorbed: half a gram.
pub const COB_DEPLETED: i64 = 500_000;

/// Steps of five minutes after which depleted carbs end the absorption:
/// five hours.
pub const ABSORPTION_STEPS: i64 = 60;

/// Steps of five minutes for which the buckets after a meal state stay
/// excluded.
pub const SETTLING_STEPS: i64 = 9;

/// The counter of steps before any meal state.
pub const NO_MEAL_YET: i64 = 999;

/// With fewer deviations than this, zeros are added.
pub const FULL_DEVIATIONS: usize = 96;

/// One meal.
#[derive(Debug, Clone, Copy, PartialEq, Eq, Structural)]
pub struct Meal {
    /// Unix milliseconds.
    pub time: i64,
    /// Carbs, grams.
    pub carbs: i64,
}

impl Keyed for Meal {
    /// Meals are ordered by their times.
    open spec fn key(self) -> int {
        self.time as int
    }

    fn key_of(&self) -> (k: i64) {
        self.time
    }
}

/// What a bucket's deviation is taken for.
#[derive(Debug, Clone, Copy, PartialEq, Eq, Structural)]
pub enum DeviationType {
    /// Neither of the others: the deviation counts.
    NonMeal,
    /// Carbs are being absorbed: the deviation does not count.
    CarbAbsorption,
    /// An unannounced meal: the deviation does not count.
    Uam,
}

/// Where the walk over the buckets stands.
pub struct DeviationWalk {
    pub deviations: Vec<i64>,
    /// Carbs on board, grams.
    pub meal_cob: i64,
    /// Carbs of the meals in progress, grams.
    pub meal_carbs: i64,
    pub absorbing: bool,
    pub uam: bool,
    /// Steps of five minutes since the last meal state began.
    pub meal_start_counter: i64,
    pub current_type: DeviationType,
    /// Number of meals not yet taken; they are taken from the end.
    pub meals_left: usize,
}

/// The mathematical content of a `DeviationWalk`.
pub struct DeviationTrace {
    pub deviations: Seq<i64>,
    pub meal_cob: i64,
    pub meal_carbs: i64,
    pub absorbing: bool,
    pub uam: bool,
    pub meal_start_counter: i64,
    pub current_type: DeviationType,
    pub meals_left: int,
}

impl DeviationWalk {
    /// The mathematical content of the walk.
    pub open spec fn trace(self) -> DeviationTrace {
        DeviationTrace {
            deviations: self.deviations@,
            meal_cob: self.meal_cob,
            meal_carbs: self.meal_carbs,
            absorbing: self.absorbing,
            uam: self.uam,
            meal_start_counter: self.meal_start_counter,
            current_type: self.current_type,
            meals_left: self.meals_left as int,
        }
    }
}

/// The meals among the first `n` treatments that are not older than
/// `oldest`, in the treatments' order.
pub open spec fn meals_upto(treatments: Seq<Treatment>, oldest: int, n: int) -> Seq<Meal>
    decreases n,
{
    if n <= 0 {
        Seq::<Meal>::empty()
    } else {
        let before = meals_upto(treatments, oldest, n - 1);
        let t = treatments[n - 1];
        if t.meal_event() && t.effective_date_of() >= oldest {
            before.push(Meal { time: t.effective_date_of(), carbs: t.carbs_of() as i64 })
        } else {
            before
        }
    }
}

/// The meals since the first bucket, in the order of their times.
pub open spec fn meals_of(treatments: Seq<Treatment>, buckets: Seq<BucketedGlucose>) -> Seq<Meal> {
    if buckets.len() == 0 {
        Seq::<Meal>::empty()
    } else {
        sorted_by_key(meals_upto(treatments, buckets[0].date as int, treatments.len() as int))
    }
}

/// Number of meals left once those before `time` are taken from the end.
pub open spec fn meals_left_at(meals: Seq<Meal>, left: int, time: int) -> int
    decreases left,
{
    if left > 0 && meals[left - 1].time < time {
        meals_left_at(meals, left - 1, time)
    } else {
        left
    }
}

/// `amount` with the carbs of the meals that are taken at `time`.
pub open spec fn with_meals(amount: int, meals: Seq<Meal>, left: int, time: int) -> int
    decreases left,
{
    if left > 0 && meals[left - 1].time < time {
        with_meals(fx_add(amount, meals[left - 1].carbs as int), meals, left - 1, time)
    } else {
        amount
    }
}

/// Whether a target rules at `time`: it has begun, and it either cancels
/// or has not run out.
pub open spec fn rules_at(target: TempTarget, time: int) -> bool {
    &&& target.created_at <= time
    &&& (target.duration == 0 || time < target.created_at + target.duration * 60_000)
}

/// The index among the first `n` targets of the one that rules at `time`
/// and was created last; the first of them where several were created
/// together. -1 where none rules.
pub open spec fn ruling_upto(targets: Seq<TempTarget>, time: int, n: int) -> int
    decreases n,
{
    if n <= 0 {
        -1
    } else {
        let before = ruling_upto(targets, time, n - 1);
        if rules_at(targets[n - 1], time) && (before < 0 || targets[before].created_at
            < targets[n - 1].created_at) {
            n - 1
        } else {
            before
        }
    }
}

/// The temporary target at `time`: the middle of the ruling target's range,
/// none where no target rules or the ruling one cancels.
pub open spec fn active_target(targets: Seq<TempTarget>, time: int) -> Option<int> {
    let k = ruling_upto(targets, time, targets.len() as int);
    if k < 0 || targets[k].duration == 0 {
        None
    } else {
        Some(targets[k].midpoint_of())
    }
}

/// The deviation of bucket `i`: the change of glucose over five minutes less
/// what insulin explains, to two decimal places. A rise counts as nothing
/// while glucose is below 80 mg/dL.
pub open spec fn deviation_at(
    profile: Profile,
    buckets: Seq<BucketedGlucose>,
    treatments: Seq<Treatment>,
    clock: i64,
    i: int,
) -> int {
    let b = buckets[i];
    let sens = sens_at(profile, moment(b.date, clock) as int);
    let bgi = bgi_of(activity_at(profile, treatments, b.date, clock), sens);
    let raw = fx_sub(fx_sub(b.glucose as int, buckets[i - 1].glucose as int), bgi);
    fx_round(
        if b.glucose < HYPO_GLUCOSE && raw > 0 {
            0
        } else {
            raw
        },
        2,
    )
}

/// Carbs on board after five minutes with `deviation`: the greater of the
/// deviation and the profile's floor is turned into grams and taken off.
pub open spec fn decayed_cob(meal_cob: int, deviation: int, profile: Profile, sens: int) -> int {
    if meal_cob > 0 && sens > 0 {
        max_of(
            fx_sub(
                meal_cob,
                fx_mul_div(
                    max_of(deviation, profile.min_5m_carbimpact as int),
                    profile.carb_ratio as int,
                    sens,
                ),
            ),
            0,
        )
    } else {
        meal_cob
    }
}

/// The synthetic deviation of a high temporary target: it raises
/// sensitivity by a twentieth of what the target exceeds 100 mg/dL.
pub open spec fn target_deviation(target: int) -> int {
    fx_div_int(fx_sub(NEUTRAL_TARGET as int, target), 20)
}

/// Whether the bucket's time is the first five minutes of an even hour.
pub open spec fn even_hour_start(time: int) -> bool {
    minute_of_hour(time) < 5 && hour_of_day(time) % 2 == 0
}

/// The last `count` of the deviations, all of them where there are no more.
pub open spec fn most_recent(deviations: Seq<i64>, count: int) -> Seq<i64> {
    if deviations.len() > count {
        deviations.subrange(deviations.len() - count, deviations.len() as int)
    } else {
        deviations
    }
}

/// The deviations with what bucket `i` adds: its own deviation and that of
/// a high temporary target where the bucket counts, a zero at the start of
/// an even hour; of these the `lookback` most recent are kept.
pub open spec fn collected(
    deviations: Seq<i64>,
    counts: bool,
    deviation: int,
    target: Option<int>,
    raises: bool,
    even_hour: bool,
    lookback: int,
) -> Seq<i64> {
    let own = if counts {
        deviations.push(deviation as i64)
    } else {
        deviations
    };
    let targeted = if counts && raises && target is Some && target.unwrap() > NEUTRAL_TARGET {
        own.push(target_deviation(target.unwrap()) as i64)
    } else {
        own
    };
    let marked = if even_hour {
        targeted.push(0)
    } else {
        targeted
    };
    most_recent(marked, lookback)
}

/// The walk after bucket `i`, which has three buckets before it.
pub open spec fn deviation_step(
    trace: DeviationTrace,
    profile: Profile,
    buckets: Seq<BucketedGlucose>,
    treatments: Seq<Treatment>,
    meals: Seq<Meal>,
    temp_targets: Seq<TempTarget>,
    config: AutosensConfig,
    clock: i64,
    i: int,
) -> DeviationTrace {
    let b = buckets[i];
    let at = moment(b.date, clock);
    let sens = sens_at(profile, at as int);
    let deviation = deviation_at(profile, buckets, treatments, clock, i);
    let iob = iob_sample(profile, treatments, at, true, 0).iob;
    let meals_left = meals_left_at(meals, trace.meals_left, b.date as int);
    let meal_carbs = with_meals(trace.meal_carbs as int, meals, trace.meals_left, b.date as int);
    let meal_cob = decayed_cob(
        with_meals(trace.meal_cob as int, meals, trace.meals_left, b.date as int),
        deviation,
        profile,
        sens,
    );
    let depleted = meal_cob < COB_DEPLETED;
    let still_absorbing = deviation > 0 && !(trace.meal_start_counter > ABSORPTION_STEPS
        && depleted);
    let started = if trace.current_type != DeviationType::CarbAbsorption {
        0
    } else {
        trace.meal_start_counter as int
    };
    let classified = if meal_cob > 0 || trace.absorbing || meal_carbs > 0 {
        DeviationTrace {
            meal_cob: meal_cob as i64,
            meal_carbs: if !still_absorbing && depleted {
                0
            } else {
                meal_carbs as i64
            },
            absorbing: still_absorbing,
            meal_start_counter: fx_add(started, 1) as i64,
            current_type: DeviationType::CarbAbsorption,
            meals_left,
            ..trace
        }
    } else if (!config.retrospective && iob > fx_scale(basal_at(profile, at as int), 2))
        || trace.uam || trace.meal_start_counter < SETTLING_STEPS {
        DeviationTrace {
            meal_cob: meal_cob as i64,
            meal_carbs: meal_carbs as i64,
            uam: deviation > 0,
            meal_start_counter: fx_add(trace.meal_start_counter as int, 1) as i64,
            current_type: DeviationType::Uam,
            meals_left,
            ..trace
        }
    } else {
        DeviationTrace {
            meal_cob: meal_cob as i64,
            meal_carbs: meal_carbs as i64,
            current_type: DeviationType::NonMeal,
            meals_left,
            ..trace
        }
    };
    if b.glucose < MIN_DEVIATION_GLUCOSE || buckets[i - 1].glucose < MIN_DEVIATION_GLUCOSE
        || buckets[i - 3].glucose < MIN_DEVIATION_GLUCOSE {
        trace
    } else {
        DeviationTrace {
            deviations: collected(
                trace.deviations,
                classified.current_type == DeviationType::NonMeal,
                deviation,
                active_target(temp_targets, at as int),
                profile.exercise_mode || profile.high_temptarget_raises_sensitivity,
                even_hour_start(at as int),
                config.lookback as int,
            ),
            ..classified
        }
    }
}

/// Where the walk starts: no deviations, no carbs, every meal yet to take.
pub open spec fn deviation_start(meals: Seq<Meal>) -> DeviationTrace {
    DeviationTrace {
        deviations: Seq::<i64>::empty(),
        meal_cob: 0,
        meal_carbs: 0,
        absorbing: false,
        uam: false,
        meal_start_counter: NO_MEAL_YET,
        current_type: DeviationType::NonMeal,
        meals_left: meals.len() as int,
    }
}

/// The walk after the buckets before `n`; the first three give nothing.
pub open spec fn deviation_upto(
    profile: Profile,
    buckets: Seq<BucketedGlucose>,
    treatments: Seq<Treatment>,
    meals: Seq<Meal>,
    temp_targets: Seq<TempTarget>,
    config: AutosensConfig,
    clock: i64,
    n: int,
) -> DeviationTrace
    decreases n,
{
    if n <= 3 {
        deviation_start(meals)
    } else {
        deviation_step(
            deviation_upto(profile, buckets, treatments, meals, temp_targets, config, clock, n - 1),
            profile,
            buckets,
            treatments,
            meals,
            temp_targets,
            config,
            clock,
            n - 1,
        )
    }
}

/// No more than `lookback` deviations are held at any bucket.
pub proof fn lemma_walk_within_lookback(
    profile: Profile,
    buckets: Seq<BucketedGlucose>,
    treatments: Seq<Treatment>,
    meals: Seq<Meal>,
    temp_targets: Seq<TempTarget>,
    config: AutosensConfig,
    clock: i64,
    n: int,
)
    ensures
        deviation_upto(
            profile,
            buckets,
            treatments,
            meals,
            temp_targets,
            config,
            clock,
            n,
        ).deviations.len() <= config.lookback,
    decreases n,
{
    if n > 3 {
        lemma_walk_within_lookback(
            profile,
            buckets,
            treatments,
            meals,
            temp_targets,
            config,
            clock,
            n - 1,
        );
    }
}

/// Number of zeros that fewer than 96 deviations are filled up with: the
/// share that is missing, of eighteen.
pub open spec fn padding(count: int) -> int {
    if count < FULL_DEVIATIONS {
        div_round((FULL_DEVIATIONS - count) * 18, FULL_DEVIATIONS as int)
    } else {
        0
    }
}

/// The deviations with the zeros that sparse data calls for.
pub open spec fn padded(deviations: Seq<i64>) -> Seq<i64> {
    deviations + Seq::new(padding(deviations.len() as int) as nat, |k: int| 0i64)
}

/// The deviations that count, over all buckets, with the meals since the
/// first bucket.
pub open spec fn deviations_of(
    profile: Profile,
    buckets: Seq<BucketedGlucose>,
    treatments: Seq<Treatment>,
    temp_targets: Seq<TempTarget>,
    config: AutosensConfig,
    clock: i64,
) -> Seq<i64> {
    padded(
        deviation_upto(
            profile,
            buckets,
            treatments,
            meals_of(treatments, buckets),
            temp_targets,
            config,
            clock,
            buckets.len() as int,
        ).deviations,
    )
}

/// The meals since the first bucket, in the order of their times.
pub fn find_meal_treatments(treatments: &Vec<Treatment>, bucketed_data: &Vec<BucketedGlucose>) -> (r:
    Vec<Meal>)
    ensures
        r@ == meals_of(treatments@, bucketed_data@),
{
    let mut meals: Vec<Meal> = Vec::new();
    if bucketed_data.len() == 0 {
        return meals;
    }
    let oldest: i64 = bucketed_data[0].date;
    let mut i: usize = 0;
    proof {
        assert(meals_upto(treatments@, oldest as int, 0) =~= Seq::<Meal>::empty());
    }
    while i < treatments.len()
        invariant
            i <= treatments.len(),
            meals@ == sorted_by_key(meals_upto(treatments@, oldest as int, i as int)),
        decreases treatments.len() - i,
    {
        let t = &treatments[i];
        let date: i64 = t.effective_date();
        if let Some(carbs) = t.carbs {
            if carbs >= 1_000_000 && date >= oldest {
                let meal = Meal { time: date, carbs };
                proof {
                    let before = meals_upto(treatments@, oldest as int, i as int);
                    assert(before.push(meal).drop_last() =~= before);
                }
                insert_by_key(&mut meals, meal);
            }
        }
        i += 1;
    }
    meals
}

/// The temporary target at `time`.
pub fn get_active_temp_target(temp_targets: &Vec<TempTarget>, time: i64) -> (r: Option<i64>)
    ensures
        r is Some <==> active_target(temp_targets@, time as int) is Some,
        r matches Some(v) ==> active_target(temp_targets@, time as int) == Some(v as int),
{
    let mut best: usize = 0;
    let mut found: bool = false;
    let mut i: usize = 0;
    while i < temp_targets.len()
        invariant
            i <= temp_targets.len(),
            found ==> best < i && ruling_upto(temp_targets@, time as int, i as int) == best,
            !found ==> ruling_upto(temp_targets@, time as int, i as int) == -1,
        decreases temp_targets.len() - i,
    {
        let target = &temp_targets[i];
        let expires: i128 = target.created_at as i128 + (target.duration as i128) * 60_000;
        if target.created_at <= time && (target.duration == 0 || (time as i128) < expires) {
            if !found || temp_targets[best].created_at < target.created_at {
                best = i;
                found = true;
            }
        }
        i += 1;
    }
    if !found || temp_targets[best].duration == 0 {
        None
    } else {
        Some(temp_targets[best].midpoint())
    }
}

/// Takes the meals before `time` from the end of the list.
fn take_meals(walk: &mut DeviationWalk, meals: &Vec<Meal>, time: i64)
    requires
        old(walk).meals_left <= meals.len(),
    ensures
        final(walk).meals_left == meals_left_at(meals@, old(walk).meals_left as int, time as int),
        final(walk).meals_left <= old(walk).meals_left,
        final(walk).meal_cob == with_meals(
            old(walk).meal_cob as int,
            meals@,
            old(walk).meals_left as int,
            time as int,
        ),
        final(walk).meal_carbs == with_meals(
            old(walk).meal_carbs as int,
            meals@,
            old(walk).meals_left as int,
            time as int,
        ),
        final(walk).deviations == old(walk).deviations,
        final(walk).absorbing == old(walk).absorbing,
        final(walk).uam == old(walk).uam,
        final(walk).meal_start_counter == old(walk).meal_start_counter,
        final(walk).current_type == old(walk).current_type,
{
    while walk.meals_left > 0 && meals[walk.meals_left - 1].time < time
        invariant
            walk.meals_left <= old(walk).meals_left <= meals.len(),
            meals_left_at(meals@, walk.meals_left as int, time as int) == meals_left_at(
                meals@,
                old(walk).meals_left as int,
                time as int,
            ),
            with_meals(walk.meal_cob as int, meals@, walk.meals_left as int, time as int)
                == with_meals(
                old(walk).meal_cob as int,
                meals@,
                old(walk).meals_left as int,
                time as int,
            ),
            with_meals(walk.meal_carbs as int, meals@, walk.meals_left as int, time as int)
                == with_meals(
                old(walk).meal_carbs as int,
                meals@,
                old(walk).meals_left as int,
                time as int,
            ),
            walk.deviations == old(walk).deviations,
            walk.absorbing == old(walk).absorbing,
            walk.uam == old(walk).uam,
            walk.meal_start_counter == old(walk).meal_start_counter,
            walk.current_type == old(walk).current_type,
        decreases walk.meals_left,
    {
        let carbs: i64 = meals[walk.meals_left - 1].carbs;
        walk.meal_cob = add_fx(walk.meal_cob, carbs);
        walk.meal_carbs = add_fx(walk.meal_carbs, carbs);
        walk.meals_left = walk.meals_left - 1;
    }
}

/// Adds to the deviations what one bucket gives.
fn collect(
    deviations: &mut Vec<i64>,
    counts: bool,
    deviation: i64,
    target: Option<i64>,
    raises: bool,
    even_hour: bool,
    lookback: usize,
)
    ensures
        final(deviations)@ == collected(
            old(deviations)@,
            counts,
            deviation as int,
            match target {
                Some(v) => Some(v as int),
                None => None,
            },
            raises,
            even_hour,
            lookback as int,
        ),
{
    if counts {
        deviations.push(deviation);
        if raises {
            if let Some(tt) = target {
                if tt > NEUTRAL_TARGET {
                    deviations.push(div_int_fx(sub_fx(NEUTRAL_TARGET, tt), 20));
                }
            }
        }
    }
    if even_hour {
        deviations.push(0);
    }
    let ghost marked = deviations@;
    proof {
        assert(deviations@ =~= marked.subrange(0, marked.len() as int));
    }
    while deviations.len() > lookback
        invariant
            deviations@.len() <= marked.len(),
            deviations@ == marked.subrange(marked.len() - deviations@.len(), marked.len() as int),
            marked.len() <= lookback ==> deviations@.len() == marked.len(),
            marked.len() > lookback ==> deviations@.len() >= lookback,
        decreases deviations.len(),
    {
        let ghost before = deviations@;
        deviations.remove(0);
        proof {
            before.remove_ensures(0);
            assert(deviations@ =~= marked.subrange(
                marked.len() - deviations@.len(),
                marked.len() as int,
            ));
        }
    }
    proof {
        if marked.len() <= lookback {
            assert(deviations@ =~= marked);
        }
    }
}

/// The walk after one more bucket.
#[verifier::rlimit(30)]
fn advance(
    walk: DeviationWalk,
    profile: &Profile,
    buckets: &Vec<BucketedGlucose>,
    treatments: &Vec<Treatment>,
    meals: &Vec<Meal>,
    temp_targets: &Vec<TempTarget>,
    config: &AutosensConfig,
    clock: i64,
    i: usize,
) -> (r: DeviationWalk)
    requires
        3 <= i < buckets.len(),
        is_instant(clock as int),
        walk.meals_left <= meals.len(),
    ensures
        r.meals_left <= meals.len(),
        r.trace() == deviation_step(
            walk.trace(),
            *profile,
            buckets@,
            treatments@,
            meals@,
            temp_targets@,
            *config,
            clock,
            i as int,
        ),
{
    let b: BucketedGlucose = buckets[i];
    if b.glucose < MIN_DEVIATION_GLUCOSE || buckets[i - 1].glucose < MIN_DEVIATION_GLUCOSE
        || buckets[i - 3].glucose < MIN_DEVIATION_GLUCOSE {
        return walk;
    }
    let mut walk = walk;
    let hour_minute: Option<(u32, u32)> = utc_hour_minute(b.date);
    let at: i64 = if hour_minute.is_some() {
        b.date
    } else {
        clock
    };
    let sens: i64 = isf_lookup(profile, at);
    let iob: IOBData = calculate_iob_at_time(profile, treatments, b.date, clock);
    let bgi: i64 = calculate_bgi(iob.activity, sens);
    let raw: i64 = sub_fx(sub_fx(b.glucose, buckets[i - 1].glucose), bgi);
    let deviation: i64 = round_fx(
        if b.glucose < HYPO_GLUCOSE && raw > 0 {
            0
        } else {
            raw
        },
        2,
    );
    take_meals(&mut walk, meals, b.date);
    if walk.meal_cob > 0 && sens > 0 {
        let impact: i64 = max_fx(deviation, profile.min_5m_carbimpact);
        let absorbed: i64 = mul_div_fx(impact, profile.carb_ratio, sens);
        walk.meal_cob = max_fx(sub_fx(walk.meal_cob, absorbed), 0);
    }
    if walk.meal_cob > 0 || walk.absorbing || walk.meal_carbs > 0 {
        let depleted: bool = walk.meal_cob < COB_DEPLETED;
        walk.absorbing = deviation > 0 && !(walk.meal_start_counter > ABSORPTION_STEPS
            && depleted);
        if !walk.absorbing && depleted {
            walk.meal_carbs = 0;
        }
        if walk.current_type != DeviationType::CarbAbsorption {
            walk.meal_start_counter = 0;
        }
        walk.meal_start_counter = add_fx(walk.meal_start_counter, 1);
        walk.current_type = DeviationType::CarbAbsorption;
    } else {
        let current_basal: i64 = basal_lookup(profile, at);
        if (!config.retrospective && iob.iob > scale_fx(current_basal, 2)) || walk.uam
            || walk.meal_start_counter < SETTLING_STEPS {
            walk.meal_start_counter = add_fx(walk.meal_start_counter, 1);
            walk.uam = deviation > 0;
            walk.current_type = DeviationType::Uam;
        } else {
            walk.current_type = DeviationType::NonMeal;
        }
    }
    let even_hour: bool = match utc_hour_minute(at) {
        Some(hm) => hm.1 < 5 && hm.0 % 2 == 0,
        None => false,
    };
    let target: Option<i64> = get_active_temp_target(temp_targets, at);
    collect(
        &mut walk.deviations,
        walk.current_type == DeviationType::NonMeal,
        deviation,
        target,
        profile.exercise_mode || profile.high_temptarget_raises_sensitivity,
        even_hour,
        config.lookback,
    );
    walk
}

/// The deviations that count for autosens, over the buckets in the order
/// of time, with the meals in the order of time: the `lookback` most recent
/// at most, filled up with zeros where they are fewer than 96.
pub fn calculate_deviations(
    profile: &Profile,
    bucketed_data: &Vec<BucketedGlucose>,
    treatments: &Vec<Treatment>,
    meals: &Vec<Meal>,
    temp_targets: &Vec<TempTarget>,
    config: &AutosensConfig,
    clock: i64,
) -> (r: Vec<i64>)
    requires
        is_instant(clock as int),
    ensures
        r@ == padded(
            deviation_upto(
                *profile,
                bucketed_data@,
                treatments@,
                meals@,
                temp_targets@,
                *config,
                clock,
                bucketed_data@.len() as int,
            ).deviations,
        ),
        r@.len() <= config.lookback || r@.len() < FULL_DEVIATIONS,
{
    proof {
        lemma_walk_within_lookback(
            *profile,
            bucketed_data@,
            treatments@,
            meals@,
            temp_targets@,
            *config,
            clock,
            bucketed_data@.len() as int,
        );
    }
    let mut walk = DeviationWalk {
        deviations: Vec::new(),
        meal_cob: 0,
        meal_carbs: 0,
        absorbing: false,
        uam: false,
        meal_start_counter: NO_MEAL_YET,
        current_type: DeviationType::NonMeal,
        meals_left: meals.len(),
    };
    proof {
        assert(walk.deviations@ =~= Seq::<i64>::empty());
    }
    let mut i: usize = 3;
    while i < bucketed_data.len()
        invariant
            3 <= i,
            is_instant(clock as int),
                walk.meals_left <= meals.len(),
            walk.trace() == deviation_upto(
                *profile,
                bucketed_data@,
                treatments@,
                meals@,
                temp_targets@,
                *config,
                clock,
                if i <= bucketed_data@.len() {
                    i as int
                } else {
                    bucketed_data@.len() as int
                },
            ),
        decreases bucketed_data.len() - i,
    {
        walk = advance(walk, profile, bucketed_data, treatments, meals, temp_targets, config, clock, i);
        i += 1;
    }
    let mut deviations: Vec<i64> = walk.deviations;
    let ghost collected_all = deviations@;
    if deviations.len() < FULL_DEVIATIONS {
        let missing: i128 = (FULL_DEVIATIONS - deviations.len()) as i128;
        let pad: i128 = div_round_exec(missing * 18, 96);
        let mut k: i128 = 0;
        while k < pad
            invariant
                0 <= k <= pad,
                pad == padding(collected_all.len() as int),
                deviations@ == collected_all + Seq::new(k as nat, |j: int| 0i64),
            decreases pad - k,
        {
            deviations.push(0);
            k += 1;
            proof {
                assert(deviations@ =~= collected_all + Seq::new(k as nat, |j: int| 0i64));
            }
        }
    } else {
        proof {
            assert(deviations@ =~= collected_all + Seq::new(0nat, |j: int| 0i64));
        }
    }
    deviations
}

} // verus!
