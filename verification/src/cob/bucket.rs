//! Glucose readings brought to a regular series of five minutes.
//!
//! The readings are taken most recent first. A reading within two minutes
//! of the one before it is merged into the last bucket; one within eight
//! minutes opens a bucket of its own; a longer gap is filled in steps of
//! five minutes, for four hours at most.

use crate::fixed::abs_of;
use crate::fixed::add_fx;
use crate::fixed::div_int_fx;
use crate::fixed::fx_add;
use crate::fixed::fx_div_int;
use crate::fixed::fx_mul_div;
use crate::fixed::fx_round;
use crate::fixed::fx_sub;
use crate::fixed::min_fx;
use crate::fixed::min_of;
use crate::fixed::mul_div_fx;
use crate::fixed::round_fx;
use crate::fixed::sub_fx;
use crate::iob::history::CHUNK_MILLIS;
use crate::iob::history::CHUNK_MINUTES;
use crate::time::instant_before;
use crate::time::minutes_between;
use crate::time::minutes_from;
use crate::time::step_back;
use crate::types::GlucoseReading;
use vstd::prelude::*;

verus! {

/// Readings closer than this are merged: two minutes.
pub const MERGE_MINUTES: i64 = 2_000_000;

/// Gaps longer than this are filled: eight minutes.
pub const GAP_MINUTES: i64 = 8_000_000;

/// No gap is filled for longer than this: four hours.
pub const MAX_FILL_MINUTES: i64 = 240_000_000;

/// One sample of the regular series.
#[derive(Debug, Clone, Copy, PartialEq, Eq, Structural)]
pub struct BucketedGlucose {
    /// Unix milliseconds.
    pub date: i64,
    /// Glucose, mg/dL.
    pub glucose: i64,
}

/// Where the walk over the readings stands.
pub struct BucketWalk {
    pub buckets: Seq<BucketedGlucose>,
    /// Time of the last reading taken.
    pub last_time: i64,
    /// Glucose of the last reading taken.
    pub last_bg: i64,
    /// Whether a reading from before the meal has been taken.
    pub found_pre_meal: bool,
}

/// Whether a reading at `date` lies behind the absorption window of
/// `hours` hours that opens at `meal`.
pub open spec fn past_window(date: int, meal: int, hours: int) -> bool {
    5 * (date - meal) > 18 * hours
}

/// The buckets with a gap filled: from `time` back in steps of five minutes
/// while more than five of the `remaining` minutes are left, each step on
/// the straight line from `bg` to `target`, held in whole mg/dL.
pub open spec fn filled(
    buckets: Seq<BucketedGlucose>,
    time: int,
    bg: int,
    target: int,
    remaining: int,
) -> Seq<BucketedGlucose>
    decreases remaining,
{
    if remaining <= CHUNK_MINUTES {
        buckets
    } else {
        let at = instant_before(time, CHUNK_MILLIS as int);
        let value = fx_add(bg, fx_mul_div(fx_sub(target, bg), CHUNK_MINUTES as int, remaining));
        filled(
            buckets.push(BucketedGlucose { date: at as i64, glucose: fx_round(value, 0) as i64 }),
            at,
            value,
            target,
            remaining - CHUNK_MINUTES,
        )
    }
}

/// The buckets with the last one replaced by its mean with `glucose`.
pub open spec fn merged(buckets: Seq<BucketedGlucose>, glucose: int) -> Seq<BucketedGlucose> {
    if buckets.len() == 0 {
        buckets
    } else {
        buckets.update(
            buckets.len() - 1,
            BucketedGlucose {
                date: buckets.last().date,
                glucose: fx_div_int(fx_add(buckets.last().glucose as int, glucose), 2) as i64,
            },
        )
    }
}

/// The buckets after a reading of `glucose` at `date` that follows the last
/// reading by `elapsed` minutes.
pub open spec fn placed(walk: BucketWalk, date: i64, glucose: i64, elapsed: int) -> Seq<
    BucketedGlucose,
> {
    if elapsed > GAP_MINUTES {
        filled(
            walk.buckets,
            walk.last_time as int,
            walk.last_bg as int,
            glucose as int,
            min_of(elapsed, MAX_FILL_MINUTES as int),
        )
    } else if elapsed >= MERGE_MINUTES {
        walk.buckets.push(BucketedGlucose { date, glucose })
    } else {
        merged(walk.buckets, glucose as int)
    }
}

/// The walk after one more reading. A reading below 39 mg/dL is passed
/// over, and so is one behind the absorption window or behind the first
/// reading from before the meal.
pub open spec fn walk_step(walk: BucketWalk, reading: GlucoseReading, meal: int, hours: int) -> BucketWalk {
    if !reading.valid() || past_window(reading.date as int, meal, hours) || walk.found_pre_meal {
        walk
    } else {
        BucketWalk {
            buckets: placed(
                walk,
                reading.date,
                reading.glucose,
                abs_of(minutes_between(walk.last_time as int, reading.date as int)),
            ),
            last_time: reading.date,
            last_bg: reading.glucose,
            found_pre_meal: reading.date < meal,
        }
    }
}

/// The walk over the first `n` readings; it starts at the first reading.
pub open spec fn walk_upto(readings: Seq<GlucoseReading>, meal: int, hours: int, n: int) -> BucketWalk
    decreases n,
{
    if n <= 1 {
        BucketWalk {
            buckets: if readings.len() > 0 && readings[0].valid() {
                seq![BucketedGlucose { date: readings[0].date, glucose: readings[0].glucose }]
            } else {
                Seq::<BucketedGlucose>::empty()
            },
            last_time: if readings.len() > 0 {
                readings[0].date
            } else {
                0
            },
            last_bg: if readings.len() > 0 {
                readings[0].glucose
            } else {
                0
            },
            found_pre_meal: false,
        }
    } else {
        walk_step(walk_upto(readings, meal, hours, n - 1), readings[n - 1], meal, hours)
    }
}

/// The regular series of the readings around a meal at `meal` with an
/// absorption window of `hours` hours.
pub open spec fn bucketed(readings: Seq<GlucoseReading>, meal: int, hours: int) -> Seq<
    BucketedGlucose,
> {
    walk_upto(readings, meal, hours, readings.len() as int).buckets
}

/// Whether the readings, most recent first, are a regular series within the
/// absorption window: each a measurement, each five minutes before the one
/// before it, none behind the window, and none but the last from before the
/// meal.
pub open spec fn regular_in_window(readings: Seq<GlucoseReading>, meal: int, hours: int) -> bool {
    &&& forall|i: int|
        0 <= i < readings.len() ==> (#[trigger] readings[i]).valid() && !past_window(
            readings[i].date as int,
            meal,
            hours,
        )
    &&& forall|i: int|
        0 <= i < readings.len() - 1 ==> (#[trigger] readings[i + 1]).date == readings[i].date
            - CHUNK_MILLIS && readings[i].date >= meal
}

/// The first `n` readings as buckets.
pub open spec fn as_buckets(readings: Seq<GlucoseReading>, n: int) -> Seq<BucketedGlucose> {
    Seq::new(
        n as nat,
        |i: int| BucketedGlucose { date: readings[i].date, glucose: readings[i].glucose },
    )
}

proof fn lemma_regular_walk(readings: Seq<GlucoseReading>, meal: int, hours: int, n: int)
    requires
        regular_in_window(readings, meal, hours),
        1 <= n <= readings.len(),
    ensures
        walk_upto(readings, meal, hours, n).buckets == as_buckets(readings, n),
        walk_upto(readings, meal, hours, n).last_time == readings[n - 1].date,
        walk_upto(readings, meal, hours, n).last_bg == readings[n - 1].glucose,
        n < readings.len() ==> !walk_upto(readings, meal, hours, n).found_pre_meal,
    decreases n,
{
    if n <= 1 {
        assert(readings[0].valid());
        assert(walk_upto(readings, meal, hours, n).buckets =~= as_buckets(readings, n));
    } else {
        lemma_regular_walk(readings, meal, hours, n - 1);
        let before = walk_upto(readings, meal, hours, n - 1);
        let reading = readings[n - 1];
        assert(reading.valid());
        assert(readings[(n - 2) + 1].date == readings[n - 2].date - CHUNK_MILLIS);
        crate::fixed::lemma_div_round_exact(-5_000_000, 3);
        assert(minutes_between(before.last_time as int, reading.date as int) == -5_000_000);
        if n < readings.len() {
            assert(readings[(n - 1) + 1].date == readings[n - 1].date - CHUNK_MILLIS);
        }
        assert(as_buckets(readings, n - 1).push(
            BucketedGlucose { date: reading.date, glucose: reading.glucose },
        ) =~= as_buckets(readings, n));
    }
}

/// A series that is regular already is kept as it is.
pub proof fn lemma_regular_series_is_kept(readings: Seq<GlucoseReading>, meal: int, hours: int)
    requires
        regular_in_window(readings, meal, hours),
    ensures
        bucketed(readings, meal, hours) == as_buckets(readings, readings.len() as int),
{
    if readings.len() >= 1 {
        lemma_regular_walk(readings, meal, hours, readings.len() as int);
    } else {
        assert(bucketed(readings, meal, hours) =~= as_buckets(readings, 0));
    }
}

/// Fills a gap.
fn fill_gap(buckets: &mut Vec<BucketedGlucose>, time: i64, bg: i64, target: i64, remaining: i64)
    ensures
        final(buckets)@ == filled(
            old(buckets)@,
            time as int,
            bg as int,
            target as int,
            remaining as int,
        ),
{
    let mut at: i64 = time;
    let mut value: i64 = bg;
    let mut left: i64 = remaining;
    while left > CHUNK_MINUTES
        invariant
            filled(buckets@, at as int, value as int, target as int, left as int) == filled(
                old(buckets)@,
                time as int,
                bg as int,
                target as int,
                remaining as int,
            ),
        decreases left,
    {
        at = step_back(at, CHUNK_MILLIS);
        value = add_fx(value, mul_div_fx(sub_fx(target, value), CHUNK_MINUTES, left));
        buckets.push(BucketedGlucose { date: at, glucose: round_fx(value, 0) });
        left = left - CHUNK_MINUTES;
    }
}

/// The regular series of the readings, most recent first, around a meal at
/// `meal_millis` with an absorption window of `max_absorption_hours` hours.
/// A series that is regular already is kept as it is.
pub fn bucket_glucose_data(
    glucose_data: &Vec<GlucoseReading>,
    meal_millis: i64,
    max_absorption_hours: i64,
) -> (r: Vec<BucketedGlucose>)
    ensures
        r@ == bucketed(glucose_data@, meal_millis as int, max_absorption_hours as int),
        regular_in_window(glucose_data@, meal_millis as int, max_absorption_hours as int) ==> r@
            == as_buckets(glucose_data@, glucose_data@.len() as int),
{
    proof {
        if regular_in_window(glucose_data@, meal_millis as int, max_absorption_hours as int) {
            lemma_regular_series_is_kept(
                glucose_data@,
                meal_millis as int,
                max_absorption_hours as int,
            );
        }
    }
    let mut buckets: Vec<BucketedGlucose> = Vec::new();
    if glucose_data.len() == 0 {
        return buckets;
    }
    if glucose_data[0].is_valid() {
        buckets.push(BucketedGlucose { date: glucose_data[0].date, glucose: glucose_data[0].glucose });
    }
    let mut last_time: i64 = glucose_data[0].date;
    let mut last_bg: i64 = glucose_data[0].glucose;
    let mut found_pre_meal: bool = false;
    let mut i: usize = 1;
    proof {
        assert(buckets@ =~= walk_upto(
            glucose_data@,
            meal_millis as int,
            max_absorption_hours as int,
            1,
        ).buckets);
    }
    while i < glucose_data.len()
        invariant
            1 <= i <= glucose_data.len(),
            walk_upto(glucose_data@, meal_millis as int, max_absorption_hours as int, i as int)
                == (BucketWalk { buckets: buckets@, last_time, last_bg, found_pre_meal }),
        decreases glucose_data.len() - i,
    {
        let reading = &glucose_data[i];
        i += 1;
        if !reading.is_valid() {
            continue;
        }
        let since_meal: i128 = reading.date as i128 - meal_millis as i128;
        if 5 * since_meal > 18 * (max_absorption_hours as i128) || found_pre_meal {
            continue;
        }
        let elapsed: i64 = minutes_from(last_time, reading.date);
        let elapsed: i64 = if elapsed < 0 {
            sub_fx(0, elapsed)
        } else {
            elapsed
        };
        if elapsed > GAP_MINUTES {
            fill_gap(
                &mut buckets,
                last_time,
                last_bg,
                reading.glucose,
                min_fx(elapsed, MAX_FILL_MINUTES),
            );
        } else if elapsed >= MERGE_MINUTES {
            buckets.push(BucketedGlucose { date: reading.date, glucose: reading.glucose });
        } else if buckets.len() > 0 {
            let end: usize = buckets.len() - 1;
            let last: BucketedGlucose = buckets[end];
            buckets.set(
                end,
                BucketedGlucose {
                    date: last.date,
                    glucose: div_int_fx(add_fx(last.glucose, reading.glucose), 2),
                },
            );
        }
        found_pre_meal = since_meal < 0;
        last_time = reading.date;
        last_bg = reading.glucose;
    }
    buckets
}

} // verus!
