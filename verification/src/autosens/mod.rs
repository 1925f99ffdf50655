//! Autosens: the sensitivity ratio that the quiet deviations of a day show.

pub mod deviations;
pub mod quiet;
pub mod ratio;

pub use deviations::calculate_deviations;
pub use deviations::find_meal_treatments;
pub use deviations::get_active_temp_target;
pub use ratio::calculate_ratio_from_deviations;
pub use ratio::percentile;
pub use ratio::SensitivityCategory;
pub use ratio::SensitivityResult;

use crate::cob::bucket::merged;
use crate::cob::bucket::GAP_MINUTES;
use crate::cob::bucket::MERGE_MINUTES;
use crate::cob::moment;
use crate::cob::BucketedGlucose;
use crate::error::OrefError;
use crate::fixed::add_fx;
use crate::fixed::div_int_fx;
use crate::fixed::fx_add;
use crate::fixed::fx_mul_div;
use crate::fixed::max_of;
use crate::fixed::on_grid;
use crate::fixed::LIMIT;
use crate::fixed::fx_round;
use crate::fixed::fx_sub;
use crate::fixed::mul_div_fx;
use crate::fixed::round_fx;
use crate::fixed::sub_fx;
use crate::iob::history::CHUNK_MINUTES;
use crate::time::instant_after;
use crate::time::step_forward;
use crate::fixed::ONE;
use crate::order::insert_by_key;
use crate::order::sorted_by_key;
use crate::order::Keyed;
use crate::time::instant_before;
use crate::time::is_instant;
use crate::time::minutes_between;
use crate::time::minutes_from;
use crate::time::step_back;
use crate::time::valid_instant;
use crate::types::glucose::MIN_VALID_GLUCOSE;
use crate::types::AutosensData;
use crate::types::GlucoseReading;
use crate::types::Profile;
use crate::types::TempTarget;
use crate::types::Treatment;
use deviations::deviations_of;
use deviations::Meal;
use crate::iob::history::CHUNK_MILLIS;
use crate::order::lemma_sorted_is_fixed;
use crate::order::ordered;
use ratio::lemma_any_ratio_within_limits;
use ratio::limits_fit;
use ratio::ratio_of;
use vstd::prelude::*;

verus! {

/// How autosens looks at the data.
#[derive(Debug, Clone)]
pub struct AutosensConfig {
    /// Number of deviations that count: 96 are eight hours.
    pub lookback: usize,
    /// Whether the day ends at the first reading instead of at the clock.
    pub retrospective: bool,
    /// Smallest ratio.
    pub autosens_min: i64,
    /// Greatest ratio.
    pub autosens_max: i64,
}

impl Default for AutosensConfig {
    fn default() -> (r: Self)
        ensures
            r.lookback == 96,
            !r.retrospective,
            r.autosens_min == 700_000,
            r.autosens_max == 1_200_000,
    {
        AutosensConfig {
            lookback: 96,
            retrospective: false,
            autosens_min: 700_000,
            autosens_max: 1_200_000,
        }
    }
}

/// The default way: 96 deviations, ratios from 0.7 to 1.2.
pub open spec fn default_config() -> AutosensConfig {
    AutosensConfig {
        lookback: 96,
        retrospective: false,
        autosens_min: 700_000,
        autosens_max: 1_200_000,
    }
}

/// The day that autosens looks back, milliseconds.
pub const DAY_MILLIS: i64 = 86_400_000;

impl Keyed for BucketedGlucose {
    /// Samples are ordered by their dates.
    open spec fn key(self) -> int {
        self.date as int
    }

    fn key_of(&self) -> (k: i64) {
        self.date
    }
}

/// The first `n` readings as samples.
pub open spec fn samples_upto(readings: Seq<GlucoseReading>, n: int) -> Seq<BucketedGlucose>
    decreases n,
{
    if n <= 0 {
        Seq::<BucketedGlucose>::empty()
    } else {
        samples_upto(readings, n - 1).push(
            BucketedGlucose { date: readings[n - 1].date, glucose: readings[n - 1].glucose },
        )
    }
}

/// The readings as samples in the order of their dates.
pub open spec fn chronological(readings: Seq<GlucoseReading>) -> Seq<BucketedGlucose> {
    sorted_by_key(samples_upto(readings, readings.len() as int))
}

/// No gap is filled with more buckets than these: four hours of them.
pub const MAX_FILL_STEPS: i64 = 48;

/// Where the walk over the chronological samples stands.
pub struct SiteWalk {
    pub buckets: Seq<BucketedGlucose>,
    /// Time of the last sample taken.
    pub last_time: i64,
    /// Glucose of the last sample taken.
    pub last_bg: i64,
    /// Whether a sample has been taken.
    pub begun: bool,
}

/// The buckets with a gap filled: from `time` on in steps of five minutes
/// while more than eight of the `remaining` minutes are left, each step on
/// the straight line from `bg` to `target`, held in whole mg/dL; `steps`
/// buckets at most.
pub open spec fn gap_filled(
    buckets: Seq<BucketedGlucose>,
    time: int,
    bg: int,
    target: int,
    remaining: int,
    steps: int,
) -> Seq<BucketedGlucose>
    decreases steps,
{
    if steps <= 0 || remaining <= GAP_MINUTES {
        buckets
    } else {
        let at = instant_after(time, CHUNK_MILLIS as int);
        let value = fx_add(bg, fx_mul_div(fx_sub(target, bg), CHUNK_MINUTES as int, remaining));
        gap_filled(
            buckets.push(BucketedGlucose { date: at as i64, glucose: fx_round(value, 0) as i64 }),
            at,
            value,
            target,
            fx_sub(remaining, CHUNK_MINUTES as int),
            steps - 1,
        )
    }
}

/// The buckets after a sample that follows the last sample taken by
/// `elapsed` minutes: within two minutes it is merged into the last bucket;
/// within eight it opens a bucket; behind a longer gap it opens a bucket
/// behind those that fill the gap.
pub open spec fn site_placed(walk: SiteWalk, sample: BucketedGlucose, elapsed: int) -> Seq<
    BucketedGlucose,
> {
    if elapsed > GAP_MINUTES {
        gap_filled(
            walk.buckets,
            walk.last_time as int,
            walk.last_bg as int,
            sample.glucose as int,
            elapsed,
            MAX_FILL_STEPS as int,
        ).push(sample)
    } else if elapsed >= MERGE_MINUTES {
        walk.buckets.push(sample)
    } else {
        merged(walk.buckets, sample.glucose as int)
    }
}

/// The walk after one more sample. A sample below 39 mg/dL or from before
/// the site change is passed over; the first sample taken opens a bucket;
/// every other is placed by the time since the last sample taken.
pub open spec fn site_step(walk: SiteWalk, sample: BucketedGlucose, site_change: int) -> SiteWalk {
    if sample.glucose < MIN_VALID_GLUCOSE || sample.date < site_change {
        walk
    } else {
        SiteWalk {
            buckets: if walk.begun {
                site_placed(
                    walk,
                    sample,
                    minutes_between(walk.last_time as int, sample.date as int),
                )
            } else {
                walk.buckets.push(sample)
            },
            last_time: sample.date,
            last_bg: sample.glucose,
            begun: true,
        }
    }
}

/// The walk over the first `n` chronological samples.
pub open spec fn site_walk_upto(samples: Seq<BucketedGlucose>, site_change: int, n: int) -> SiteWalk
    decreases n,
{
    if n <= 0 {
        SiteWalk {
            buckets: Seq::<BucketedGlucose>::empty(),
            last_time: 0,
            last_bg: 0,
            begun: false,
        }
    } else {
        site_step(site_walk_upto(samples, site_change, n - 1), samples[n - 1], site_change)
    }
}

/// The regular series of the readings since the site change.
pub open spec fn site_buckets(readings: Seq<GlucoseReading>, site_change: int) -> Seq<
    BucketedGlucose,
> {
    site_walk_upto(chronological(readings), site_change, readings.len() as int).buckets
}

/// The time of the last rewind among the first `n` treatments.
pub open spec fn last_rewind_upto(treatments: Seq<Treatment>, n: int) -> Option<i64>
    decreases n,
{
    if n <= 0 {
        None
    } else {
        let before = last_rewind_upto(treatments, n - 1);
        let t = treatments[n - 1];
        if t.rewind_event() && (before is None || before.unwrap() <= t.effective_date_of()) {
            Some(t.effective_date_of())
        } else {
            before
        }
    }
}

/// The time of the last rewind, where there is one at a calendar instant.
pub open spec fn last_rewind_of(treatments: Seq<Treatment>) -> Option<i64> {
    match last_rewind_upto(treatments, treatments.len() as int) {
        Some(time) => if is_instant(time as int) {
            Some(time)
        } else {
            None
        },
        None => None,
    }
}

/// From when on the readings count: a day before the clock, or before the
/// first reading in retrospect; from the last rewind instead, where the
/// profile has rewinds reset autosens and there is one.
pub open spec fn site_change_of(
    profile: Profile,
    readings: Seq<GlucoseReading>,
    treatments: Seq<Treatment>,
    clock: i64,
    config: AutosensConfig,
) -> int {
    let end = if config.retrospective {
        moment(readings[0].date, clock)
    } else {
        clock
    };
    if profile.rewind_resets_autosens && last_rewind_of(treatments) is Some {
        last_rewind_of(treatments).unwrap() as int
    } else {
        instant_before(end as int, DAY_MILLIS as int)
    }
}

/// The ratio without data to go by.
pub open spec fn neutral() -> AutosensData {
    AutosensData { ratio: ONE }
}

/// The sensitivity that the readings show: the neutral ratio without
/// readings, with fewer than four buckets or without deviations.
pub open spec fn sensitivity_of(
    profile: Profile,
    readings: Seq<GlucoseReading>,
    treatments: Seq<Treatment>,
    temp_targets: Seq<TempTarget>,
    clock: i64,
    config: AutosensConfig,
) -> AutosensData {
    let buckets = site_buckets(
        readings,
        site_change_of(profile, readings, treatments, clock, config),
    );
    let deviations = deviations_of(profile, buckets, treatments, temp_targets, config, clock);
    if readings.len() == 0 || buckets.len() < 4 || deviations.len() == 0 {
        neutral()
    } else {
        AutosensData { ratio: ratio_of(deviations, profile, config) as i64 }
    }
}

/// Whatever the data, the sensitivity ratio lies within the configured
/// limits, where these include one.
pub proof fn lemma_sensitivity_within_limits(
    profile: Profile,
    readings: Seq<GlucoseReading>,
    treatments: Seq<Treatment>,
    temp_targets: Seq<TempTarget>,
    clock: i64,
    config: AutosensConfig,
)
    requires
        limits_fit(config),
        config.autosens_min <= ONE <= config.autosens_max,
    ensures
        config.autosens_min <= sensitivity_of(
            profile,
            readings,
            treatments,
            temp_targets,
            clock,
            config,
        ).ratio <= config.autosens_max,
{
    let buckets = site_buckets(
        readings,
        site_change_of(profile, readings, treatments, clock, config),
    );
    let deviations = deviations_of(profile, buckets, treatments, temp_targets, config, clock);
    lemma_any_ratio_within_limits(deviations, profile, config);
}

/// Whether the readings are a regular series since the site change: each a
/// measurement, none from before the site change, each five minutes after
/// the one before it.
pub open spec fn regular_since_site_change(readings: Seq<GlucoseReading>, site_change: int) -> bool {
    &&& forall|i: int|
        0 <= i < readings.len() ==> (#[trigger] readings[i]).valid() && readings[i].date
            >= site_change
    &&& forall|i: int|
        0 <= i < readings.len() - 1 ==> (#[trigger] readings[i + 1]).date == readings[i].date
            + CHUNK_MILLIS
}

proof fn lemma_samples(readings: Seq<GlucoseReading>, n: int)
    requires
        0 <= n <= readings.len(),
    ensures
        samples_upto(readings, n).len() == n,
        forall|i: int|
            0 <= i < n ==> #[trigger] samples_upto(readings, n)[i] == (BucketedGlucose {
                date: readings[i].date,
                glucose: readings[i].glucose,
            }),
    decreases n,
{
    if n > 0 {
        lemma_samples(readings, n - 1);
    }
}

proof fn lemma_regular_dates(readings: Seq<GlucoseReading>, site_change: int, i: int, j: int)
    requires
        regular_since_site_change(readings, site_change),
        0 <= i <= j < readings.len(),
    ensures
        readings[j].date == readings[i].date + (j - i) * CHUNK_MILLIS,
    decreases j - i,
{
    if i < j {
        lemma_regular_dates(readings, site_change, i, j - 1);
        assert(readings[(j - 1) + 1].date == readings[j - 1].date + CHUNK_MILLIS);
    }
}

/// Whether the samples are a regular series since the site change: each a
/// measurement, none from before the site change, each five minutes after
/// the one before it.
pub open spec fn regular_samples(samples: Seq<BucketedGlucose>, site_change: int) -> bool {
    &&& forall|i: int|
        0 <= i < samples.len() ==> (#[trigger] samples[i]).glucose >= MIN_VALID_GLUCOSE
            && samples[i].date >= site_change
    &&& forall|i: int|
        0 <= i < samples.len() - 1 ==> (#[trigger] samples[i + 1]).date == samples[i].date
            + CHUNK_MILLIS
}

/// The walk keeps regular samples as they are: none is merged, and nothing
/// is filled in between them.
pub proof fn lemma_regular_samples_are_kept(samples: Seq<BucketedGlucose>, site_change: int, n: int)
    requires
        0 <= n <= samples.len(),
        regular_samples(samples, site_change),
    ensures
        site_walk_upto(samples, site_change, n).buckets == samples.subrange(0, n),
        site_walk_upto(samples, site_change, n).begun == (n > 0),
        n > 0 ==> site_walk_upto(samples, site_change, n).last_time == samples[n - 1].date,
    decreases n,
{
    if n > 0 {
        lemma_regular_samples_are_kept(samples, site_change, n - 1);
        let s = samples[n - 1];
        if n > 1 {
            assert(samples[(n - 2) + 1].date == samples[n - 2].date + CHUNK_MILLIS);
            crate::fixed::lemma_div_round_exact(5_000_000, 3);
            assert(minutes_between(samples[n - 2].date as int, s.date as int) == 5_000_000);
        }
        assert(samples.subrange(0, n - 1).push(s) =~= samples.subrange(0, n));
    } else {
        assert(samples.subrange(0, 0) =~= Seq::<BucketedGlucose>::empty());
    }
}

/// A series that is regular already is kept as it is.
pub proof fn lemma_regular_series_is_kept(readings: Seq<GlucoseReading>, site_change: int)
    requires
        regular_since_site_change(readings, site_change),
    ensures
        site_buckets(readings, site_change) == samples_upto(readings, readings.len() as int),
{
    let n = readings.len() as int;
    let samples = samples_upto(readings, n);
    lemma_samples(readings, n);
    assert forall|i: int, j: int| 0 <= i <= j < samples.len() implies samples[i].key()
        <= samples[j].key() by {
        lemma_regular_dates(readings, site_change, i, j);
        assert((j - i) * CHUNK_MILLIS >= 0) by (nonlinear_arith)
            requires
                j - i >= 0,
        ;
    }
    lemma_sorted_is_fixed(samples);
    assert forall|i: int| 0 <= i < samples.len() implies (#[trigger] samples[i]).glucose
        >= MIN_VALID_GLUCOSE && samples[i].date >= site_change by {
        assert(readings[i].valid());
    }
    assert forall|i: int| 0 <= i < samples.len() - 1 implies (#[trigger] samples[i + 1]).date
        == samples[i].date + CHUNK_MILLIS by {
        assert(readings[i + 1].date == readings[i].date + CHUNK_MILLIS);
    }
    lemma_regular_samples_are_kept(samples, site_change, n);
    assert(samples.subrange(0, n) =~= samples);
}

/// The readings as samples in the order of their dates.
fn sort_readings(readings: &Vec<GlucoseReading>) -> (r: Vec<BucketedGlucose>)
    ensures
        r@ == chronological(readings@),
        r@.len() == readings@.len(),
{
    let mut sorted: Vec<BucketedGlucose> = Vec::new();
    let mut i: usize = 0;
    proof {
        assert(samples_upto(readings@, 0) =~= Seq::<BucketedGlucose>::empty());
    }
    while i < readings.len()
        invariant
            i <= readings.len(),
            sorted@ == sorted_by_key(samples_upto(readings@, i as int)),
            samples_upto(readings@, i as int).len() == i,
        decreases readings.len() - i,
    {
        let sample = BucketedGlucose { date: readings[i].date, glucose: readings[i].glucose };
        proof {
            assert(samples_upto(readings@, i + 1).drop_last() =~= samples_upto(readings@, i as int));
        }
        insert_by_key(&mut sorted, sample);
        i += 1;
    }
    proof {
        crate::order::lemma_sorted_by_key(samples_upto(readings@, readings@.len() as int));
    }
    sorted
}

/// Whether every bucket holds glucose between `low` and `high`.
pub open spec fn within(buckets: Seq<BucketedGlucose>, low: int, high: int) -> bool {
    forall|i: int| 0 <= i < buckets.len() ==> low <= (#[trigger] buckets[i]).glucose <= high
}

/// The buckets that fill a gap lie between the two readings: where both
/// readings lie between two whole numbers of mg/dL, so does every bucket
/// that is added.
pub proof fn lemma_fill_lies_between(
    buckets: Seq<BucketedGlucose>,
    time: int,
    bg: int,
    target: int,
    remaining: int,
    steps: int,
    low: int,
    high: int,
)
    requires
        within(buckets, low, high),
        low <= bg <= high,
        low <= target <= high,
        -(LIMIT as int) <= 2 * low <= 2 * high <= LIMIT,
        on_grid(low, ONE as int),
        on_grid(high, ONE as int),
        remaining <= LIMIT,
    ensures
        within(gap_filled(buckets, time, bg, target, remaining, steps), low, high),
        gap_filled(buckets, time, bg, target, remaining, steps).len() >= buckets.len(),
        gap_filled(buckets, time, bg, target, remaining, steps).len() <= buckets.len() + max_of(
            steps,
            0,
        ),
    decreases steps,
{
    if steps > 0 && remaining > GAP_MINUTES {
        let step = fx_mul_div(fx_sub(target, bg), CHUNK_MINUTES as int, remaining);
        crate::fixed::lemma_fx_share_signed(target - bg, CHUNK_MINUTES as int, remaining);
        let value = fx_add(bg, step);
        assert(low <= value <= high);
        crate::fixed::lemma_round_to_monotone(low, value, ONE as int);
        crate::fixed::lemma_round_to_monotone(value, high, ONE as int);
        crate::fixed::lemma_round_to_fixed(low, ONE as int);
        crate::fixed::lemma_round_to_fixed(high, ONE as int);
        let at = instant_after(time, CHUNK_MILLIS as int);
        let next = buckets.push(
            BucketedGlucose { date: at as i64, glucose: fx_round(value, 0) as i64 },
        );
        assert forall|i: int| 0 <= i < next.len() implies low <= (#[trigger] next[i]).glucose
            <= high by {
            if i < buckets.len() {
                assert(next[i] == buckets[i]);
            }
        }
        lemma_fill_lies_between(
            next,
            at,
            value,
            target,
            fx_sub(remaining, CHUNK_MINUTES as int),
            steps - 1,
            low,
            high,
        );
    }
}

/// The buckets that fill the gap before a sample at `until` follow each
/// other by five minutes from `time` on and come before `until`. Where the
/// gap is filled with fewer buckets than four hours give, no more than
/// eight of its minutes are left behind the last of them.
pub proof fn lemma_fill_comes_before(
    buckets: Seq<BucketedGlucose>,
    time: int,
    bg: int,
    target: int,
    remaining: int,
    steps: int,
    until: int,
)
    requires
        i64::MIN <= time <= until <= i64::MAX,
        6 * remaining <= 100 * (until - time) + 3,
        remaining <= LIMIT,
    ensures
        ({
            let filled = gap_filled(buckets, time, bg, target, remaining, steps);
            &&& filled.len() >= buckets.len()
            &&& forall|k: int| 0 <= k < buckets.len() ==> #[trigger] filled[k] == buckets[k]
            &&& forall|k: int|
                buckets.len() <= k < filled.len() ==> (#[trigger] filled[k]).date == time + (k
                    - buckets.len() + 1) * CHUNK_MILLIS && filled[k].date < until
            &&& filled.len() - buckets.len() <= max_of(steps, 0)
            &&& filled.len() - buckets.len() < steps ==> remaining - (filled.len()
                - buckets.len()) * CHUNK_MINUTES <= GAP_MINUTES
            &&& remaining > GAP_MINUTES && steps > 0 ==> filled.len() > buckets.len()
        }),
    decreases steps,
{
    if steps > 0 && remaining > GAP_MINUTES {
        let at = instant_after(time, CHUNK_MILLIS as int);
        assert(until - time >= 480_000);
        assert(at == time + CHUNK_MILLIS);
        let value = fx_add(bg, fx_mul_div(fx_sub(target, bg), CHUNK_MINUTES as int, remaining));
        let next = buckets.push(
            BucketedGlucose { date: at as i64, glucose: fx_round(value, 0) as i64 },
        );
        let left = fx_sub(remaining, CHUNK_MINUTES as int);
        assert(left == remaining - CHUNK_MINUTES);
        lemma_fill_comes_before(next, at, value, target, left, steps - 1, until);
        let filled = gap_filled(buckets, time, bg, target, remaining, steps);
        assert(filled == gap_filled(next, at, value, target, left, steps - 1));
        assert forall|k: int| 0 <= k < buckets.len() implies #[trigger] filled[k]
            == buckets[k] by {
            assert(filled[k] == next[k]);
        }
        let more = filled.len() - next.len();
        assert(left - more * CHUNK_MINUTES == remaining - (more + 1) * CHUNK_MINUTES)
            by (nonlinear_arith)
            requires
                left == remaining - CHUNK_MINUTES,
        ;
        assert forall|k: int| buckets.len() <= k < filled.len() implies (#[trigger] filled[k]).date
            == time + (k - buckets.len() + 1) * CHUNK_MILLIS && filled[k].date < until by {
            if k == buckets.len() {
                assert(filled[k] == next[k]);
            } else {
                assert(filled[k].date == at + (k - next.len() + 1) * CHUNK_MILLIS);
                assert(at + (k - next.len() + 1) * CHUNK_MILLIS == time + (k - buckets.len() + 1)
                    * CHUNK_MILLIS) by (nonlinear_arith)
                    requires
                        at == time + CHUNK_MILLIS,
                        next.len() == buckets.len() + 1,
                ;
            }
        }
    }
}

/// Whether the walk has kept the order of time: no bucket follows an
/// earlier one, and none comes after the last sample taken.
pub open spec fn in_order(walk: SiteWalk) -> bool {
    &&& ordered(walk.buckets)
    &&& !walk.begun ==> walk.buckets.len() == 0
    &&& forall|k: int|
        0 <= k < walk.buckets.len() ==> (#[trigger] walk.buckets[k]).date <= walk.last_time
}

proof fn lemma_step_keeps_order(walk: SiteWalk, sample: BucketedGlucose, site_change: int)
    requires
        in_order(walk),
        walk.begun ==> walk.last_time <= sample.date,
    ensures
        in_order(site_step(walk, sample, site_change)),
{
    let after = site_step(walk, sample, site_change);
    if !(sample.glucose < MIN_VALID_GLUCOSE || sample.date < site_change) {
        if !walk.begun {
            assert(after.buckets =~= seq![sample]);
        } else {
            let span = sample.date - walk.last_time;
            let elapsed = minutes_between(walk.last_time as int, sample.date as int);
            crate::fixed::lemma_div_round_bounds(span * 50, 3);
            assert(6 * elapsed <= 100 * span + 3);
            if elapsed > GAP_MINUTES {
                let filled = gap_filled(
                    walk.buckets,
                    walk.last_time as int,
                    walk.last_bg as int,
                    sample.glucose as int,
                    elapsed,
                    MAX_FILL_STEPS as int,
                );
                lemma_fill_comes_before(
                    walk.buckets,
                    walk.last_time as int,
                    walk.last_bg as int,
                    sample.glucose as int,
                    elapsed,
                    MAX_FILL_STEPS as int,
                    sample.date as int,
                );
                assert forall|i: int, j: int| 0 <= i <= j < filled.len() implies filled[i].key()
                    <= filled[j].key() by {
                    if j < walk.buckets.len() {
                        assert(filled[i] == walk.buckets[i] && filled[j] == walk.buckets[j]);
                    } else if i < walk.buckets.len() {
                        assert(filled[i] == walk.buckets[i]);
                        assert((j - walk.buckets.len() + 1) * CHUNK_MILLIS >= 0) by (nonlinear_arith)
                            requires
                                j - walk.buckets.len() + 1 >= 0,
                        ;
                    } else {
                        assert((i - walk.buckets.len() + 1) * CHUNK_MILLIS <= (j
                            - walk.buckets.len() + 1) * CHUNK_MILLIS) by (nonlinear_arith)
                            requires
                                i <= j,
                        ;
                    }
                }
                assert forall|k: int| 0 <= k < filled.len() implies (#[trigger] filled[k]).date
                    <= sample.date by {
                    if k < walk.buckets.len() {
                        assert(filled[k] == walk.buckets[k]);
                    }
                }
                lemma_pushed_in_order(filled, sample);
            } else if elapsed >= MERGE_MINUTES {
                lemma_pushed_in_order(walk.buckets, sample);
            } else {
                let kept = merged(walk.buckets, sample.glucose as int);
                assert forall|i: int, j: int| 0 <= i <= j < kept.len() implies kept[i].key()
                    <= kept[j].key() by {
                    assert(kept[i].date == walk.buckets[i].date);
                    assert(kept[j].date == walk.buckets[j].date);
                    assert(walk.buckets[i].key() <= walk.buckets[j].key());
                }
                assert forall|k: int| 0 <= k < kept.len() implies (#[trigger] kept[k]).date
                    <= sample.date by {
                    assert(kept[k].date == walk.buckets[k].date);
                }
            }
        }
    }
}

proof fn lemma_pushed_in_order(buckets: Seq<BucketedGlucose>, sample: BucketedGlucose)
    requires
        ordered(buckets),
        forall|k: int| 0 <= k < buckets.len() ==> (#[trigger] buckets[k]).date <= sample.date,
    ensures
        ordered(buckets.push(sample)),
        forall|k: int|
            0 <= k < buckets.push(sample).len() ==> (#[trigger] buckets.push(sample)[k]).date
                <= sample.date,
{
    let pushed = buckets.push(sample);
    assert forall|i: int, j: int| 0 <= i <= j < pushed.len() implies pushed[i].key()
        <= pushed[j].key() by {
        if j < buckets.len() {
            assert(pushed[i] == buckets[i] && pushed[j] == buckets[j]);
            assert(buckets[i].key() <= buckets[j].key());
        } else if i < buckets.len() {
            assert(pushed[i] == buckets[i]);
        }
    }
    assert forall|k: int| 0 <= k < pushed.len() implies (#[trigger] pushed[k]).date
        <= sample.date by {
        if k < buckets.len() {
            assert(pushed[k] == buckets[k]);
        }
    }
}

proof fn lemma_walk_in_order(samples: Seq<BucketedGlucose>, site_change: int, n: int)
    requires
        ordered(samples),
        0 <= n <= samples.len(),
    ensures
        in_order(site_walk_upto(samples, site_change, n)),
        site_walk_upto(samples, site_change, n).begun ==> n >= 1 && site_walk_upto(
            samples,
            site_change,
            n,
        ).last_time <= samples[n - 1].date,
    decreases n,
{
    if n > 0 {
        lemma_walk_in_order(samples, site_change, n - 1);
        let before = site_walk_upto(samples, site_change, n - 1);
        if before.begun {
            assert(samples[n - 2].key() <= samples[n - 1].key());
        }
        lemma_step_keeps_order(before, samples[n - 1], site_change);
    } else {
        assert(ordered(Seq::<BucketedGlucose>::empty()));
    }
}

/// The regular series comes in the order of time.
pub proof fn lemma_site_buckets_in_order(readings: Seq<GlucoseReading>, site_change: int)
    ensures
        ordered(site_buckets(readings, site_change)),
{
    let samples = samples_upto(readings, readings.len() as int);
    lemma_samples(readings, readings.len() as int);
    crate::order::lemma_sorted_by_key(samples);
    lemma_walk_in_order(chronological(readings), site_change, readings.len() as int);
}

/// Fills a gap.
fn fill_gap(buckets: &mut Vec<BucketedGlucose>, time: i64, bg: i64, target: i64, remaining: i64)
    ensures
        final(buckets)@ == gap_filled(
            old(buckets)@,
            time as int,
            bg as int,
            target as int,
            remaining as int,
            MAX_FILL_STEPS as int,
        ),
{
    let mut at: i64 = time;
    let mut value: i64 = bg;
    let mut left: i64 = remaining;
    let mut steps: i64 = MAX_FILL_STEPS;
    while steps > 0 && left > GAP_MINUTES
        invariant
            0 <= steps <= MAX_FILL_STEPS,
            gap_filled(
                buckets@,
                at as int,
                value as int,
                target as int,
                left as int,
                steps as int,
            ) == gap_filled(
                old(buckets)@,
                time as int,
                bg as int,
                target as int,
                remaining as int,
                MAX_FILL_STEPS as int,
            ),
        decreases steps,
    {
        at = step_forward(at, CHUNK_MILLIS);
        value = add_fx(value, mul_div_fx(sub_fx(target, value), CHUNK_MINUTES, left));
        buckets.push(BucketedGlucose { date: at, glucose: round_fx(value, 0) });
        left = sub_fx(left, CHUNK_MINUTES);
        steps = steps - 1;
    }
}

/// The regular series of the readings since `last_site_change`, in the
/// order of time. A series that is regular already is kept as it is.
pub fn bucket_glucose_data_for_autosens(glucose_data: &Vec<GlucoseReading>, last_site_change: i64) -> (r:
    Vec<BucketedGlucose>)
    ensures
        r@ == site_buckets(glucose_data@, last_site_change as int),
        regular_since_site_change(glucose_data@, last_site_change as int) ==> r@ == samples_upto(
            glucose_data@,
            glucose_data@.len() as int,
        ),
        ordered(r@),
{
    proof {
        lemma_site_buckets_in_order(glucose_data@, last_site_change as int);
        if regular_since_site_change(glucose_data@, last_site_change as int) {
            lemma_regular_series_is_kept(glucose_data@, last_site_change as int);
        }
    }
    let samples: Vec<BucketedGlucose> = sort_readings(glucose_data);
    let mut buckets: Vec<BucketedGlucose> = Vec::new();
    let mut last_time: i64 = 0;
    let mut last_bg: i64 = 0;
    let mut begun: bool = false;
    let mut i: usize = 0;
    while i < samples.len()
        invariant
            i <= samples.len(),
            samples@.len() == glucose_data@.len(),
            site_walk_upto(samples@, last_site_change as int, i as int) == (SiteWalk {
                buckets: buckets@,
                last_time,
                last_bg,
                begun,
            }),
        decreases samples.len() - i,
    {
        let s: BucketedGlucose = samples[i];
        i += 1;
        if s.glucose < MIN_VALID_GLUCOSE || s.date < last_site_change {
            continue;
        }
        if !begun {
            buckets.push(s);
        } else {
            let elapsed: i64 = minutes_from(last_time, s.date);
            if elapsed > GAP_MINUTES {
                fill_gap(&mut buckets, last_time, last_bg, s.glucose, elapsed);
                buckets.push(s);
            } else if elapsed >= MERGE_MINUTES {
                buckets.push(s);
            } else if buckets.len() > 0 {
                let end: usize = buckets.len() - 1;
                let last: BucketedGlucose = buckets[end];
                buckets.set(
                    end,
                    BucketedGlucose {
                        date: last.date,
                        glucose: div_int_fx(add_fx(last.glucose, s.glucose), 2),
                    },
                );
            }
        }
        last_time = s.date;
        last_bg = s.glucose;
        begun = true;
    }
    buckets
}

/// The time of the last rewind of the pump.
pub fn find_last_rewind(treatments: &Vec<Treatment>) -> (r: Option<i64>)
    ensures
        r == last_rewind_of(treatments@),
{
    let mut found: Option<i64> = None;
    let mut i: usize = 0;
    while i < treatments.len()
        invariant
            i <= treatments.len(),
            found == last_rewind_upto(treatments@, i as int),
        decreases treatments.len() - i,
    {
        let t = &treatments[i];
        if t.is_rewind() {
            let date: i64 = t.effective_date();
            let later: bool = match found {
                Some(m) => m <= date,
                None => true,
            };
            if later {
                found = Some(date);
            }
        }
        i += 1;
    }
    match found {
        Some(time) => if valid_instant(time) {
            Some(time)
        } else {
            None
        },
        None => None,
    }
}

/// The sensitivity that the readings show, looked at in the way of
/// `config`. A `clock` that is no calendar instant is refused.
pub fn detect_sensitivity_with_config(
    profile: &Profile,
    glucose_data: &Vec<GlucoseReading>,
    treatments: &Vec<Treatment>,
    temp_targets: &Vec<TempTarget>,
    clock: i64,
    config: &AutosensConfig,
) -> (r: Result<AutosensData, OrefError>)
    ensures
        r is Err <==> !is_instant(clock as int),
        r matches Err(e) ==> e == OrefError::InvalidTimestamp,
        is_instant(clock as int) && glucose_data@.len() == 0 ==> r == Ok::<
            AutosensData,
            OrefError,
        >(neutral()),
        r matches Ok(data) ==> data == sensitivity_of(
            *profile,
            glucose_data@,
            treatments@,
            temp_targets@,
            clock,
            *config,
        ),
        r matches Ok(data) ==> limits_fit(*config) && config.autosens_min <= ONE
            <= config.autosens_max ==> config.autosens_min <= data.ratio <= config.autosens_max,
{
    proof {
        if limits_fit(*config) && config.autosens_min <= ONE <= config.autosens_max {
            lemma_sensitivity_within_limits(
                *profile,
                glucose_data@,
                treatments@,
                temp_targets@,
                clock,
                *config,
            );
        }
    }
    if !valid_instant(clock) {
        return Err(OrefError::InvalidTimestamp);
    }
    if glucose_data.len() == 0 {
        return Ok(AutosensData { ratio: ONE });
    }
    let end: i64 = if config.retrospective {
        if valid_instant(glucose_data[0].date) {
            glucose_data[0].date
        } else {
            clock
        }
    } else {
        clock
    };
    let day_before: i64 = step_back(end, DAY_MILLIS);
    let last_site_change: i64 = if profile.rewind_resets_autosens {
        match find_last_rewind(treatments) {
            Some(time) => time,
            None => day_before,
        }
    } else {
        day_before
    };
    let buckets: Vec<BucketedGlucose> = bucket_glucose_data_for_autosens(
        glucose_data,
        last_site_change,
    );
    if buckets.len() < 4 {
        return Ok(AutosensData { ratio: ONE });
    }
    let meals: Vec<Meal> = find_meal_treatments(treatments, &buckets);
    let deviations: Vec<i64> = calculate_deviations(
        profile,
        &buckets,
        treatments,
        &meals,
        temp_targets,
        config,
        clock,
    );
    if deviations.len() == 0 {
        return Ok(AutosensData { ratio: ONE });
    }
    let ratio: i64 = calculate_ratio_from_deviations(&deviations, profile, config);
    Ok(AutosensData { ratio })
}

/// The sensitivity that the readings show, looked at in the default way.
pub fn detect_sensitivity(
    profile: &Profile,
    glucose_data: &Vec<GlucoseReading>,
    treatments: &Vec<Treatment>,
    clock: i64,
) -> (r: Result<AutosensData, OrefError>)
    ensures
        r is Err <==> !is_instant(clock as int),
        r matches Err(e) ==> e == OrefError::InvalidTimestamp,
        is_instant(clock as int) && glucose_data@.len() == 0 ==> r == Ok::<
            AutosensData,
            OrefError,
        >(neutral()),
        r matches Ok(data) ==> data == sensitivity_of(
            *profile,
            glucose_data@,
            treatments@,
            Seq::<TempTarget>::empty(),
            clock,
            default_config(),
        ),
        r matches Ok(data) ==> 700_000 <= data.ratio <= 1_200_000,
{
    let none: Vec<TempTarget> = Vec::new();
    proof {
        assert(none@ =~= Seq::<TempTarget>::empty());
    }
    let config = AutosensConfig::default();
    detect_sensitivity_with_config(profile, glucose_data, treatments, &none, clock, &config)
}

} // verus!
