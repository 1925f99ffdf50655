//! Flat glucose without insulin shows no change of sensitivity.

use super::chronological;
use super::deviations::active_target;
use super::deviations::collected;
use super::deviations::deviation_at;
use super::deviations::deviation_step;
use super::deviations::deviation_upto;
use super::deviations::deviations_of;
use super::deviations::even_hour_start;
use super::deviations::meals_of;
use super::deviations::padded;
use super::deviations::ruling_upto;
use super::deviations::Meal;
use super::ratio::lemma_quiet_deviations_are_neutral;
use super::samples_upto;
use crate::types::glucose::MIN_VALID_GLUCOSE;
use super::sensitivity_of;
use super::lemma_regular_samples_are_kept;
use super::regular_samples;
use super::site_buckets;
use super::gap_filled;
use super::site_change_of;
use super::site_step;
use super::site_walk_upto;
use super::MAX_FILL_STEPS;
use crate::cob::bucket::GAP_MINUTES;
use crate::fixed::fx_mul_div;
use crate::fixed::on_grid;
use crate::iob::history::CHUNK_MILLIS;
use crate::iob::history::CHUNK_MINUTES;
use crate::time::instant_after;
use crate::time::minutes_between;
use super::AutosensConfig;
use crate::cob::activity_at;
use crate::cob::moment;
use crate::cob::BucketedGlucose;
use crate::determine_basal::predictions::bgi_of;
use crate::fixed::fx_add;
use crate::fixed::fx_div_int;
use crate::fixed::fx_mul;
use crate::fixed::fx_scale;
use crate::fixed::fx_sub;
use crate::fixed::lemma_div_round_exact;
use crate::fixed::lemma_round_to_fixed;
use crate::fixed::sat;
use crate::fixed::LIMIT;
use crate::fixed::ONE;
use crate::iob::history::all_impulses;
use crate::iob::history::history_impulses;
use crate::iob::history::zero_temp_impulses;
use crate::iob::impulses_at;
use crate::iob::iob_sample;
use crate::iob::total::total_iob_of;
use crate::iob::total::total_iob_upto;
use crate::order::lemma_sorted_by_key;
use crate::order::sorted_by_key;
use crate::profile::isf::sens_at;
use crate::types::GlucoseReading;
use crate::types::Profile;
use crate::types::TempTarget;
use crate::types::Treatment;
use vstd::prelude::*;

verus! {

/// Whether every reading shows the same glucose.
pub open spec fn flat(readings: Seq<GlucoseReading>, level: int) -> bool {
    forall|i: int| 0 <= i < readings.len() ==> (#[trigger] readings[i]).glucose == level
}

/// Whether every bucket holds the same glucose.
pub open spec fn level_buckets(buckets: Seq<BucketedGlucose>, level: int) -> bool {
    forall|i: int| 0 <= i < buckets.len() ==> (#[trigger] buckets[i]).glucose == level
}

/// Whether every deviation is zero.
pub open spec fn quiet(deviations: Seq<i64>) -> bool {
    forall|i: int| 0 <= i < deviations.len() ==> deviations[i] == 0
}

proof fn lemma_level_samples(readings: Seq<GlucoseReading>, level: int, n: int)
    requires
        flat(readings, level),
        0 <= n <= readings.len(),
    ensures
        level_buckets(samples_upto(readings, n), level),
        samples_upto(readings, n).len() == n,
    decreases n,
{
    if n > 0 {
        lemma_level_samples(readings, level, n - 1);
        assert(readings[n - 1].glucose == level);
    }
}

proof fn lemma_level_sorted(samples: Seq<BucketedGlucose>, level: int)
    requires
        level_buckets(samples, level),
    ensures
        level_buckets(sorted_by_key(samples), level),
        sorted_by_key(samples).len() == samples.len(),
{
    broadcast use vstd::seq_lib::group_to_multiset_ensures;

    lemma_sorted_by_key(samples);
    let sorted = sorted_by_key(samples);
    assert forall|i: int| 0 <= i < sorted.len() implies (#[trigger] sorted[i]).glucose == level by {
        assert(sorted.to_multiset().count(sorted[i]) > 0);
        assert(samples.to_multiset().count(sorted[i]) > 0);
        assert(samples.contains(sorted[i]));
        let k = choose|k: int| 0 <= k < samples.len() && samples[k] == sorted[i];
        assert(samples[k].glucose == level);
    }
}

proof fn lemma_level_fill(
    buckets: Seq<BucketedGlucose>,
    time: int,
    level: int,
    remaining: int,
    steps: int,
)
    requires
        level_buckets(buckets, level),
        on_grid(level, ONE as int),
        0 <= 2 * level <= LIMIT,
    ensures
        level_buckets(gap_filled(buckets, time, level, level, remaining, steps), level),
    decreases steps,
{
    if steps > 0 && remaining > GAP_MINUTES {
        assert(sat(0) * sat(CHUNK_MINUTES as int) == 0) by (nonlinear_arith)
            requires
                sat(0) == 0,
        ;
        lemma_div_round_exact(0, remaining);
        assert(0 * remaining == 0);
        assert(fx_mul_div(fx_sub(level, level), CHUNK_MINUTES as int, remaining) == 0);
        lemma_round_to_fixed(level, ONE as int);
        let at = instant_after(time, CHUNK_MILLIS as int);
        let filled = buckets.push(BucketedGlucose { date: at as i64, glucose: level as i64 });
        assert forall|i: int| 0 <= i < filled.len() implies (#[trigger] filled[i]).glucose
            == level by {
            if i < buckets.len() {
                assert(filled[i] == buckets[i]);
            }
        }
        lemma_level_fill(filled, at, level, fx_sub(remaining, CHUNK_MINUTES as int), steps - 1);
    }
}

proof fn lemma_level_site_buckets(samples: Seq<BucketedGlucose>, site_change: int, level: int, n: int)
    requires
        level_buckets(samples, level),
        0 <= n <= samples.len(),
        on_grid(level, ONE as int),
        0 <= 2 * level <= LIMIT,
    ensures
        level_buckets(site_walk_upto(samples, site_change, n).buckets, level),
        site_walk_upto(samples, site_change, n).begun ==> site_walk_upto(
            samples,
            site_change,
            n,
        ).last_bg == level,
    decreases n,
{
    if n > 0 {
        lemma_level_site_buckets(samples, site_change, level, n - 1);
        let before = site_walk_upto(samples, site_change, n - 1);
        let sample = samples[n - 1];
        assert(sample.glucose == level);
        let after = site_step(before, sample, site_change);
        if before.begun {
            let elapsed = minutes_between(before.last_time as int, sample.date as int);
            lemma_level_fill(
                before.buckets,
                before.last_time as int,
                level,
                elapsed,
                MAX_FILL_STEPS as int,
            );
            if before.buckets.len() > 0 {
                assert(before.buckets[before.buckets.len() - 1].glucose == level);
                lemma_div_round_exact(level, 2);
                assert(level * 2 == level + level);
                assert(fx_div_int(fx_add(level, level), 2) == level);
            }
        }
        assert forall|i: int| 0 <= i < after.buckets.len() implies (#[trigger] after.buckets[i]).glucose
            == level by {
        }
    }
}

/// Without treatments no insulin is on board and none acts.
pub proof fn lemma_no_treatments_no_insulin(profile: Profile, time: i64, clock: i64)
    ensures
        activity_at(profile, Seq::<Treatment>::empty(), time, clock) == 0,
        iob_sample(profile, Seq::<Treatment>::empty(), moment(time, clock), true, 0).iob == 0,
{
    reveal(iob_sample);
    let at = moment(time, clock);
    let none = Seq::<Treatment>::empty();
    assert(history_impulses(profile, none, at as int, 0) =~= none);
    assert(zero_temp_impulses(profile, at as int, 0) =~= none);
    assert(all_impulses(profile, none, at as int, 0) =~= none);
    assert(sorted_by_key(none) =~= none);
    assert(impulses_at(profile, none, at) =~= none);
    assert(total_iob_of(profile, none, at) == total_iob_upto(profile, none, at, 0));
    lemma_round_to_fixed(0, 100);
    lemma_round_to_fixed(0, 1000);
}

/// Insulin that does not act explains no change of glucose.
proof fn lemma_no_activity_no_impact(sens: int)
    ensures
        bgi_of(0, sens) == 0,
{
    assert(sat(0) * sat(sens) == 0) by (nonlinear_arith)
        requires
            sat(0) == 0,
    ;
    lemma_div_round_exact(0, 1_000_000);
    assert(fx_mul(fx_sub(0, 0), sens) == 0);
    assert(fx_scale(0, 5) == 0);
    lemma_round_to_fixed(0, 10_000);
}

proof fn lemma_level_deviation(
    profile: Profile,
    buckets: Seq<BucketedGlucose>,
    level: int,
    clock: i64,
    i: int,
)
    requires
        level_buckets(buckets, level),
        1 <= i < buckets.len(),
        -(LIMIT as int) <= level <= LIMIT,
    ensures
        deviation_at(profile, buckets, Seq::<Treatment>::empty(), clock, i) == 0,
{
    let b = buckets[i];
    assert(buckets[i - 1].glucose == level);
    lemma_no_treatments_no_insulin(profile, b.date, clock);
    lemma_no_activity_no_impact(sens_at(profile, moment(b.date, clock) as int));
    lemma_round_to_fixed(0, 10_000);
}

proof fn lemma_collected_quiet(
    deviations: Seq<i64>,
    counts: bool,
    raises: bool,
    even_hour: bool,
    lookback: int,
)
    requires
        quiet(deviations),
        lookback >= 0,
    ensures
        quiet(collected(deviations, counts, 0, None, raises, even_hour, lookback)),
{
    let own = if counts {
        deviations.push(0i64)
    } else {
        deviations
    };
    assert forall|i: int| 0 <= i < own.len() implies own[i] == 0 by {
        if i < deviations.len() {
            assert(own[i] == deviations[i]);
        }
    }
    let marked = if even_hour {
        own.push(0i64)
    } else {
        own
    };
    assert forall|i: int| 0 <= i < marked.len() implies marked[i] == 0 by {
        if i < own.len() {
            assert(marked[i] == own[i]);
        }
    }
    if marked.len() > lookback {
        let kept = marked.subrange(marked.len() - lookback, marked.len() as int);
        assert forall|i: int| 0 <= i < kept.len() implies kept[i] == 0 by {
            assert(kept[i] == marked[marked.len() - lookback + i]);
        }
    }
}

proof fn lemma_quiet_walk(
    profile: Profile,
    buckets: Seq<BucketedGlucose>,
    meals: Seq<Meal>,
    config: AutosensConfig,
    level: int,
    clock: i64,
    n: int,
)
    requires
        level_buckets(buckets, level),
        n <= buckets.len(),
        -(LIMIT as int) <= level <= LIMIT,
    ensures
        quiet(
            deviation_upto(
                profile,
                buckets,
                Seq::<Treatment>::empty(),
                meals,
                Seq::<TempTarget>::empty(),
                config,
                clock,
                n,
            ).deviations,
        ),
    decreases n,
{
    if n > 3 {
        let none = Seq::<Treatment>::empty();
        let targets = Seq::<TempTarget>::empty();
        lemma_quiet_walk(profile, buckets, meals, config, level, clock, n - 1);
        let before = deviation_upto(profile, buckets, none, meals, targets, config, clock, n - 1);
        lemma_level_deviation(profile, buckets, level, clock, n - 1);
        let at = moment(buckets[n - 1].date, clock);
        assert(ruling_upto(targets, at as int, 0) == -1);
        assert(active_target(targets, at as int) is None);
        let after = deviation_step(
            before,
            profile,
            buckets,
            none,
            meals,
            targets,
            config,
            clock,
            n - 1,
        );
        let raises = profile.exercise_mode || profile.high_temptarget_raises_sensitivity;
        let even_hour = even_hour_start(at as int);
        lemma_collected_quiet(before.deviations, true, raises, even_hour, config.lookback as int);
        lemma_collected_quiet(before.deviations, false, raises, even_hour, config.lookback as int);
        assert(quiet(after.deviations));
    }
}

/// Buckets that all hold the same glucose, with no treatments and no
/// temporary targets, give deviations that are all zero.
pub proof fn lemma_flat_buckets_are_quiet(
    profile: Profile,
    buckets: Seq<BucketedGlucose>,
    level: int,
    clock: i64,
    config: AutosensConfig,
)
    requires
        level_buckets(buckets, level),
        -(LIMIT as int) <= level <= LIMIT,
    ensures
        quiet(
            deviations_of(
                profile,
                buckets,
                Seq::<Treatment>::empty(),
                Seq::<TempTarget>::empty(),
                config,
                clock,
            ),
        ),
{
    let none = Seq::<Treatment>::empty();
    let targets = Seq::<TempTarget>::empty();
    let meals = meals_of(none, buckets);
    lemma_quiet_walk(profile, buckets, meals, config, level, clock, buckets.len() as int);
    let walked = deviation_upto(
        profile,
        buckets,
        none,
        meals,
        targets,
        config,
        clock,
        buckets.len() as int,
    ).deviations;
    let deviations = deviations_of(profile, buckets, none, targets, config, clock);
    assert(deviations == padded(walked));
    assert(quiet(padded(walked)));
}

/// Readings that all show the same glucose, whatever it is, and that lie
/// five minutes apart in the order of time, with no treatments and no
/// temporary targets, give the ratio one, where the limits include it.
pub proof fn lemma_flat_series_is_neutral(
    profile: Profile,
    readings: Seq<GlucoseReading>,
    level: int,
    clock: i64,
    config: AutosensConfig,
)
    requires
        flat(readings, level),
        regular_samples(
            chronological(readings),
            site_change_of(profile, readings, Seq::<Treatment>::empty(), clock, config) as int,
        ),
        level <= LIMIT,
        config.autosens_min <= ONE <= config.autosens_max,
    ensures
        sensitivity_of(
            profile,
            readings,
            Seq::<Treatment>::empty(),
            Seq::<TempTarget>::empty(),
            clock,
            config,
        ).ratio == ONE,
{
    let none = Seq::<Treatment>::empty();
    let targets = Seq::<TempTarget>::empty();
    let site_change = site_change_of(profile, readings, none, clock, config);
    let n = readings.len() as int;
    if n > 0 {
        let samples = samples_upto(readings, n);
        lemma_level_samples(readings, level, n);
        lemma_level_sorted(samples, level);
        let sorted = chronological(readings);
        assert(sorted[0].glucose >= MIN_VALID_GLUCOSE);
        lemma_regular_samples_are_kept(sorted, site_change as int, n);
        assert(sorted.subrange(0, n) =~= sorted);
        let buckets = site_buckets(readings, site_change);
        lemma_flat_buckets_are_quiet(profile, buckets, level, clock, config);
        let deviations = deviations_of(profile, buckets, none, targets, config, clock);
        lemma_quiet_deviations_are_neutral(deviations, profile, config);
    }
}

/// Readings that all show the same glucose in whole mg/dL, however they
/// are spaced, with no treatments and no temporary targets, give the ratio
/// one, where the limits include it. Between readings that lie far apart
/// glucose is filled in and rounded to whole mg/dL, which
/// keeps a whole level as it is.
pub proof fn lemma_flat_glucose_is_neutral(
    profile: Profile,
    readings: Seq<GlucoseReading>,
    level: int,
    clock: i64,
    config: AutosensConfig,
)
    requires
        flat(readings, level),
        on_grid(level, ONE as int),
        0 <= 2 * level <= LIMIT,
        config.autosens_min <= ONE <= config.autosens_max,
    ensures
        sensitivity_of(
            profile,
            readings,
            Seq::<Treatment>::empty(),
            Seq::<TempTarget>::empty(),
            clock,
            config,
        ).ratio == ONE,
{
    let none = Seq::<Treatment>::empty();
    let targets = Seq::<TempTarget>::empty();
    let site_change = site_change_of(profile, readings, none, clock, config);
    let samples = samples_upto(readings, readings.len() as int);
    lemma_level_samples(readings, level, readings.len() as int);
    lemma_level_sorted(samples, level);
    lemma_level_site_buckets(chronological(readings), site_change, level, readings.len() as int);
    let buckets = site_buckets(readings, site_change);
    lemma_flat_buckets_are_quiet(profile, buckets, level, clock, config);
    let deviations = deviations_of(profile, buckets, none, targets, config, clock);
    lemma_quiet_deviations_are_neutral(deviations, profile, config);
}

} // verus!
