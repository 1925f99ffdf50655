//! Insulin on board at one moment, summed over the doses.

use crate::error::OrefError;
use crate::fixed::abs_of;
use crate::fixed::add_fx;
use crate::fixed::fx_add;
use crate::fixed::sub_fx;
use crate::insulin::calculate::action_end;
use crate::insulin::calculate::iob_contrib_of;
use crate::insulin::calculate::lemma_nothing_after_action;
use crate::insulin::calculate::lemma_whole_dose_at_start;
use crate::insulin::calculate::BILINEAR_DIA;
use crate::insulin::InsulinCurve;
use crate::fixed::max_of;
use crate::fixed::sat;
use crate::fixed::LIMIT;
use crate::insulin::calculate_iob_contrib;
use crate::time::minutes_between;
use crate::time::minutes_from;
use crate::types::profile::effective_dia_of;
use crate::types::profile::effective_peak_of;
use crate::types::IOBContrib;
use crate::types::IOBData;
use crate::types::Profile;
use crate::types::Treatment;
use vstd::prelude::*;

verus! {

/// Doses below this magnitude are left out: 0.0001 units.
pub const NEGLIGIBLE_INSULIN: i64 = 100;

/// Doses below this magnitude count as basal adjustments: 0.1 units.
pub const BASAL_DOSE_LIMIT: i64 = 100_000;

/// The milliseconds that `dia` hours last, cut to whole milliseconds.
pub open spec fn dia_millis(dia: int) -> int {
    dia * 18 / 5
}

/// Whether a dose at `date` acts at `now`: it is not yet to come and not
/// older than the duration of insulin action.
pub open spec fn in_dia_window(date: int, now: int, dia: int) -> bool {
    now - dia_millis(dia) <= date <= now
}

/// The size of a dose, whatever its sign.
pub open spec fn dose_size(insulin: int) -> int {
    sat(abs_of(insulin))
}

/// Whether a treatment contributes at `now`.
pub open spec fn contributes(t: Treatment, now: int, dia: int) -> bool {
    &&& in_dia_window(t.effective_date_of() as int, now, dia)
    &&& t.insulin is Some
    &&& dose_size(t.insulin_of()) >= NEGLIGIBLE_INSULIN
}

/// The sums so far with the contribution of one more treatment. A dose of
/// negative insulin, as a suspended basal gives, counts with the opposite
/// sign.
pub open spec fn with_dose(sums: IOBData, t: Treatment, profile: Profile, now: int) -> IOBData {
    let dia = effective_dia_of(profile.curve, profile.dia as int);
    let peak = effective_peak_of(profile.curve, profile.peak as int);
    let insulin = t.insulin_of();
    let part = iob_contrib_of(
        dose_size(insulin),
        minutes_between(t.effective_date_of() as int, now),
        profile.curve,
        dia,
        peak,
    );
    let iob = if insulin < 0 {
        -part.iob_contrib
    } else {
        part.iob_contrib as int
    };
    let activity = if insulin < 0 {
        -part.activity_contrib
    } else {
        part.activity_contrib as int
    };
    if !contributes(t, now, dia) {
        sums
    } else if dose_size(insulin) < BASAL_DOSE_LIMIT {
        IOBData {
            iob: fx_add(sums.iob as int, iob) as i64,
            activity: fx_add(sums.activity as int, activity) as i64,
            basal_iob: fx_add(sums.basal_iob as int, iob) as i64,
            net_basal_insulin: fx_add(sums.net_basal_insulin as int, insulin) as i64,
            ..sums
        }
    } else {
        IOBData {
            iob: fx_add(sums.iob as int, iob) as i64,
            activity: fx_add(sums.activity as int, activity) as i64,
            bolus_iob: fx_add(sums.bolus_iob as int, iob) as i64,
            bolus_insulin: fx_add(sums.bolus_insulin as int, insulin) as i64,
            ..sums
        }
    }
}

/// No insulin at `now`.
pub open spec fn no_iob(now: i64) -> IOBData {
    IOBData {
        iob: 0,
        activity: 0,
        basal_iob: 0,
        bolus_iob: 0,
        net_basal_insulin: 0,
        bolus_insulin: 0,
        time: now,
        iob_with_zero_temp: None,
        last_bolus_time: None,
        last_temp: None,
    }
}

/// The sums over the first `n` treatments.
pub open spec fn total_iob_upto(
    profile: Profile,
    treatments: Seq<Treatment>,
    now: i64,
    n: int,
) -> IOBData
    decreases n,
{
    if n <= 0 {
        no_iob(now)
    } else {
        with_dose(total_iob_upto(profile, treatments, now, n - 1), treatments[n - 1], profile, now as int)
    }
}

/// Insulin on board and activity at `now`, summed over all treatments.
pub open spec fn total_iob_of(profile: Profile, treatments: Seq<Treatment>, now: i64) -> IOBData {
    total_iob_upto(profile, treatments, now, treatments.len() as int)
}

/// A single bolus is wholly on board at the moment it is given.
pub proof fn lemma_single_bolus_at_start(profile: Profile, bolus: Treatment, now: i64)
    requires
        bolus.insulin is Some,
        NEGLIGIBLE_INSULIN <= bolus.insulin_of() <= LIMIT,
        bolus.effective_date_of() == now,
    ensures
        total_iob_of(profile, seq![bolus], now).iob == bolus.insulin_of(),
{
    let dia = effective_dia_of(profile.curve, profile.dia as int);
    let peak = effective_peak_of(profile.curve, profile.peak as int);
    lemma_whole_dose_at_start(bolus.insulin_of(), profile.curve, dia, peak);
    crate::fixed::lemma_div_round_exact(0, 3);
    assert(minutes_between(now as int, now as int) == 0);
    assert(total_iob_upto(profile, seq![bolus], now, 0) == no_iob(now));
    assert(seq![bolus][0] == bolus);
    assert(total_iob_upto(profile, seq![bolus], now, 1) == with_dose(
        no_iob(now),
        bolus,
        profile,
        now as int,
    ));
}

/// Nothing of a single bolus is on board from the end of its action on.
pub proof fn lemma_single_bolus_after_action(profile: Profile, bolus: Treatment, now: i64)
    requires
        minutes_between(bolus.effective_date_of() as int, now as int) >= action_end(
            profile.curve,
            effective_dia_of(profile.curve, profile.dia as int),
        ),
        profile.curve == InsulinCurve::Bilinear ==> max_of(profile.dia as int, BILINEAR_DIA as int)
            * 60 <= LIMIT,
    ensures
        total_iob_of(profile, seq![bolus], now).iob == 0,
        total_iob_of(profile, seq![bolus], now).activity == 0,
{
    let dia = effective_dia_of(profile.curve, profile.dia as int);
    let peak = effective_peak_of(profile.curve, profile.peak as int);
    lemma_nothing_after_action(
        dose_size(bolus.insulin_of()),
        minutes_between(bolus.effective_date_of() as int, now as int),
        profile.curve,
        dia,
        peak,
    );
    assert(total_iob_upto(profile, seq![bolus], now, 0) == no_iob(now));
    assert(seq![bolus][0] == bolus);
    assert(total_iob_upto(profile, seq![bolus], now, 1) == with_dose(
        no_iob(now),
        bolus,
        profile,
        now as int,
    ));
}

/// Whether none of the first `n` treatments contributes at `now`.
pub open spec fn none_contributes(
    profile: Profile,
    treatments: Seq<Treatment>,
    now: i64,
    n: int,
) -> bool {
    forall|i: int|
        0 <= i < n ==> !contributes(
            #[trigger] treatments[i],
            now as int,
            effective_dia_of(profile.curve, profile.dia as int),
        )
}

/// Where no treatment contributes, nothing is on board and nothing acts.
pub proof fn lemma_nothing_contributes(
    profile: Profile,
    treatments: Seq<Treatment>,
    now: i64,
    n: int,
)
    requires
        0 <= n <= treatments.len(),
        none_contributes(profile, treatments, now, n),
    ensures
        total_iob_upto(profile, treatments, now, n) == no_iob(now),
    decreases n,
{
    if n > 0 {
        lemma_nothing_contributes(profile, treatments, now, n - 1);
        assert(!contributes(
            treatments[n - 1],
            now as int,
            effective_dia_of(profile.curve, profile.dia as int),
        ));
    }
}

/// Whether none of the sums over the first `n` treatments has reached the
/// limit at which sums saturate.
pub open spec fn below_limit(profile: Profile, treatments: Seq<Treatment>, now: i64, n: int) -> bool {
    forall|k: int|
        0 <= k <= n ==> {
            let sums = #[trigger] total_iob_upto(profile, treatments, now, k);
            &&& -LIMIT < sums.iob < LIMIT
            &&& -LIMIT < sums.basal_iob < LIMIT
            &&& -LIMIT < sums.bolus_iob < LIMIT
        }
}

/// Insulin on board is the sum of its two shares, that of the basal
/// adjustments and that of the boluses, as long as no sum saturates.
pub proof fn lemma_iob_is_sum_of_shares(profile: Profile, treatments: Seq<Treatment>, now: i64, n: int)
    requires
        0 <= n,
        below_limit(profile, treatments, now, n),
    ensures
        total_iob_upto(profile, treatments, now, n).iob == total_iob_upto(
            profile,
            treatments,
            now,
            n,
        ).basal_iob + total_iob_upto(profile, treatments, now, n).bolus_iob,
    decreases n,
{
    if n > 0 {
        assert(below_limit(profile, treatments, now, n - 1)) by {
            assert forall|k: int| 0 <= k <= n - 1 implies {
                let sums = #[trigger] total_iob_upto(profile, treatments, now, k);
                &&& -LIMIT < sums.iob < LIMIT
                &&& -LIMIT < sums.basal_iob < LIMIT
                &&& -LIMIT < sums.bolus_iob < LIMIT
            } by {
                assert(0 <= k <= n);
            }
        }
        lemma_iob_is_sum_of_shares(profile, treatments, now, n - 1);
        let before = total_iob_upto(profile, treatments, now, n - 1);
        let after = total_iob_upto(profile, treatments, now, n);
        assert(-LIMIT < after.iob < LIMIT && -LIMIT < after.basal_iob < LIMIT && -LIMIT
            < after.bolus_iob < LIMIT);
        assert(after == with_dose(before, treatments[n - 1], profile, now as int));
    }
}

/// Whether a date lies in the window of insulin action that ends at `now`.
pub fn within_dia(date: i64, now: i64, dia: i64) -> (r: bool)
    ensures
        r == in_dia_window(date as int, now as int, dia as int),
{
    let span: i128 = (dia as i128) * 18 / 5;
    let start: i128 = now as i128 - span;
    start <= date as i128 && date <= now
}

/// Insulin on board and activity at `time`, summed over `treatments`.
#[verifier::rlimit(30)]
pub fn calculate_total_iob(profile: &Profile, treatments: &Vec<Treatment>, time: i64) -> (r: Result<
    IOBData,
    OrefError,
>)
    ensures
        r matches Ok(total) && total == total_iob_of(*profile, treatments@, time),
        r matches Ok(total) && total.time == time && total.iob_with_zero_temp is None
            && total.last_bolus_time is None && total.last_temp is None,
        none_contributes(*profile, treatments@, time, treatments@.len() as int) ==> r == Ok::<
            IOBData,
            OrefError,
        >(no_iob(time)),
{
    proof {
        if none_contributes(*profile, treatments@, time, treatments@.len() as int) {
            lemma_nothing_contributes(*profile, treatments@, time, treatments@.len() as int);
        }
    }
    let dia: i64 = profile.effective_dia();
    let peak: u32 = profile.effective_peak_time();
    let mut total_iob: i64 = 0;
    let mut total_activity: i64 = 0;
    let mut basal_iob: i64 = 0;
    let mut bolus_iob: i64 = 0;
    let mut net_basal_insulin: i64 = 0;
    let mut bolus_insulin: i64 = 0;
    let mut i: usize = 0;
    while i < treatments.len()
        invariant
            i <= treatments.len(),
            dia == effective_dia_of(profile.curve, profile.dia as int),
            peak == effective_peak_of(profile.curve, profile.peak as int),
            total_iob_upto(*profile, treatments@, time, i as int) == (IOBData {
                iob: total_iob,
                activity: total_activity,
                basal_iob,
                bolus_iob,
                net_basal_insulin,
                bolus_insulin,
                ..no_iob(time)
            }),
        decreases treatments.len() - i,
    {
        let treatment = &treatments[i];
        let date: i64 = treatment.effective_date();
        i += 1;
        if !within_dia(date, time, dia) {
            continue;
        }
        let insulin: i64 = match treatment.insulin {
            Some(u) => u,
            None => {
                continue;
            },
        };
        let magnitude: i64 = if insulin < 0 {
            sub_fx(0, insulin)
        } else {
            add_fx(insulin, 0)
        };
        if magnitude < NEGLIGIBLE_INSULIN {
            continue;
        }
        let mins_ago: i64 = minutes_from(date, time);
        let part: IOBContrib = calculate_iob_contrib(magnitude, mins_ago, profile.curve, dia, peak);
        let iob_contrib: i64 = if insulin < 0 {
            -part.iob_contrib
        } else {
            part.iob_contrib
        };
        let activity_contrib: i64 = if insulin < 0 {
            -part.activity_contrib
        } else {
            part.activity_contrib
        };
        total_iob = add_fx(total_iob, iob_contrib);
        total_activity = add_fx(total_activity, activity_contrib);
        if magnitude < BASAL_DOSE_LIMIT {
            basal_iob = add_fx(basal_iob, iob_contrib);
            net_basal_insulin = add_fx(net_basal_insulin, insulin);
        } else {
            bolus_iob = add_fx(bolus_iob, iob_contrib);
            bolus_insulin = add_fx(bolus_insulin, insulin);
        }
    }
    Ok(
        IOBData {
            iob: total_iob,
            activity: total_activity,
            basal_iob,
            bolus_iob,
            net_basal_insulin,
            bolus_insulin,
            time,
            iob_with_zero_temp: None,
            last_bolus_time: None,
            last_temp: None,
        },
    )
}

} // verus!
