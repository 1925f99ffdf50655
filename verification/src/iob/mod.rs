//! Insulin on board from the treatment history.

pub mod history;
pub mod total;

pub use history::find_insulin_treatments;
pub use total::calculate_total_iob;

use crate::error::OrefError;
use crate::fixed::max_of;
use crate::time::is_instant;
use crate::time::parse_rfc3339;
use crate::types::treatment::parsed_instant;
use crate::types::IOBData;
use crate::types::Profile;
use crate::types::TempBasalState;
use crate::types::Treatment;
use crate::order::sorted_by_key;
use history::all_impulses;
use history::history_impulses;
use history::zero_temp_impulses;
use history::sorted_by_date;
use history::CHUNK_MILLIS;
use total::below_limit;
use total::lemma_iob_is_sum_of_shares;
use total::total_iob_of;
use total::total_iob_upto;
use vstd::prelude::*;

verus! {

/// Number of samples of the full series: four hours in steps of five minutes.
pub const IOB_SAMPLES: usize = 48;

/// Minutes of the suspension that the zero-temp series assumes.
pub const ZERO_TEMP_MINUTES: i32 = 240;

/// The latest start among the boluses of the first `n` impulses, as their
/// start texts give it; 0 where none gives one.
pub open spec fn last_bolus_upto(treatments: Seq<Treatment>, n: int) -> int
    decreases n,
{
    if n <= 0 {
        0
    } else {
        let before = last_bolus_upto(treatments, n - 1);
        let t = treatments[n - 1];
        if t.insulin_of() > 0 && parsed_instant(t.started_at) is Some {
            max_of(before, parsed_instant(t.started_at).unwrap() as int)
        } else {
            before
        }
    }
}

/// The temporary basal rate among the first `n` events that began last:
/// the first of them in the history's order where several began together.
pub open spec fn last_temp_upto(history: Seq<Treatment>, n: int) -> TempBasalState
    decreases n,
{
    if n <= 0 {
        TempBasalState { date: 0, duration: 0, rate: None }
    } else {
        let before = last_temp_upto(history, n - 1);
        let t = history[n - 1];
        if t.temp_basal_event() && t.effective_date_of() > before.date {
            TempBasalState {
                date: t.effective_date_of(),
                duration: t.duration.unwrap(),
                rate: t.rate,
            }
        } else {
            before
        }
    }
}

/// The impulses that act at `clock`, in the order of their dates.
pub open spec fn impulses_at(profile: Profile, history: Seq<Treatment>, clock: i64) -> Seq<
    Treatment,
> {
    sorted_by_date(all_impulses(profile, history, clock as int, 0))
}

/// The impulses that act at `clock` together with four hours of suspension.
pub open spec fn impulses_with_zero_temp(
    profile: Profile,
    history: Seq<Treatment>,
    clock: i64,
) -> Seq<Treatment> {
    sorted_by_date(all_impulses(profile, history, clock as int, ZERO_TEMP_MINUTES as int))
}

/// Insulin on board at `time` from the impulses, rounded; the full series
/// carries with it the insulin on board under a suspension.
pub open spec fn plain_sample(
    profile: Profile,
    impulses: Seq<Treatment>,
    suspended: Seq<Treatment>,
    current_iob_only: bool,
    time: i64,
) -> IOBData {
    (IOBData {
        iob_with_zero_temp: if !current_iob_only && suspended.len() > 0 {
            Some(Box::new(total_iob_of(profile, suspended, time)))
        } else {
            None
        },
        ..total_iob_of(profile, impulses, time)
    }).rounded_of()
}

/// A sample with the time of the last bolus and the last temporary basal
/// rate, where there are any.
pub open spec fn with_last(sample: IOBData, last_bolus: int, last_temp: TempBasalState) -> IOBData {
    IOBData {
        last_bolus_time: if last_bolus > 0 {
            Some(last_bolus as i64)
        } else {
            None
        },
        last_temp: if last_temp.date > 0 {
            Some(last_temp)
        } else {
            None
        },
        ..sample
    }
}

/// Sample `i` of the series that starts at `clock`: insulin on board five
/// minutes times `i` later. The first sample carries the time of the last
/// bolus and the last temporary basal rate.
#[verifier::opaque]
pub open spec fn iob_sample(
    profile: Profile,
    history: Seq<Treatment>,
    clock: i64,
    current_iob_only: bool,
    i: int,
) -> IOBData {
    let impulses = impulses_at(profile, history, clock);
    let sample = plain_sample(
        profile,
        impulses,
        impulses_with_zero_temp(profile, history, clock),
        current_iob_only,
        (clock + i * CHUNK_MILLIS) as i64,
    );
    if i == 0 {
        with_last(
            sample,
            last_bolus_upto(impulses, impulses.len() as int),
            last_temp_upto(history, history.len() as int),
        )
    } else {
        sample
    }
}

/// Without a history nothing is on board and nothing acts, at any sample.
pub proof fn lemma_no_history_no_insulin(
    profile: Profile,
    clock: i64,
    current_iob_only: bool,
    i: int,
)
    ensures
        iob_sample(profile, Seq::<Treatment>::empty(), clock, current_iob_only, i).iob == 0,
        iob_sample(profile, Seq::<Treatment>::empty(), clock, current_iob_only, i).activity == 0,
        iob_sample(profile, Seq::<Treatment>::empty(), clock, current_iob_only, i).basal_iob == 0,
        iob_sample(profile, Seq::<Treatment>::empty(), clock, current_iob_only, i).bolus_iob == 0,
{
    reveal(iob_sample);
    let none = Seq::<Treatment>::empty();
    let time = (clock + i * CHUNK_MILLIS) as i64;
    assert(history_impulses(profile, none, clock as int, 0) =~= none);
    assert(zero_temp_impulses(profile, clock as int, 0) =~= none);
    assert(all_impulses(profile, none, clock as int, 0) =~= none);
    assert(sorted_by_key(none) =~= none);
    assert(impulses_at(profile, none, clock) =~= none);
    assert(total_iob_of(profile, none, time) == total_iob_upto(profile, none, time, 0));
    crate::fixed::lemma_round_to_fixed(0, 100);
    crate::fixed::lemma_round_to_fixed(0, 1000);
}

/// After rounding, insulin on board differs from the sum of its two shares
/// by a thousandth of a unit at most, as long as no sum saturates.
pub proof fn lemma_rounded_shares(
    profile: Profile,
    history: Seq<Treatment>,
    clock: i64,
    current_iob_only: bool,
    i: int,
)
    requires
        below_limit(
            profile,
            impulses_at(profile, history, clock),
            (clock + i * CHUNK_MILLIS) as i64,
            impulses_at(profile, history, clock).len() as int,
        ),
    ensures
        ({
            let sample = iob_sample(profile, history, clock, current_iob_only, i);
            -1000 <= sample.iob - (sample.basal_iob + sample.bolus_iob) <= 1000
        }),
{
    reveal(iob_sample);
    let impulses = impulses_at(profile, history, clock);
    let time = (clock + i * CHUNK_MILLIS) as i64;
    let n = impulses.len() as int;
    lemma_iob_is_sum_of_shares(profile, impulses, time, n);
    let sums = total_iob_upto(profile, impulses, time, n);
    assert(sums == total_iob_of(profile, impulses, time));
    crate::fixed::lemma_rounded_sum(sums.basal_iob as int, sums.bolus_iob as int);
}

/// Number of samples of a series.
pub open spec fn sample_count(current_iob_only: bool) -> int {
    if current_iob_only {
        1
    } else {
        IOB_SAMPLES as int
    }
}

/// The latest start among the boluses of the impulses.
fn last_bolus_time(treatments: &Vec<Treatment>) -> (r: i64)
    ensures
        r == last_bolus_upto(treatments@, treatments.len() as int),
{
    let mut last: i64 = 0;
    let mut i: usize = 0;
    while i < treatments.len()
        invariant
            i <= treatments.len(),
            last == last_bolus_upto(treatments@, i as int),
        decreases treatments.len() - i,
    {
        let t = &treatments[i];
        if t.is_bolus() {
            if let Some(text) = &t.started_at {
                if let Some(ms) = parse_rfc3339(text.as_str()) {
                    if ms > last {
                        last = ms;
                    }
                }
            }
        }
        i += 1;
    }
    last
}

/// The temporary basal rate of the history that began last.
fn last_temp_basal(history: &Vec<Treatment>) -> (r: TempBasalState)
    ensures
        r == last_temp_upto(history@, history.len() as int),
{
    let mut last = TempBasalState { date: 0, duration: 0, rate: None };
    let mut i: usize = 0;
    while i < history.len()
        invariant
            i <= history.len(),
            last == last_temp_upto(history@, i as int),
        decreases history.len() - i,
    {
        let t = &history[i];
        if let Some(duration) = t.duration {
            if t.rate.is_some() {
                let date: i64 = t.effective_date();
                if date > last.date {
                    last = TempBasalState { date, duration, rate: t.rate };
                }
            }
        }
        i += 1;
    }
    last
}

/// Insulin on board at `time` from the impulses.
fn make_sample(
    profile: &Profile,
    treatments: &Vec<Treatment>,
    suspended: &Vec<Treatment>,
    current_iob_only: bool,
    time: i64,
) -> (r: IOBData)
    ensures
        r == plain_sample(*profile, treatments@, suspended@, current_iob_only, time),
{
    let mut sample: IOBData = match calculate_total_iob(profile, treatments, time) {
        Ok(d) => d,
        Err(_) => IOBData::zero(time),
    };
    if !current_iob_only && suspended.len() > 0 {
        match calculate_total_iob(profile, suspended, time) {
            Ok(d) => {
                sample.iob_with_zero_temp = Some(Box::new(d));
            },
            Err(_) => {},
        }
    }
    sample.rounded()
}

/// Sample `i` of the series that starts at `clock`.
fn sample_at(
    profile: &Profile,
    history: &Vec<Treatment>,
    treatments: &Vec<Treatment>,
    suspended: &Vec<Treatment>,
    clock: i64,
    current_iob_only: bool,
    i: usize,
) -> (r: IOBData)
    requires
        is_instant(clock as int),
        i < IOB_SAMPLES,
        treatments@ == impulses_at(*profile, history@, clock),
        !current_iob_only ==> suspended@ == impulses_with_zero_temp(*profile, history@, clock),
    ensures
        r == iob_sample(*profile, history@, clock, current_iob_only, i as int),
{
    proof {
        reveal(iob_sample);
    }
    let time: i64 = clock + (i as i64) * CHUNK_MILLIS;
    let mut sample: IOBData = make_sample(profile, treatments, suspended, current_iob_only, time);
    if i == 0 {
        let last_bolus: i64 = last_bolus_time(treatments);
        let last_temp: TempBasalState = last_temp_basal(history);
        sample.last_bolus_time = if last_bolus > 0 {
            Some(last_bolus)
        } else {
            None
        };
        sample.last_temp = if last_temp.date > 0 {
            Some(last_temp)
        } else {
            None
        };
    }
    sample
}

/// Insulin on board from `clock` on: one sample, or the series of four
/// hours in steps of five minutes. A `clock` that is no calendar instant is
/// refused.
pub fn calculate(profile: &Profile, history: &Vec<Treatment>, clock: i64, current_iob_only: bool) -> (r:
    Result<Vec<IOBData>, OrefError>)
    ensures
        r is Err <==> !is_instant(clock as int),
        r matches Err(e) ==> e == OrefError::InvalidTimestamp,
        r matches Ok(samples) ==> {
            &&& samples@.len() == sample_count(current_iob_only)
            &&& forall|i: int|
                0 <= i < samples@.len() ==> #[trigger] samples@[i] == iob_sample(
                    *profile,
                    history@,
                    clock,
                    current_iob_only,
                    i,
                )
            &&& history@.len() == 0 ==> forall|i: int|
                0 <= i < samples@.len() ==> (#[trigger] samples@[i]).iob == 0
                    && samples@[i].activity == 0
        },
{
    proof {
        if history@.len() == 0 {
            assert(history@ =~= Seq::<Treatment>::empty());
            assert forall|i: int| 0 <= i < sample_count(current_iob_only) implies (
            #[trigger] iob_sample(*profile, history@, clock, current_iob_only, i)).iob == 0
                && iob_sample(*profile, history@, clock, current_iob_only, i).activity == 0 by {
                lemma_no_history_no_insulin(*profile, clock, current_iob_only, i);
            }
        }
    }
    let treatments: Vec<Treatment> = match find_insulin_treatments(profile, history, clock, 0) {
        Ok(v) => v,
        Err(e) => {
            return Err(e);
        },
    };
    let suspended: Vec<Treatment> = if current_iob_only {
        Vec::new()
    } else {
        match find_insulin_treatments(profile, history, clock, ZERO_TEMP_MINUTES) {
            Ok(v) => v,
            Err(e) => {
                return Err(e);
            },
        }
    };
    let stop: usize = if current_iob_only {
        1
    } else {
        IOB_SAMPLES
    };
    let mut samples: Vec<IOBData> = Vec::new();
    let mut i: usize = 0;
    while i < stop
        invariant
            i <= stop <= IOB_SAMPLES,
            stop == sample_count(current_iob_only),
            is_instant(clock as int),
            treatments@ == impulses_at(*profile, history@, clock),
            !current_iob_only ==> suspended@ == impulses_with_zero_temp(*profile, history@, clock),
            samples@.len() == i,
            forall|j: int|
                0 <= j < i ==> #[trigger] samples@[j] == iob_sample(
                    *profile,
                    history@,
                    clock,
                    current_iob_only,
                    j,
                ),
        decreases stop - i,
    {
        let sample: IOBData = sample_at(
            profile,
            history,
            &treatments,
            &suspended,
            clock,
            current_iob_only,
            i,
        );
        samples.push(sample);
        i += 1;
    }
    Ok(samples)
}

/// Insulin on board at `clock` alone.
pub fn calculate_current(profile: &Profile, history: &Vec<Treatment>, clock: i64) -> (r: Result<
    IOBData,
    OrefError,
>)
    ensures
        r is Err <==> !is_instant(clock as int),
        r matches Err(e) ==> e == OrefError::InvalidTimestamp,
        r matches Ok(sample) ==> sample == iob_sample(*profile, history@, clock, true, 0),
        r matches Ok(sample) ==> history@.len() == 0 ==> sample.iob == 0 && sample.activity == 0,
{
    let mut samples: Vec<IOBData> = match calculate(profile, history, clock, true) {
        Ok(v) => v,
        Err(e) => {
            return Err(e);
        },
    };
    match samples.pop() {
        Some(sample) => Ok(sample),
        None => Ok(IOBData::zero(clock)),
    }
}

} // verus!
