//! From pump history to impulses of insulin.
//!
//! A bolus is one impulse. A temporary basal rate is cut into chunks of five
//! minutes, each an impulse of what it delivered beyond the scheduled basal.

use super::total::in_dia_window;
use super::total::within_dia;
use super::total::NEGLIGIBLE_INSULIN;
use crate::error::OrefError;
use crate::fixed::abs_of;
use crate::fixed::div_int_fx;
use crate::fixed::fx_div_int;
use crate::fixed::fx_mul_div;
use crate::fixed::fx_sub;
use crate::fixed::min_of;
use crate::fixed::mul_div_fx;
use crate::fixed::sub_fx;
use crate::order::insert_by_key;
use crate::order::lemma_sorted_by_key;
use crate::order::ordered;
use crate::order::sorted_by_key;
use crate::order::Keyed;
use crate::profile::basal::basal_at;
use crate::profile::basal_lookup;
use crate::text::clone_text;
use crate::time::is_instant;
use crate::time::valid_instant;
use crate::types::profile::effective_dia_of;
use crate::types::Profile;
use crate::types::Treatment;
use vstd::prelude::*;

verus! {

/// Length of one chunk of a temporary basal rate, minutes.
pub const CHUNK_MINUTES: i64 = 5_000_000;

/// Length of one chunk of a temporary basal rate, milliseconds.
pub const CHUNK_MILLIS: i64 = 300_000;

/// One hour, minutes.
pub const HOUR_MINUTES: i64 = 60_000_000;

/// A treatment that carries nothing.
pub open spec fn blank_treatment() -> Treatment {
    Treatment {
        timestamp: None,
        date: 0,
        started_at: None,
        created_at: None,
        insulin: None,
        carbs: None,
        ns_carbs: None,
        bw_carbs: None,
        journal_carbs: None,
        rate: None,
        duration: None,
        event_type: None,
    }
}

/// An impulse of `insulin` units at `date`.
pub open spec fn impulse(insulin: int, date: int) -> Treatment {
    Treatment { insulin: Some(insulin as i64), date: date as i64, ..blank_treatment() }
}

/// The impulse of a bolus: its insulin at its time, with the texts of its
/// time carried along.
pub open spec fn bolus_impulse(event: Treatment) -> Treatment {
    Treatment {
        insulin: event.insulin,
        date: event.effective_date_of(),
        timestamp: event.timestamp,
        started_at: if event.started_at is Some {
            event.started_at
        } else {
            event.timestamp
        },
        ..blank_treatment()
    }
}

/// Number of chunks of a temporary basal rate of `duration` minutes.
pub open spec fn chunk_count(duration: int) -> int {
    (duration + CHUNK_MINUTES - 1) / (CHUNK_MINUTES as int)
}

/// Start of chunk `k` of a temporary basal rate that began at `date`.
pub open spec fn chunk_start(date: int, k: int) -> int {
    date + k * CHUNK_MILLIS
}

/// Insulin of chunk `k` of a temporary basal rate: what `rate` delivers
/// beyond the basal scheduled at the chunk's start, over the chunk's minutes.
pub open spec fn chunk_insulin(profile: Profile, rate: int, duration: int, date: int, k: int) -> int {
    fx_mul_div(
        fx_sub(rate, basal_at(profile, chunk_start(date, k))),
        min_of(CHUNK_MINUTES as int, duration - k * CHUNK_MINUTES),
        HOUR_MINUTES as int,
    )
}

/// The impulses of the first `n` chunks of a temporary basal rate. A chunk
/// that starts after `now` gives none, nor does one of negligible insulin.
pub open spec fn chunk_impulses(
    profile: Profile,
    rate: int,
    duration: int,
    date: int,
    now: int,
    n: int,
) -> Seq<Treatment>
    decreases n,
{
    if n <= 0 {
        Seq::<Treatment>::empty()
    } else {
        let before = chunk_impulses(profile, rate, duration, date, now, n - 1);
        let insulin = chunk_insulin(profile, rate, duration, date, n - 1);
        if chunk_start(date, n - 1) <= now && abs_of(insulin) > NEGLIGIBLE_INSULIN {
            before.push(impulse(insulin, chunk_start(date, n - 1)))
        } else {
            before
        }
    }
}

/// The impulse of the event's bolus, if it has one.
pub open spec fn bolus_part(event: Treatment) -> Seq<Treatment> {
    if event.insulin_of() > 0 {
        seq![bolus_impulse(event)]
    } else {
        Seq::<Treatment>::empty()
    }
}

/// The impulses of the event's temporary basal rate, if it has one.
pub open spec fn temp_part(profile: Profile, event: Treatment, now: int) -> Seq<Treatment> {
    if event.rate is Some && event.duration is Some && event.duration.unwrap() > 0 {
        chunk_impulses(
            profile,
            event.rate.unwrap() as int,
            event.duration.unwrap() as int,
            event.effective_date_of() as int,
            now,
            chunk_count(event.duration.unwrap() as int),
        )
    } else {
        Seq::<Treatment>::empty()
    }
}

/// The impulses of one event: none where the event is yet to come or older
/// than the duration of insulin action.
pub open spec fn event_impulses(profile: Profile, event: Treatment, now: int) -> Seq<Treatment> {
    if in_dia_window(
        event.effective_date_of() as int,
        now,
        effective_dia_of(profile.curve, profile.dia as int),
    ) {
        bolus_part(event) + temp_part(profile, event, now)
    } else {
        Seq::<Treatment>::empty()
    }
}

/// The impulses of the first `n` events of the history, in its order.
pub open spec fn history_impulses(profile: Profile, history: Seq<Treatment>, now: int, n: int) -> Seq<
    Treatment,
>
    decreases n,
{
    if n <= 0 {
        Seq::<Treatment>::empty()
    } else {
        history_impulses(profile, history, now, n - 1) + event_impulses(profile, history[n - 1], now)
    }
}

/// Insulin of one chunk of a suspension: the scheduled basal of five
/// minutes, not delivered.
pub open spec fn suspended_insulin(profile: Profile) -> int {
    fx_div_int(fx_sub(0, profile.current_basal as int), 12)
}

/// The impulses of `n` chunks of a suspension that starts at `now`.
pub open spec fn zero_temp_impulses(profile: Profile, now: int, n: int) -> Seq<Treatment>
    decreases n,
{
    if n <= 0 {
        Seq::<Treatment>::empty()
    } else {
        zero_temp_impulses(profile, now, n - 1).push(
            impulse(suspended_insulin(profile), chunk_start(now, n - 1)),
        )
    }
}

/// Number of chunks of a suspension of `minutes` minutes.
pub open spec fn zero_temp_chunks(minutes: int) -> int {
    if minutes > 0 {
        minutes / 5
    } else {
        0
    }
}

/// All impulses in the order in which they arise: those of the history,
/// then those of the suspension.
pub open spec fn all_impulses(
    profile: Profile,
    history: Seq<Treatment>,
    now: int,
    zero_temp_duration: int,
) -> Seq<Treatment> {
    history_impulses(profile, history, now, history.len() as int) + zero_temp_impulses(
        profile,
        now,
        zero_temp_chunks(zero_temp_duration),
    )
}

impl Keyed for Treatment {
    /// Treatments are ordered by their dates.
    open spec fn key(self) -> int {
        self.date as int
    }

    fn key_of(&self) -> (k: i64) {
        self.date
    }
}

/// The treatments in the order of their dates; treatments of one date keep
/// their order.
pub open spec fn sorted_by_date(treatments: Seq<Treatment>) -> Seq<Treatment> {
    sorted_by_key(treatments)
}

/// Chunks that start after `now` add nothing.
proof fn lemma_late_chunks(
    profile: Profile,
    rate: int,
    duration: int,
    date: int,
    now: int,
    done: int,
    n: int,
)
    requires
        0 <= done <= n,
        chunk_start(date, done) > now,
    ensures
        chunk_impulses(profile, rate, duration, date, now, n) == chunk_impulses(
            profile,
            rate,
            duration,
            date,
            now,
            done,
        ),
    decreases n - done,
{
    if n > done {
        lemma_late_chunks(profile, rate, duration, date, now, done, n - 1);
    }
}

/// A treatment that carries `insulin` units at `date` and nothing else.
fn make_impulse(insulin: i64, date: i64) -> (r: Treatment)
    ensures
        r == impulse(insulin as int, date as int),
{
    Treatment {
        timestamp: None,
        date,
        started_at: None,
        created_at: None,
        insulin: Some(insulin),
        carbs: None,
        ns_carbs: None,
        bw_carbs: None,
        journal_carbs: None,
        rate: None,
        duration: None,
        event_type: None,
    }
}

/// The impulses of insulin that act at `clock`: one for each bolus and one
/// for each chunk of a temporary basal rate, out of the events that are
/// neither yet to come nor older than the duration of insulin action; and,
/// for `zero_temp_duration > 0`, the chunks of a suspension of that many
/// minutes from `clock` on. They come in the order of their dates.
/// A `clock` that is no calendar instant is refused.
pub fn find_insulin_treatments(
    profile: &Profile,
    history: &Vec<Treatment>,
    clock: i64,
    zero_temp_duration: i32,
) -> (r: Result<Vec<Treatment>, OrefError>)
    ensures
        r is Err <==> !is_instant(clock as int),
        r matches Err(e) ==> e == OrefError::InvalidTimestamp,
        r matches Ok(treatments) ==> treatments@ == sorted_by_date(
            all_impulses(*profile, history@, clock as int, zero_temp_duration as int),
        ),
        r matches Ok(treatments) ==> ordered(treatments@),
{
    proof {
        lemma_sorted_by_key(
            all_impulses(*profile, history@, clock as int, zero_temp_duration as int),
        );
    }
    if !valid_instant(clock) {
        return Err(OrefError::InvalidTimestamp);
    }
    let dia: i64 = profile.effective_dia();
    let mut treatments: Vec<Treatment> = Vec::new();
    let ghost mut arisen: Seq<Treatment> = Seq::<Treatment>::empty();
    let mut i: usize = 0;
    while i < history.len()
        invariant
            i <= history.len(),
            is_instant(clock as int),
            dia == effective_dia_of(profile.curve, profile.dia as int),
            arisen == history_impulses(*profile, history@, clock as int, i as int),
            treatments@ == sorted_by_date(arisen),
        decreases history.len() - i,
    {
        let event = &history[i];
        let date: i64 = event.effective_date();
        let ghost before = arisen;
        i += 1;
        if !within_dia(date, clock, dia) {
            proof {
                assert(before + Seq::<Treatment>::empty() =~= before);
            }
            continue;
        }
        let bolus: bool = match event.insulin {
            Some(u) => u > 0,
            None => false,
        };
        if bolus {
            let started: Option<String> = if event.started_at.is_some() {
                clone_text(&event.started_at)
            } else {
                clone_text(&event.timestamp)
            };
            let dose = Treatment {
                timestamp: clone_text(&event.timestamp),
                date,
                started_at: started,
                created_at: None,
                insulin: event.insulin,
                carbs: None,
                ns_carbs: None,
                bw_carbs: None,
                journal_carbs: None,
                rate: None,
                duration: None,
                event_type: None,
            };
            proof {
                assert(arisen.push(dose).drop_last() =~= arisen);
                arisen = arisen.push(dose);
            }
            insert_by_key(&mut treatments, dose);
        }
        proof {
            assert(arisen =~= before + bolus_part(*event));
        }
        let rate: i64 = match event.rate {
            Some(v) => v,
            None => {
                proof {
                    assert(arisen =~= before + (bolus_part(*event) + Seq::<Treatment>::empty()));
                }
                continue;
            },
        };
        let duration: i64 = match event.duration {
            Some(v) => v,
            None => {
                proof {
                    assert(arisen =~= before + (bolus_part(*event) + Seq::<Treatment>::empty()));
                }
                continue;
            },
        };
        if duration <= 0 {
            proof {
                assert(arisen =~= before + (bolus_part(*event) + Seq::<Treatment>::empty()));
            }
            continue;
        }
        let count: i128 = (duration as i128 + 4_999_999) / 5_000_000;
        let started: i128 = (clock as i128 - date as i128) / 300_000 + 1;
        let due: i128 = if started < count {
            started
        } else {
            count
        };
        let ghost with_bolus = arisen;
        let mut k: i128 = 0;
        while k < due
            invariant
                0 <= k <= due <= count,
                count == chunk_count(duration as int),
                due <= (clock - date) / 300_000 + 1,
                date <= clock,
                is_instant(clock as int),
                duration > 0,
                arisen == with_bolus + chunk_impulses(
                    *profile,
                    rate as int,
                    duration as int,
                    date as int,
                    clock as int,
                    k as int,
                ),
                treatments@ == sorted_by_date(arisen),
            decreases due - k,
        {
            let start: i128 = date as i128 + k * 300_000;
            assert(start <= clock);
            let left: i128 = duration as i128 - k * 5_000_000;
            let minutes: i64 = if left < 5_000_000 {
                left as i64
            } else {
                5_000_000
            };
            let scheduled: i64 = basal_lookup(profile, start as i64);
            let insulin: i64 = mul_div_fx(sub_fx(rate, scheduled), minutes, HOUR_MINUTES);
            let ghost so_far = arisen;
            if insulin > NEGLIGIBLE_INSULIN || insulin < -NEGLIGIBLE_INSULIN {
                let dose = make_impulse(insulin, start as i64);
                proof {
                    assert(arisen.push(dose).drop_last() =~= arisen);
                    arisen = arisen.push(dose);
                }
                insert_by_key(&mut treatments, dose);
            }
            k += 1;
            proof {
                let chunks = chunk_impulses(
                    *profile,
                    rate as int,
                    duration as int,
                    date as int,
                    clock as int,
                    k as int,
                );
                assert(arisen =~= with_bolus + chunks);
            }
        }
        proof {
            if due < count {
                assert(chunk_start(date as int, due as int) > clock);
                lemma_late_chunks(
                    *profile,
                    rate as int,
                    duration as int,
                    date as int,
                    clock as int,
                    due as int,
                    count as int,
                );
            }
            assert(arisen =~= before + (bolus_part(*event) + temp_part(
                *profile,
                *event,
                clock as int,
            )));
        }
    }
    if zero_temp_duration > 0 {
        let chunks: i64 = (zero_temp_duration / 5) as i64;
        let insulin: i64 = div_int_fx(sub_fx(0, profile.current_basal), 12);
        let ghost from_history = arisen;
        let mut k: i64 = 0;
        while k < chunks
            invariant
                0 <= k <= chunks <= 0x7fff_ffff,
                is_instant(clock as int),
                insulin == suspended_insulin(*profile),
                arisen == from_history + zero_temp_impulses(*profile, clock as int, k as int),
                treatments@ == sorted_by_date(arisen),
            decreases chunks - k,
        {
            let dose = make_impulse(insulin, clock + k * CHUNK_MILLIS);
            proof {
                assert(arisen.push(dose).drop_last() =~= arisen);
                arisen = arisen.push(dose);
            }
            insert_by_key(&mut treatments, dose);
            k += 1;
            proof {
                assert(arisen =~= from_history + zero_temp_impulses(
                    *profile,
                    clock as int,
                    k as int,
                ));
            }
        }
    } else {
        proof {
            assert(arisen + Seq::<Treatment>::empty() =~= arisen);
        }
    }
    Ok(treatments)
}

/// A copy of a treatment.
pub fn copy_treatment(t: &Treatment) -> (r: Treatment)
    ensures
        r == *t,
{
    Treatment {
        timestamp: clone_text(&t.timestamp),
        date: t.date,
        started_at: clone_text(&t.started_at),
        created_at: clone_text(&t.created_at),
        insulin: t.insulin,
        carbs: t.carbs,
        ns_carbs: t.ns_carbs,
        bw_carbs: t.bw_carbs,
        journal_carbs: t.journal_carbs,
        rate: t.rate,
        duration: t.duration,
        event_type: clone_text(&t.event_type),
    }
}

/// The pieces of a temporary basal rate between the changes of the basal
/// schedule. The rate is kept in one piece: each of its chunks is measured
/// against the basal scheduled at the chunk's own start.
pub fn split_temp_basal_at_schedule_changes(treatment: &Treatment, profile: &Profile) -> (r: Vec<
    Treatment,
>)
    ensures
        r@ == seq![*treatment],
{
    let mut pieces: Vec<Treatment> = Vec::new();
    pieces.push(copy_treatment(treatment));
    proof {
        assert(pieces@ =~= seq![*treatment]);
    }
    pieces
}

} // verus!
