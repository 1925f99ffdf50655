//! Calendar time. Instants are Unix milliseconds; the calendar itself is chrono's.

use crate::fixed::clamp;
use crate::fixed::div_round;
use crate::fixed::div_round_exec;
use crate::fixed::sat;
use crate::fixed::saturate;
use chrono::DateTime;
use chrono::Timelike;
use vstd::prelude::*;

verus! {

/// The earliest instant that the calendar can represent.
pub const MIN_INSTANT: i64 = -8_334_601_228_800_000;

/// The latest instant that the calendar can represent.
pub const MAX_INSTANT: i64 = 8_210_266_876_799_999;

/// Whether `ms` maps to a calendar instant.
pub open spec fn is_instant(ms: int) -> bool {
    MIN_INSTANT <= ms <= MAX_INSTANT
}

/// Hour of the UTC day, `0..24`.
pub open spec fn hour_of_day(ms: int) -> int {
    (ms / 3_600_000) % 24
}

/// Minute within the UTC hour, `0..60`.
pub open spec fn minute_of_hour(ms: int) -> int {
    (ms / 60_000) % 60
}

/// Minute of the UTC day, `0..1440`.
pub open spec fn minute_of_day(ms: int) -> int {
    hour_of_day(ms) * 60 + minute_of_hour(ms)
}

/// The instant that an RFC 3339 text denotes, if it is well formed.
pub uninterp spec fn rfc3339_millis(text: Seq<char>) -> Option<i64>;

/// The RFC 3339 text of an instant.
pub uninterp spec fn rfc3339_text(ms: i64) -> Seq<char>;

/// `chrono::DateTime::from_timestamp_millis` followed by `Timelike::hour` and
/// `Timelike::minute`: the UTC hour and minute of an instant. The calendar
/// covers the years -262143 to 262142 and answers `None` outside them; inside,
/// hour and minute are those of the Euclidean division of the milliseconds.
#[verifier::external_body]
pub(crate) fn utc_hour_minute(ms: i64) -> (r: Option<(u32, u32)>)
    ensures
        r is Some <==> is_instant(ms as int),
        r matches Some(hm) ==> hm.0 == hour_of_day(ms as int) && hm.1 == minute_of_hour(ms as int),
{
    match DateTime::from_timestamp_millis(ms) {
        Some(dt) => Some((dt.hour(), dt.minute())),
        None => None,
    }
}

/// `chrono::DateTime::parse_from_rfc3339` followed by `timestamp_millis`: the
/// instant that a text denotes. The result is a function of the text alone.
#[verifier::external_body]
pub(crate) fn parse_rfc3339(text: &str) -> (r: Option<i64>)
    ensures
        r == rfc3339_millis(text@),
{
    match DateTime::parse_from_rfc3339(text) {
        Ok(dt) => Some(dt.timestamp_millis()),
        Err(_) => None,
    }
}

/// `chrono::DateTime::from_timestamp_millis` followed by `to_rfc3339`: the text
/// of an instant, `None` where the calendar cannot represent it.
#[verifier::external_body]
pub(crate) fn format_rfc3339(ms: i64) -> (r: Option<String>)
    ensures
        r is Some <==> is_instant(ms as int),
        r matches Some(s) ==> s@ == rfc3339_text(ms),
{
    match DateTime::from_timestamp_millis(ms) {
        Some(dt) => Some(dt.to_rfc3339()),
        None => None,
    }
}

/// Whether `ms` is a calendar instant.
pub fn valid_instant(ms: i64) -> (r: bool)
    ensures
        r == is_instant(ms as int),
{
    utc_hour_minute(ms).is_some()
}

/// Minute of the UTC day of `ms`, if `ms` is a calendar instant.
pub fn utc_minute_of_day(ms: i64) -> (r: Option<u32>)
    ensures
        r is Some <==> is_instant(ms as int),
        r matches Some(m) ==> m == minute_of_day(ms as int) && m < 1440,
{
    match utc_hour_minute(ms) {
        Some(hm) => Some(hm.0 * 60 + hm.1),
        None => None,
    }
}

/// The minutes from `from` to `to`, both in milliseconds.
pub open spec fn minutes_between(from: int, to: int) -> int {
    sat(div_round((to - from) * 50, 3))
}

/// The minutes from `from` to `to`, both in milliseconds.
pub fn minutes_from(from: i64, to: i64) -> (r: i64)
    ensures
        r == minutes_between(from as int, to as int),
{
    let diff: i128 = to as i128 - from as i128;
    saturate(div_round_exec(diff * 50, 3))
}

/// The milliseconds from `from` to `to`, limited to the magnitudes that the
/// engine holds.
pub open spec fn millis_between(from: int, to: int) -> int {
    sat(to - from)
}

/// The milliseconds from `from` to `to`.
pub fn millis_from(from: i64, to: i64) -> (r: i64)
    ensures
        r == millis_between(from as int, to as int),
{
    saturate(to as i128 - from as i128)
}

/// The instant `ms` milliseconds before `time`, limited to what 64 bits hold.
pub open spec fn instant_before(time: int, ms: int) -> int {
    clamp(time - ms, i64::MIN as int, i64::MAX as int)
}

/// The instant `ms` milliseconds after `time`, limited to what 64 bits hold.
pub open spec fn instant_after(time: int, ms: int) -> int {
    clamp(time + ms, i64::MIN as int, i64::MAX as int)
}

/// The instant `ms` milliseconds after `time`.
pub fn step_forward(time: i64, ms: i64) -> (r: i64)
    ensures
        r == instant_after(time as int, ms as int),
{
    let t: i128 = time as i128 + ms as i128;
    if t < i64::MIN as i128 {
        i64::MIN
    } else if t > i64::MAX as i128 {
        i64::MAX
    } else {
        t as i64
    }
}

/// The instant `ms` milliseconds before `time`.
pub fn step_back(time: i64, ms: i64) -> (r: i64)
    ensures
        r == instant_before(time as int, ms as int),
{
    let t: i128 = time as i128 - ms as i128;
    if t < i64::MIN as i128 {
        i64::MIN
    } else if t > i64::MAX as i128 {
        i64::MAX
    } else {
        t as i64
    }
}

} // verus!
