//! Insulin on board.

use crate::fixed::fx_round;
use crate::fixed::round_fx;
use vstd::prelude::*;

verus! {

/// The last temporary basal rate of the history.
#[derive(Debug, Clone)]
pub struct TempBasalState {
    /// Start, Unix milliseconds.
    pub date: i64,
    /// Duration, minutes.
    pub duration: i64,
    /// Rate in U/hr, where it is absolute.
    pub rate: Option<i64>,
}

impl Default for TempBasalState {
    fn default() -> (r: Self)
        ensures
            r.date == 0,
            r.duration == 0,
            r.rate is None,
    {
        TempBasalState { date: 0, duration: 0, rate: None }
    }
}

impl TempBasalState {
    /// A temporary basal rate that began at `date`.
    pub fn new(date: i64, duration: i64, rate: Option<i64>) -> (r: Self)
        ensures
            r.date == date,
            r.duration == duration,
            r.rate == rate,
    {
        TempBasalState { date, duration, rate }
    }
}

/// What one dose contributes at one moment.
#[derive(Debug, Clone, Copy, PartialEq, Eq, Structural)]
pub struct IOBContrib {
    /// Insulin still to act, units.
    pub iob_contrib: i64,
    /// Insulin acting now, units per minute.
    pub activity_contrib: i64,
}

impl Default for IOBContrib {
    fn default() -> (r: Self)
        ensures
            r.iob_contrib == 0,
            r.activity_contrib == 0,
    {
        IOBContrib { iob_contrib: 0, activity_contrib: 0 }
    }
}

impl IOBContrib {
    /// No contribution.
    pub fn zero() -> (r: Self)
        ensures
            r.iob_contrib == 0,
            r.activity_contrib == 0,
    {
        IOBContrib { iob_contrib: 0, activity_contrib: 0 }
    }

    /// The given contribution.
    pub fn new(iob_contrib: i64, activity_contrib: i64) -> (r: Self)
        ensures
            r.iob_contrib == iob_contrib,
            r.activity_contrib == activity_contrib,
    {
        IOBContrib { iob_contrib, activity_contrib }
    }
}

/// Insulin on board at one moment.
#[derive(Debug)]
pub struct IOBData {
    /// Insulin on board, units.
    pub iob: i64,
    /// Insulin activity, units per minute.
    pub activity: i64,
    /// Share of the basal adjustments.
    pub basal_iob: i64,
    /// Share of the boluses.
    pub bolus_iob: i64,
    /// Net insulin of the basal adjustments.
    pub net_basal_insulin: i64,
    /// Insulin of the boluses.
    pub bolus_insulin: i64,
    /// The moment, Unix milliseconds.
    pub time: i64,
    /// Insulin on board if delivery were suspended from now on.
    pub iob_with_zero_temp: Option<Box<IOBData>>,
    /// Time of the last bolus, Unix milliseconds.
    pub last_bolus_time: Option<i64>,
    pub last_temp: Option<TempBasalState>,
}

impl Default for IOBData {
    fn default() -> (r: Self)
        ensures
            r.is_zero_at(0),
    {
        IOBData {
            iob: 0,
            activity: 0,
            basal_iob: 0,
            bolus_iob: 0,
            net_basal_insulin: 0,
            bolus_insulin: 0,
            time: 0,
            iob_with_zero_temp: None,
            last_bolus_time: None,
            last_temp: None,
        }
    }
}

impl IOBData {
    /// Whether the record holds no insulin at `time`.
    pub open spec fn is_zero_at(self, time: i64) -> bool {
        &&& self.iob == 0
        &&& self.activity == 0
        &&& self.basal_iob == 0
        &&& self.bolus_iob == 0
        &&& self.net_basal_insulin == 0
        &&& self.bolus_insulin == 0
        &&& self.time == time
        &&& self.iob_with_zero_temp is None
        &&& self.last_bolus_time is None
        &&& self.last_temp is None
    }

    /// No insulin on board at `time`.
    pub fn zero(time: i64) -> (r: Self)
        ensures
            r.is_zero_at(time),
    {
        IOBData {
            iob: 0,
            activity: 0,
            basal_iob: 0,
            bolus_iob: 0,
            net_basal_insulin: 0,
            bolus_insulin: 0,
            time,
            iob_with_zero_temp: None,
            last_bolus_time: None,
            last_temp: None,
        }
    }

    /// The record with its amounts rounded to three decimal places and its
    /// activity to four.
    pub open spec fn rounded_of(self) -> IOBData {
        IOBData {
            iob: fx_round(self.iob as int, 3) as i64,
            activity: fx_round(self.activity as int, 4) as i64,
            basal_iob: fx_round(self.basal_iob as int, 3) as i64,
            bolus_iob: fx_round(self.bolus_iob as int, 3) as i64,
            net_basal_insulin: fx_round(self.net_basal_insulin as int, 3) as i64,
            bolus_insulin: fx_round(self.bolus_insulin as int, 3) as i64,
            ..self
        }
    }

    /// The record with its amounts rounded to three decimal places and its
    /// activity to four.
    pub fn rounded(self) -> (r: Self)
        ensures
            r == self.rounded_of(),
    {
        IOBData {
            iob: round_fx(self.iob, 3),
            activity: round_fx(self.activity, 4),
            basal_iob: round_fx(self.basal_iob, 3),
            bolus_iob: round_fx(self.bolus_iob, 3),
            net_basal_insulin: round_fx(self.net_basal_insulin, 3),
            bolus_insulin: round_fx(self.bolus_insulin, 3),
            time: self.time,
            iob_with_zero_temp: self.iob_with_zero_temp,
            last_bolus_time: self.last_bolus_time,
            last_temp: self.last_temp,
        }
    }
}

} // verus!
