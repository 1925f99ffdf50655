//! Pump history: boluses, temporary basal rates, carb entries and markers.

use crate::fixed::fx_add;
use crate::fixed::add_fx;
use crate::fixed::div_int_fx;
use crate::fixed::fx_div_int;
use crate::text::clone_text;
use crate::text::text_is;
use crate::time::format_rfc3339;
use crate::time::is_instant;
use crate::time::parse_rfc3339;
use crate::time::rfc3339_millis;
use crate::time::rfc3339_text;
use vstd::prelude::*;
use vstd::string::StringExecFns;

verus! {

/// The smallest carb entry that counts as a meal: one gram.
pub const MIN_MEAL_CARBS: i64 = 1_000_000;

/// One event of the treatment history. The insulin, the rate with its
/// duration, and the carbs are independent of each other: an event may carry
/// any combination of them.
#[derive(Debug, Clone)]
pub struct Treatment {
    /// RFC 3339 text of the event's time.
    pub timestamp: Option<String>,
    /// Unix milliseconds; 0 when unknown.
    pub date: i64,
    /// RFC 3339 text of the start of a temporary basal rate.
    pub started_at: Option<String>,
    pub created_at: Option<String>,
    /// Insulin of a bolus, units.
    pub insulin: Option<i64>,
    /// Carbs, grams.
    pub carbs: Option<i64>,
    pub ns_carbs: Option<i64>,
    pub bw_carbs: Option<i64>,
    pub journal_carbs: Option<i64>,
    /// Temporary basal rate, U/hr.
    pub rate: Option<i64>,
    /// Duration of the temporary basal rate, minutes.
    pub duration: Option<i64>,
    pub event_type: Option<String>,
}

/// The instant that an optional RFC 3339 text denotes.
pub open spec fn parsed_instant(text: Option<String>) -> Option<i64> {
    match text {
        Some(s) => rfc3339_millis(s@),
        None => None,
    }
}

impl Default for Treatment {
    fn default() -> (r: Self)
        ensures
            r.is_blank(),
    {
        Treatment {
            timestamp: None,
            date: 0,
            started_at: None,
            created_at: None,
            insulin: None,
            carbs: None,
            ns_carbs: None,
            bw_carbs: None,
            journal_carbs: None,
            rate: None,
            duration: None,
            event_type: None,
        }
    }
}

impl Treatment {
    /// Whether the event carries nothing.
    pub open spec fn is_blank(self) -> bool {
        &&& self.timestamp is None
        &&& self.date == 0
        &&& self.started_at is None
        &&& self.created_at is None
        &&& self.insulin is None
        &&& self.carbs is None
        &&& self.ns_carbs is None
        &&& self.bw_carbs is None
        &&& self.journal_carbs is None
        &&& self.rate is None
        &&& self.duration is None
        &&& self.event_type is None
    }

    /// The time of the event: its date where that is known, else what its
    /// start text or its timestamp text denotes, else 0.
    pub open spec fn effective_date_of(self) -> i64 {
        if self.date != 0 {
            self.date
        } else if let Some(ms) = parsed_instant(self.started_at) {
            ms
        } else if let Some(ms) = parsed_instant(self.timestamp) {
            ms
        } else {
            0
        }
    }

    /// The insulin of the event, 0 where it carries none.
    pub open spec fn insulin_of(self) -> int {
        match self.insulin {
            Some(u) => u as int,
            None => 0,
        }
    }

    /// The carbs of the event, 0 where it carries none.
    pub open spec fn carbs_of(self) -> int {
        match self.carbs {
            Some(g) => g as int,
            None => 0,
        }
    }

    /// Whether the event delivers a bolus.
    pub open spec fn bolus_event(self) -> bool {
        self.insulin_of() > 0
    }

    /// Whether the event sets a temporary basal rate.
    pub open spec fn temp_basal_event(self) -> bool {
        self.rate is Some && self.duration is Some
    }

    /// Whether the event enters a meal.
    pub open spec fn meal_event(self) -> bool {
        self.carbs_of() >= MIN_MEAL_CARBS
    }

    /// Whether the event marks a pump rewind.
    pub open spec fn rewind_event(self) -> bool {
        self.event_type matches Some(name) && name@ == "Rewind"@
    }

    /// A bolus of `insulin` units at `timestamp`.
    pub fn bolus(insulin: i64, timestamp: i64) -> (r: Self)
        ensures
            r.insulin == Some(insulin),
            r.date == timestamp,
            r.timestamp is Some <==> is_instant(timestamp as int),
            r.timestamp matches Some(s) ==> s@ == rfc3339_text(timestamp),
            r.started_at == r.timestamp,
            r.event_type matches Some(name) && name@ == "Bolus"@,
            r.created_at is None,
            r.carbs is None,
            r.ns_carbs is None,
            r.bw_carbs is None,
            r.journal_carbs is None,
            r.rate is None,
            r.duration is None,
    {
        let text: Option<String> = format_rfc3339(timestamp);
        Treatment {
            timestamp: clone_text(&text),
            date: timestamp,
            started_at: text,
            created_at: None,
            insulin: Some(insulin),
            carbs: None,
            ns_carbs: None,
            bw_carbs: None,
            journal_carbs: None,
            rate: None,
            duration: None,
            event_type: Some(String::from_str("Bolus")),
        }
    }

    /// A temporary basal rate of `rate` U/hr for `duration` minutes from
    /// `timestamp`.
    pub fn temp_basal(rate: i64, duration: i64, timestamp: i64) -> (r: Self)
        ensures
            r.rate == Some(rate),
            r.duration == Some(duration),
            r.date == timestamp,
            r.timestamp is Some <==> is_instant(timestamp as int),
            r.timestamp matches Some(s) ==> s@ == rfc3339_text(timestamp),
            r.started_at == r.timestamp,
            r.event_type matches Some(name) && name@ == "TempBasal"@,
            r.created_at is None,
            r.insulin is None,
            r.carbs is None,
            r.ns_carbs is None,
            r.bw_carbs is None,
            r.journal_carbs is None,
    {
        let text: Option<String> = format_rfc3339(timestamp);
        Treatment {
            timestamp: clone_text(&text),
            date: timestamp,
            started_at: text,
            created_at: None,
            insulin: None,
            carbs: None,
            ns_carbs: None,
            bw_carbs: None,
            journal_carbs: None,
            rate: Some(rate),
            duration: Some(duration),
            event_type: Some(String::from_str("TempBasal")),
        }
    }

    /// An entry of `carbs` grams at `timestamp`.
    pub fn carbs(carbs: i64, timestamp: i64) -> (r: Self)
        ensures
            r.carbs == Some(carbs),
            r.ns_carbs == Some(carbs),
            r.date == timestamp,
            r.timestamp is Some <==> is_instant(timestamp as int),
            r.timestamp matches Some(s) ==> s@ == rfc3339_text(timestamp),
            r.event_type matches Some(name) && name@ == "Carbs"@,
            r.started_at is None,
            r.created_at is None,
            r.insulin is None,
            r.bw_carbs is None,
            r.journal_carbs is None,
            r.rate is None,
            r.duration is None,
    {
        Treatment {
            timestamp: format_rfc3339(timestamp),
            date: timestamp,
            started_at: None,
            created_at: None,
            insulin: None,
            carbs: Some(carbs),
            ns_carbs: Some(carbs),
            bw_carbs: None,
            journal_carbs: None,
            rate: None,
            duration: None,
            event_type: Some(String::from_str("Carbs")),
        }
    }

    /// Whether the event delivers a bolus.
    pub fn is_bolus(&self) -> (r: bool)
        ensures
            r == self.bolus_event(),
    {
        match self.insulin {
            Some(u) => u > 0,
            None => false,
        }
    }

    /// Whether the event sets a temporary basal rate.
    pub fn is_temp_basal(&self) -> (r: bool)
        ensures
            r == self.temp_basal_event(),
    {
        self.rate.is_some() && self.duration.is_some()
    }

    /// Whether the event enters a meal of at least one gram.
    pub fn has_carbs(&self) -> (r: bool)
        ensures
            r == self.meal_event(),
    {
        match self.carbs {
            Some(g) => g >= MIN_MEAL_CARBS,
            None => false,
        }
    }

    /// Whether the event marks a pump rewind.
    pub fn is_rewind(&self) -> (r: bool)
        ensures
            r == self.rewind_event(),
    {
        match &self.event_type {
            Some(name) => text_is(name, "Rewind"),
            None => false,
        }
    }

    /// The time of the event, Unix milliseconds.
    pub fn effective_date(&self) -> (r: i64)
        ensures
            r == self.effective_date_of(),
    {
        if self.date != 0 {
            return self.date;
        }
        if let Some(text) = &self.started_at {
            if let Some(ms) = parse_rfc3339(text.as_str()) {
                return ms;
            }
        }
        if let Some(text) = &self.timestamp {
            if let Some(ms) = parse_rfc3339(text.as_str()) {
                return ms;
            }
        }
        0
    }
}

/// One event as the pump reports it.
#[derive(Debug, Clone)]
pub struct PumpHistoryEvent {
    pub event_type: String,
    /// RFC 3339 text of the event's time.
    pub timestamp: String,
    /// Delivered bolus, units.
    pub amount: Option<i64>,
    /// Programmed bolus, units.
    pub programmed: Option<i64>,
    /// Duration of a temporary basal rate, minutes.
    pub duration: Option<i64>,
    /// Temporary basal rate, U/hr.
    pub rate: Option<i64>,
    /// "absolute" or "percent".
    pub temp: Option<String>,
}

impl PumpHistoryEvent {
    /// Whether the pump reports a bolus.
    pub open spec fn reports_bolus(self) -> bool {
        self.event_type@ == "Bolus"@
    }

    /// Whether the pump reports a temporary basal rate.
    pub open spec fn reports_temp_basal(self) -> bool {
        self.event_type@ == "TempBasal"@ || self.event_type@ == "TempBasalDuration"@
    }

    /// The treatment that the event stands for: a bolus or a temporary basal
    /// rate whose timestamp is well formed; nothing for any other event.
    pub fn to_treatment(&self) -> (r: Option<Treatment>)
        ensures
            r is Some <==> rfc3339_millis(self.timestamp@) is Some && (self.reports_bolus()
                || self.reports_temp_basal()),
            r matches Some(t) ==> {
                &&& Some(t.date) == rfc3339_millis(self.timestamp@)
                &&& t.timestamp == Some(self.timestamp)
                &&& t.started_at == Some(self.timestamp)
                &&& t.created_at is None
                &&& t.carbs is None
                &&& t.ns_carbs is None
                &&& t.bw_carbs is None
                &&& t.journal_carbs is None
                &&& self.reports_bolus() ==> {
                    &&& t.insulin == if self.amount is Some {
                        self.amount
                    } else {
                        self.programmed
                    }
                    &&& t.rate is None
                    &&& t.duration is None
                    &&& t.event_type matches Some(name) && name@ == "Bolus"@
                }
                &&& !self.reports_bolus() ==> {
                    &&& t.insulin is None
                    &&& t.rate == self.rate
                    &&& t.duration == self.duration
                    &&& t.event_type matches Some(name) && name@ == "TempBasal"@
                }
            },
    {
        let date: i64 = match parse_rfc3339(self.timestamp.as_str()) {
            Some(ms) => ms,
            None => {
                return None;
            },
        };
        if text_is(&self.event_type, "Bolus") {
            Some(
                Treatment {
                    timestamp: Some(self.timestamp.clone()),
                    date,
                    started_at: Some(self.timestamp.clone()),
                    created_at: None,
                    insulin: if self.amount.is_some() {
                        self.amount
                    } else {
                        self.programmed
                    },
                    carbs: None,
                    ns_carbs: None,
                    bw_carbs: None,
                    journal_carbs: None,
                    rate: None,
                    duration: None,
                    event_type: Some(String::from_str("Bolus")),
                },
            )
        } else if text_is(&self.event_type, "TempBasal") || text_is(
            &self.event_type,
            "TempBasalDuration",
        ) {
            Some(
                Treatment {
                    timestamp: Some(self.timestamp.clone()),
                    date,
                    started_at: Some(self.timestamp.clone()),
                    created_at: None,
                    insulin: None,
                    carbs: None,
                    ns_carbs: None,
                    bw_carbs: None,
                    journal_carbs: None,
                    rate: self.rate,
                    duration: self.duration,
                    event_type: Some(String::from_str("TempBasal")),
                },
            )
        } else {
            None
        }
    }
}

/// The text of the default kind of temporary basal rate.
pub fn default_temp_type() -> (r: String)
    ensures
        r@ == "absolute"@,
{
    String::from_str("absolute")
}

/// The temporary basal rate that the pump is running.
#[derive(Debug, Clone)]
pub struct CurrentTemp {
    /// Remaining duration, minutes.
    pub duration: i64,
    /// Rate, U/hr.
    pub rate: i64,
    /// "absolute" or "percent".
    pub temp: String,
}

impl Default for CurrentTemp {
    fn default() -> (r: Self)
        ensures
            r.duration == 0,
            r.rate == 0,
            r.temp@ == Seq::<char>::empty(),
    {
        CurrentTemp { duration: 0, rate: 0, temp: String::new() }
    }
}

impl CurrentTemp {
    /// An absolute temporary basal rate.
    pub fn absolute(rate: i64, duration: i64) -> (r: Self)
        ensures
            r.rate == rate,
            r.duration == duration,
            r.temp@ == "absolute"@,
    {
        CurrentTemp { rate, duration, temp: default_temp_type() }
    }

    /// No temporary basal rate.
    pub fn none() -> (r: Self)
        ensures
            r.rate == 0,
            r.duration == 0,
            r.temp@ == "absolute"@,
    {
        CurrentTemp { rate: 0, duration: 0, temp: default_temp_type() }
    }

    /// Whether a temporary basal rate is running.
    pub open spec fn active(self) -> bool {
        self.duration > 0
    }

    /// Whether a temporary basal rate is running.
    pub fn is_active(&self) -> (r: bool)
        ensures
            r == self.active(),
    {
        self.duration > 0
    }
}

/// A temporary glucose target.
#[derive(Debug, Clone)]
pub struct TempTarget {
    /// Start, Unix milliseconds.
    pub created_at: i64,
    /// Duration in minutes; 0 cancels the targets before it.
    pub duration: u32,
    /// Lower bound, mg/dL.
    pub target_bottom: i64,
    /// Upper bound, mg/dL.
    pub target_top: i64,
    pub reason: Option<String>,
}

impl Default for TempTarget {
    fn default() -> (r: Self)
        ensures
            r.created_at == 0,
            r.duration == 0,
            r.target_bottom == 0,
            r.target_top == 0,
            r.reason is None,
    {
        TempTarget { created_at: 0, duration: 0, target_bottom: 0, target_top: 0, reason: None }
    }
}

/// One hundred mg/dL, the neutral target.
pub const NEUTRAL_TARGET: i64 = 100_000_000;

impl TempTarget {
    /// The middle of the target range.
    pub open spec fn midpoint_of(self) -> int {
        fx_div_int(fx_add(self.target_top as int, self.target_bottom as int), 2)
    }

    /// A target range for `duration` minutes from `created_at`.
    pub fn new(target_bottom: i64, target_top: i64, duration: u32, created_at: i64) -> (r: Self)
        ensures
            r.created_at == created_at,
            r.duration == duration,
            r.target_bottom == target_bottom,
            r.target_top == target_top,
            r.reason is None,
    {
        TempTarget { created_at, duration, target_bottom, target_top, reason: None }
    }

    /// The middle of the target range.
    pub fn midpoint(&self) -> (r: i64)
        ensures
            r == self.midpoint_of(),
    {
        div_int_fx(add_fx(self.target_top, self.target_bottom), 2)
    }

    /// Whether the target is above the neutral one.
    pub fn is_high(&self) -> (r: bool)
        ensures
            r == (self.midpoint_of() > NEUTRAL_TARGET),
    {
        self.midpoint() > NEUTRAL_TARGET
    }

    /// Whether the target is below the neutral one.
    pub fn is_low(&self) -> (r: bool)
        ensures
            r == (self.midpoint_of() < NEUTRAL_TARGET),
    {
        self.midpoint() < NEUTRAL_TARGET
    }

    /// Whether the entry cancels the targets before it.
    pub fn is_cancelled(&self) -> (r: bool)
        ensures
            r == (self.duration == 0),
    {
        self.duration == 0
    }
}

} // verus!
