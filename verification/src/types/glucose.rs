//! Glucose readings and the status derived from the most recent ones.

use crate::fixed::div_int_fx;
use crate::fixed::fx_div_int;
use crate::fixed::fx_sub;
use crate::fixed::sub_fx;
use vstd::prelude::*;

verus! {

/// The lowest glucose value that a sensor reports as a measurement: 39 mg/dL.
pub const MIN_VALID_GLUCOSE: i64 = 39_000_000;

/// One reading of a continuous glucose monitor.
#[derive(Debug, Clone)]
pub struct GlucoseReading {
    /// Glucose, mg/dL.
    pub glucose: i64,
    /// Unix milliseconds.
    pub date: i64,
    pub date_string: Option<String>,
    pub display_time: Option<String>,
    /// Noise level, 0 to 4.
    pub noise: Option<i64>,
    pub direction: Option<String>,
}

impl GlucoseReading {
    /// Whether the reading is a measurement.
    pub open spec fn valid(self) -> bool {
        self.glucose >= MIN_VALID_GLUCOSE
    }

    /// A reading of `glucose` mg/dL at `date`.
    pub fn new(glucose: i64, date: i64) -> (r: Self)
        ensures
            r.glucose == glucose,
            r.date == date,
            r.date_string is None,
            r.display_time is None,
            r.noise is None,
            r.direction is None,
    {
        GlucoseReading {
            glucose,
            date,
            date_string: None,
            display_time: None,
            noise: None,
            direction: None,
        }
    }

    /// Whether the reading is a measurement, not a calibration marker.
    pub fn is_valid(&self) -> (r: bool)
        ensures
            r == self.valid(),
    {
        self.glucose >= MIN_VALID_GLUCOSE
    }

}

/// Number of measurements among the first `n` readings.
pub open spec fn count_valid(readings: Seq<GlucoseReading>, n: int) -> int
    decreases n,
{
    if n <= 0 {
        0
    } else {
        count_valid(readings, n - 1) + if readings[n - 1].valid() {
            1int
        } else {
            0int
        }
    }
}

/// Glucose of the last measurement among the first `n` readings (0 if none).
pub open spec fn last_valid_glucose(readings: Seq<GlucoseReading>, n: int) -> int
    decreases n,
{
    if n <= 0 {
        0
    } else if readings[n - 1].valid() {
        readings[n - 1].glucose as int
    } else {
        last_valid_glucose(readings, n - 1)
    }
}

/// Glucose of the first measurement among the readings `from..n` (0 if none).
pub open spec fn first_valid_glucose(readings: Seq<GlucoseReading>, from: int, n: int) -> int
    decreases n - from,
{
    if from >= n {
        0
    } else if readings[from].valid() {
        readings[from].glucose as int
    } else {
        first_valid_glucose(readings, from + 1, n)
    }
}

/// Average change per reading over the measurements among the first `n`
/// readings, most recent first; `fallback` with fewer than two measurements.
pub open spec fn window_delta(readings: Seq<GlucoseReading>, n: int, fallback: int) -> int {
    if count_valid(readings, n) >= 2 {
        fx_div_int(
            fx_sub(first_valid_glucose(readings, 0, n), last_valid_glucose(readings, n)),
            count_valid(readings, n) - 1,
        )
    } else {
        fallback
    }
}

/// Change from the previous reading to the current one.
pub open spec fn latest_delta(readings: Seq<GlucoseReading>) -> int {
    if readings.len() >= 2 && readings[1].valid() {
        fx_sub(readings[0].glucose as int, readings[1].glucose as int)
    } else {
        0
    }
}

/// Average change per reading over about fifteen minutes.
pub open spec fn short_delta(readings: Seq<GlucoseReading>) -> int {
    if readings.len() >= 4 {
        window_delta(readings, 4, latest_delta(readings))
    } else {
        latest_delta(readings)
    }
}

/// Average change per reading over about forty-five minutes.
pub open spec fn long_delta(readings: Seq<GlucoseReading>) -> int {
    if readings.len() >= 10 {
        window_delta(readings, 10, latest_delta(readings))
    } else {
        short_delta(readings)
    }
}

/// Current glucose with its recent rates of change.
#[derive(Debug, Clone)]
pub struct GlucoseStatus {
    /// Current glucose, mg/dL.
    pub glucose: i64,
    /// Change over the last five minutes, mg/dL.
    pub delta: i64,
    /// Average five-minute change over about fifteen minutes.
    pub short_avgdelta: i64,
    /// Average five-minute change over about forty-five minutes.
    pub long_avgdelta: i64,
    /// Unix milliseconds of the reading.
    pub date: i64,
    pub noise: Option<i64>,
}

impl Default for GlucoseStatus {
    fn default() -> (r: Self)
        ensures
            r.glucose == 0,
            r.delta == 0,
            r.short_avgdelta == 0,
            r.long_avgdelta == 0,
            r.date == 0,
            r.noise is None,
    {
        GlucoseStatus { glucose: 0, delta: 0, short_avgdelta: 0, long_avgdelta: 0, date: 0, noise: None }
    }
}

/// Direction of the glucose trend.
#[derive(Debug, Clone, Copy, PartialEq, Eq, Structural)]
pub enum GlucoseTrend {
    RisingFast,
    Rising,
    Flat,
    Falling,
    FallingFast,
}

/// The trend that a five-minute change of `delta` shows.
pub open spec fn trend_of(delta: int) -> GlucoseTrend {
    if delta > 3_000_000 {
        GlucoseTrend::RisingFast
    } else if delta > 1_000_000 {
        GlucoseTrend::Rising
    } else if delta > -1_000_000 {
        GlucoseTrend::Flat
    } else if delta > -3_000_000 {
        GlucoseTrend::Falling
    } else {
        GlucoseTrend::FallingFast
    }
}

impl GlucoseStatus {
    /// Glucose of `glucose` mg/dL that changes by `delta` every five minutes.
    pub fn new(glucose: i64, delta: i64) -> (r: Self)
        ensures
            r.glucose == glucose,
            r.delta == delta,
            r.short_avgdelta == delta,
            r.long_avgdelta == delta,
            r.date == 0,
            r.noise is None,
    {
        GlucoseStatus {
            glucose,
            delta,
            short_avgdelta: delta,
            long_avgdelta: delta,
            date: 0,
            noise: None,
        }
    }

    /// Average change per reading over the measurements among the first `n`
    /// readings.
    fn window(readings: &Vec<GlucoseReading>, n: usize, fallback: i64) -> (r: i64)
        requires
            1 <= n <= readings.len(),
            n <= 10,
        ensures
            r == window_delta(readings@, n as int, fallback as int),
    {
        let mut first: i64 = 0;
        let mut i: usize = n;
        while i > 0
            invariant
                i <= n <= readings.len(),
                first == first_valid_glucose(readings@, i as int, n as int),
            decreases i,
        {
            i -= 1;
            if readings[i].is_valid() {
                first = readings[i].glucose;
            }
        }
        let mut count: i64 = 0;
        let mut last: i64 = 0;
        let mut j: usize = 0;
        while j < n
            invariant
                j <= n <= readings.len(),
                n <= 10,
                count == count_valid(readings@, j as int),
                0 <= count <= j,
                last == last_valid_glucose(readings@, j as int),
            decreases n - j,
        {
            if readings[j].is_valid() {
                count += 1;
                last = readings[j].glucose;
            }
            j += 1;
        }
        if count >= 2 {
            div_int_fx(sub_fx(first, last), count - 1)
        } else {
            fallback
        }
    }

    /// The status that the readings show, most recent first; `None` without
    /// readings.
    pub fn from_readings(readings: &Vec<GlucoseReading>) -> (r: Option<Self>)
        ensures
            r is Some <==> readings.len() > 0,
            r matches Some(s) ==> {
                &&& s.glucose == readings@[0].glucose
                &&& s.date == readings@[0].date
                &&& s.noise == readings@[0].noise
                &&& s.delta == latest_delta(readings@)
                &&& s.short_avgdelta == short_delta(readings@)
                &&& s.long_avgdelta == long_delta(readings@)
            },
    {
        if readings.len() == 0 {
            return None;
        }
        let delta: i64 = if readings.len() >= 2 && readings[1].is_valid() {
            sub_fx(readings[0].glucose, readings[1].glucose)
        } else {
            0
        };
        let short_avgdelta: i64 = if readings.len() >= 4 {
            Self::window(readings, 4, delta)
        } else {
            delta
        };
        let long_avgdelta: i64 = if readings.len() >= 10 {
            Self::window(readings, 10, delta)
        } else {
            short_avgdelta
        };
        Some(
            GlucoseStatus {
                glucose: readings[0].glucose,
                delta,
                short_avgdelta,
                long_avgdelta,
                date: readings[0].date,
                noise: readings[0].noise,
            },
        )
    }

    /// Whether glucose is below `threshold`.
    pub fn is_below(&self, threshold: i64) -> (r: bool)
        ensures
            r == (self.glucose < threshold),
    {
        self.glucose < threshold
    }

    /// Whether glucose rises.
    pub fn is_rising(&self) -> (r: bool)
        ensures
            r == (self.delta > 0),
    {
        self.delta > 0
    }

    /// Whether glucose falls.
    pub fn is_falling(&self) -> (r: bool)
        ensures
            r == (self.delta < 0),
    {
        self.delta < 0
    }

    /// The trend that the five-minute change shows.
    pub fn trend(&self) -> (r: GlucoseTrend)
        ensures
            r == trend_of(self.delta as int),
    {
        if self.delta > 3_000_000 {
            GlucoseTrend::RisingFast
        } else if self.delta > 1_000_000 {
            GlucoseTrend::Rising
        } else if self.delta > -1_000_000 {
            GlucoseTrend::Flat
        } else if self.delta > -3_000_000 {
            GlucoseTrend::Falling
        } else {
            GlucoseTrend::FallingFast
        }
    }
}

/// The arrow that stands for a trend.
pub open spec fn arrow_text(trend: GlucoseTrend) -> Seq<char> {
    match trend {
        GlucoseTrend::RisingFast => "↑↑"@,
        GlucoseTrend::Rising => "↑"@,
        GlucoseTrend::Flat => "→"@,
        GlucoseTrend::Falling => "↓"@,
        GlucoseTrend::FallingFast => "↓↓"@,
    }
}

impl GlucoseTrend {
    /// The arrow that stands for the trend.
    pub fn arrow(&self) -> (r: &'static str)
        ensures
            r@ == arrow_text(*self),
    {
        match self {
            GlucoseTrend::RisingFast => "↑↑",
            GlucoseTrend::Rising => "↑",
            GlucoseTrend::Flat => "→",
            GlucoseTrend::Falling => "↓",
            GlucoseTrend::FallingFast => "↓↓",
        }
    }
}

} // verus!
