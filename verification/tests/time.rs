use chrono::DateTime;
use chrono::Timelike;
use chrono::Utc;
use oref::time::minutes_from;
use oref::time::millis_from;
use oref::time::step_back;
use oref::time::utc_minute_of_day;
use oref::time::valid_instant;
use oref::time::MAX_INSTANT;
use oref::time::MIN_INSTANT;
use oref::types::PumpHistoryEvent;
use oref::types::Treatment;

fn fx(value: f64) -> i64 {
    (value * 1_000_000.0).round() as i64
}

#[test]
fn calendar_range_is_that_of_chrono() {
    assert_eq!(MIN_INSTANT, DateTime::<Utc>::MIN_UTC.timestamp_millis());
    assert_eq!(MAX_INSTANT, DateTime::<Utc>::MAX_UTC.timestamp_millis());
    assert!(valid_instant(MIN_INSTANT));
    assert!(valid_instant(MAX_INSTANT));
    assert!(!valid_instant(MIN_INSTANT - 1));
    assert!(!valid_instant(MAX_INSTANT + 1));
    assert!(valid_instant(0));
    assert!(!valid_instant(i64::MAX));
    assert!(!valid_instant(i64::MIN));
    for ms in [MIN_INSTANT - 1, MIN_INSTANT, -1, 0, 1, MAX_INSTANT, MAX_INSTANT + 1] {
        assert_eq!(valid_instant(ms), DateTime::from_timestamp_millis(ms).is_some());
    }
}

#[test]
fn minute_of_day_is_that_of_chrono() {
    let samples = [
        0i64,
        -1,
        59_999,
        60_000,
        -60_000,
        -60_001,
        86_399_999,
        86_400_000,
        1_718_000_000_000,
        947_638_923_004,
        -2_208_988_800_000,
        MIN_INSTANT,
        MAX_INSTANT,
    ];
    for ms in samples {
        let dt = DateTime::from_timestamp_millis(ms).unwrap();
        assert_eq!(utc_minute_of_day(ms), Some(dt.hour() * 60 + dt.minute()), "{}", ms);
    }
    assert_eq!(utc_minute_of_day(1_704_067_200_000 + 7 * 3_600_000 + 30 * 60_000), Some(450));
    assert_eq!(utc_minute_of_day(MAX_INSTANT + 1), None);
}

#[test]
fn spans_of_time() {
    assert_eq!(minutes_from(0, 60_000), fx(1.0));
    assert_eq!(minutes_from(60_000, 0), fx(-1.0));
    assert_eq!(minutes_from(0, 150_000), fx(2.5));
    assert_eq!(minutes_from(0, 1), 17);
    assert_eq!(minutes_from(0, 2), 33);
    assert_eq!(minutes_from(i64::MIN, i64::MAX), 1_000_000_000_000_000_000);
    assert_eq!(millis_from(5, 12), 7);
    assert_eq!(millis_from(i64::MAX, i64::MIN), -1_000_000_000_000_000_000);
    assert_eq!(step_back(1_000, 300), 700);
    assert_eq!(step_back(i64::MIN + 5, 300_000), i64::MIN);
}

#[test]
fn treatments_carry_the_text_of_their_time() {
    let at: i64 = 947_638_923_004;
    let text = DateTime::from_timestamp_millis(at).unwrap().to_rfc3339();
    let bolus = Treatment::bolus(fx(2.0), at);
    assert_eq!(bolus.timestamp.as_deref(), Some(text.as_str()));
    assert_eq!(bolus.timestamp.as_deref(), Some("2000-01-12T01:02:03.004+00:00"));
    assert_eq!(bolus.started_at, bolus.timestamp);
    assert_eq!(bolus.event_type.as_deref(), Some("Bolus"));
    assert_eq!(bolus.date, at);
    assert_eq!(bolus.insulin, Some(fx(2.0)));
    assert!(bolus.is_bolus() && !bolus.is_temp_basal() && !bolus.has_carbs());
    let temp = Treatment::temp_basal(fx(1.5), fx(30.0), at);
    assert_eq!(temp.started_at.as_deref(), Some(text.as_str()));
    assert_eq!(temp.event_type.as_deref(), Some("TempBasal"));
    assert_eq!((temp.rate, temp.duration), (Some(fx(1.5)), Some(fx(30.0))));
    assert!(temp.is_temp_basal() && !temp.is_bolus());
    let carbs = Treatment::carbs(fx(30.0), at);
    assert_eq!(carbs.timestamp.as_deref(), Some(text.as_str()));
    assert_eq!(carbs.started_at, None);
    assert_eq!(carbs.event_type.as_deref(), Some("Carbs"));
    assert_eq!((carbs.carbs, carbs.ns_carbs), (Some(fx(30.0)), Some(fx(30.0))));
    assert!(carbs.has_carbs());
    let nowhere = Treatment::bolus(fx(1.0), i64::MAX);
    assert_eq!(nowhere.timestamp, None);
    assert_eq!(nowhere.date, i64::MAX);
}

#[test]
fn effective_date_reads_the_texts() {
    let dated = Treatment { date: 5, started_at: Some("2000-01-12T01:02:03.004Z".to_string()), ..Default::default() };
    assert_eq!(dated.effective_date(), 5);
    let started = Treatment {
        started_at: Some("2000-01-12T01:02:03.004Z".to_string()),
        timestamp: Some("2001-01-12T01:02:03Z".to_string()),
        ..Default::default()
    };
    assert_eq!(started.effective_date(), 947_638_923_004);
    let stamped = Treatment {
        started_at: Some("yesterday".to_string()),
        timestamp: Some("2000-01-12T03:02:03.004+02:00".to_string()),
        ..Default::default()
    };
    assert_eq!(stamped.effective_date(), 947_638_923_004);
    let unreadable = Treatment { timestamp: Some("12/01/2000".to_string()), ..Default::default() };
    assert_eq!(unreadable.effective_date(), 0);
    assert_eq!(Treatment::default().effective_date(), 0);
}

#[test]
fn kinds_of_treatment() {
    let small = Treatment { carbs: Some(fx(0.9)), ..Default::default() };
    assert!(!small.has_carbs());
    let one = Treatment { carbs: Some(fx(1.0)), ..Default::default() };
    assert!(one.has_carbs());
    let negative = Treatment { insulin: Some(fx(-0.5)), ..Default::default() };
    assert!(!negative.is_bolus());
    let half = Treatment { rate: Some(fx(1.0)), ..Default::default() };
    assert!(!half.is_temp_basal());
    let rewind = Treatment { event_type: Some("Rewind".to_string()), ..Default::default() };
    assert!(rewind.is_rewind());
    let other = Treatment { event_type: Some("Rewinds".to_string()), ..Default::default() };
    assert!(!other.is_rewind());
    assert!(!Treatment::default().is_rewind());
}

fn pump_event(event_type: &str, timestamp: &str) -> PumpHistoryEvent {
    PumpHistoryEvent {
        event_type: event_type.to_string(),
        timestamp: timestamp.to_string(),
        amount: Some(fx(1.5)),
        programmed: Some(fx(2.0)),
        duration: Some(fx(30.0)),
        rate: Some(fx(0.8)),
        temp: Some("absolute".to_string()),
    }
}

#[test]
fn pump_events_become_treatments() {
    let text = "2000-01-12T01:02:03.004Z";
    let bolus = pump_event("Bolus", text).to_treatment().unwrap();
    assert_eq!(bolus.insulin, Some(fx(1.5)));
    assert_eq!(bolus.date, 947_638_923_004);
    assert_eq!(bolus.timestamp.as_deref(), Some(text));
    assert_eq!(bolus.started_at.as_deref(), Some(text));
    assert_eq!(bolus.event_type.as_deref(), Some("Bolus"));
    assert_eq!((bolus.rate, bolus.duration), (None, None));
    let programmed = PumpHistoryEvent { amount: None, ..pump_event("Bolus", text) };
    assert_eq!(programmed.to_treatment().unwrap().insulin, Some(fx(2.0)));
    for kind in ["TempBasal", "TempBasalDuration"] {
        let temp = pump_event(kind, text).to_treatment().unwrap();
        assert_eq!((temp.rate, temp.duration), (Some(fx(0.8)), Some(fx(30.0))));
        assert_eq!(temp.insulin, None);
        assert_eq!(temp.event_type.as_deref(), Some("TempBasal"));
        assert_eq!(temp.date, 947_638_923_004);
    }
    assert!(pump_event("Rewind", text).to_treatment().is_none());
    assert!(pump_event("bolus", text).to_treatment().is_none());
    assert!(pump_event("Bolus", "soon").to_treatment().is_none());
}
