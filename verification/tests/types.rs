use oref::types::treatment::default_temp_type;
use oref::types::AutosensData;
use oref::types::COBResult;
use oref::types::CurrentTemp;
use oref::types::GlucoseReading;
use oref::types::GlucoseStatus;
use oref::types::GlucoseTrend;
use oref::types::IOBContrib;
use oref::types::IOBData;
use oref::types::MealData;
use oref::types::Profile;
use oref::types::TempBasalState;
use oref::types::TempTarget;

fn fx(value: f64) -> i64 {
    (value * 1_000_000.0).round() as i64
}

fn readings(values: &[f64]) -> Vec<GlucoseReading> {
    values
        .iter()
        .enumerate()
        .map(|(i, &g)| GlucoseReading::new(fx(g), 1_718_000_000_000 - 300_000 * i as i64))
        .collect()
}

#[test]
fn trend_arrows() {
    assert_eq!(GlucoseTrend::RisingFast.arrow(), "↑↑");
    assert_eq!(GlucoseTrend::Rising.arrow(), "↑");
    assert_eq!(GlucoseTrend::Flat.arrow(), "→");
    assert_eq!(GlucoseTrend::Falling.arrow(), "↓");
    assert_eq!(GlucoseTrend::FallingFast.arrow(), "↓↓");
}

#[test]
fn trends_of_deltas() {
    let trend = |delta: f64| GlucoseStatus::new(fx(120.0), fx(delta)).trend();
    assert_eq!(trend(3.1), GlucoseTrend::RisingFast);
    assert_eq!(trend(3.0), GlucoseTrend::Rising);
    assert_eq!(trend(1.0), GlucoseTrend::Flat);
    assert_eq!(trend(-0.9), GlucoseTrend::Flat);
    assert_eq!(trend(-1.0), GlucoseTrend::Falling);
    assert_eq!(trend(-3.0), GlucoseTrend::FallingFast);
    let status = GlucoseStatus::new(fx(120.0), fx(-2.0));
    assert!(status.is_falling() && !status.is_rising());
    assert!(status.is_below(fx(120.1)) && !status.is_below(fx(120.0)));
    assert!(GlucoseStatus::new(fx(120.0), 1).is_rising());
}

#[test]
fn reading_validity() {
    assert!(GlucoseReading::new(fx(39.0), 0).is_valid());
    assert!(!GlucoseReading::new(fx(38.9), 0).is_valid());
    let reading = GlucoseReading::new(fx(101.0), 17);
    assert_eq!((reading.glucose, reading.date), (fx(101.0), 17));
    assert!(reading.noise.is_none() && reading.direction.is_none());
}

#[test]
fn status_from_readings() {
    assert!(GlucoseStatus::from_readings(&vec![]).is_none());
    let single = GlucoseStatus::from_readings(&readings(&[120.0])).unwrap();
    assert_eq!((single.glucose, single.delta, single.short_avgdelta, single.long_avgdelta), (fx(120.0), 0, 0, 0));
    assert_eq!(single.date, 1_718_000_000_000);
    let three = GlucoseStatus::from_readings(&readings(&[120.0, 117.0, 115.0])).unwrap();
    assert_eq!((three.delta, three.short_avgdelta, three.long_avgdelta), (fx(3.0), fx(3.0), fx(3.0)));
    let four = GlucoseStatus::from_readings(&readings(&[120.0, 117.0, 115.0, 110.0])).unwrap();
    assert_eq!(four.delta, fx(3.0));
    assert_eq!(four.short_avgdelta, 3_333_333);
    assert_eq!(four.long_avgdelta, 3_333_333);
    let ten = GlucoseStatus::from_readings(&readings(&[
        120.0, 117.0, 115.0, 110.0, 108.0, 107.0, 105.0, 104.0, 103.0, 102.0, 90.0,
    ]))
    .unwrap();
    assert_eq!(ten.short_avgdelta, 3_333_333);
    assert_eq!(ten.long_avgdelta, fx(2.0));
}

#[test]
fn status_passes_over_readings_that_are_no_measurements() {
    let gap = GlucoseStatus::from_readings(&readings(&[120.0, 30.0, 115.0, 111.0])).unwrap();
    assert_eq!(gap.delta, 0);
    assert_eq!(gap.short_avgdelta, fx(4.5));
    let alone = GlucoseStatus::from_readings(&readings(&[120.0, 30.0, 20.0, 10.0])).unwrap();
    assert_eq!(alone.short_avgdelta, 0);
    let first_missing = GlucoseStatus::from_readings(&readings(&[30.0, 118.0, 115.0, 112.0])).unwrap();
    assert_eq!(first_missing.glucose, fx(30.0));
    assert_eq!(first_missing.delta, fx(-88.0));
    assert_eq!(first_missing.short_avgdelta, fx(3.0));
}

#[test]
fn temp_targets() {
    let high = TempTarget::new(fx(120.0), fx(140.0), 60, 5);
    assert_eq!(high.midpoint(), fx(130.0));
    assert!(high.is_high() && !high.is_low() && !high.is_cancelled());
    let low = TempTarget::new(fx(80.0), fx(85.0), 0, 5);
    assert_eq!(low.midpoint(), fx(82.5));
    assert!(low.is_low() && !low.is_high() && low.is_cancelled());
    let neutral = TempTarget::new(fx(100.0), fx(100.0), 30, 5);
    assert!(!neutral.is_low() && !neutral.is_high());
    assert_eq!((high.created_at, high.duration), (5, 60));
}

#[test]
fn current_temps() {
    assert_eq!(default_temp_type(), "absolute");
    let temp = CurrentTemp::absolute(fx(1.5), fx(20.0));
    assert_eq!((temp.rate, temp.duration, temp.temp.as_str()), (fx(1.5), fx(20.0), "absolute"));
    assert!(temp.is_active());
    let none = CurrentTemp::none();
    assert_eq!((none.rate, none.duration, none.temp.as_str()), (0, 0, "absolute"));
    assert!(!none.is_active());
}

#[test]
fn records_round_at_their_places() {
    let iob = IOBData {
        iob: fx(1.23456),
        activity: fx(0.012345),
        basal_iob: fx(-0.0005),
        bolus_iob: fx(1.2355),
        net_basal_insulin: fx(0.0004),
        bolus_insulin: fx(2.0),
        time: 9,
        ..Default::default()
    }
    .rounded();
    assert_eq!(iob.iob, fx(1.235));
    assert_eq!(iob.activity, fx(0.0123));
    assert_eq!(iob.basal_iob, fx(-0.001));
    assert_eq!(iob.bolus_iob, fx(1.236));
    assert_eq!(iob.net_basal_insulin, 0);
    assert_eq!(iob.bolus_insulin, fx(2.0));
    assert_eq!(iob.time, 9);
    let meal = MealData {
        carbs: fx(30.0004),
        meal_cob: fx(12.5),
        current_deviation: fx(1.005),
        slope_from_max_deviation: fx(-0.12345),
        all_deviations: vec![1, 2],
        last_carb_time: 7,
        bw_found: true,
        ..Default::default()
    }
    .rounded();
    assert_eq!(meal.carbs, fx(30.0));
    assert_eq!(meal.meal_cob, fx(13.0));
    assert_eq!(meal.current_deviation, fx(1.01));
    assert_eq!(meal.slope_from_max_deviation, fx(-0.123));
    assert_eq!(meal.all_deviations, vec![1, 2]);
    assert!(meal.bw_found);
    assert_eq!(meal.last_carb_time, 7);
}

#[test]
fn plain_constructors() {
    let zero = IOBData::zero(42);
    assert_eq!((zero.iob, zero.activity, zero.time), (0, 0, 42));
    assert_eq!(IOBContrib::zero(), IOBContrib::new(0, 0));
    let part = IOBContrib::new(3, 4);
    assert_eq!((part.iob_contrib, part.activity_contrib), (3, 4));
    let state = TempBasalState::new(1, 2, Some(3));
    assert_eq!((state.date, state.duration, state.rate), (1, 2, Some(3)));
    assert_eq!(AutosensData::default().ratio, fx(1.0));
    assert_eq!(AutosensData::with_ratio(fx(0.8)).ratio, fx(0.8));
    let with_cob = MealData::with_cob(fx(10.0), fx(25.0));
    assert_eq!((with_cob.meal_cob, with_cob.carbs, with_cob.ns_carbs), (fx(10.0), fx(25.0), fx(25.0)));
    assert_eq!(MealData::empty().meal_cob, 0);
    assert_eq!(COBResult::default().meal_cob, 0);
    let profile = Profile::default();
    assert_eq!(profile.pump_increment, fx(0.05));
    assert_eq!(profile.bolus_increment, fx(0.1));
    assert_eq!((profile.min_bg, profile.max_bg), (fx(100.0), fx(120.0)));
    assert_eq!(profile.peak, 0);
    assert_eq!(profile.effective_peak_time(), 75);
}
