use oref::cob::bucket_glucose_data;
use oref::cob::calculate;
use oref::cob::calculate_iob_at_time;
use oref::cob::calculate_total_carbs;
use oref::cob::detect_carb_absorption;
use oref::cob::detect_carb_absorption_internal;
use oref::cob::find_meal_time;
use oref::cob::BucketedGlucose;
use oref::error::OrefError;
use oref::insulin::InsulinCurve;
use oref::iob::calculate_current;
use oref::types::GlucoseReading;
use oref::types::Profile;
use oref::types::Treatment;

const NOW: i64 = 1_718_000_000_000;
const MINUTE: i64 = 60_000;
const HOUR: i64 = 3_600_000;

fn fx(value: f64) -> i64 {
    (value * 1_000_000.0).round() as i64
}

fn test_profile() -> Profile {
    Profile {
        dia: fx(5.0),
        sens: fx(50.0),
        carb_ratio: fx(10.0),
        curve: InsulinCurve::RapidActing,
        peak: 75,
        min_5m_carbimpact: fx(8.0),
        max_meal_absorption_time: fx(6.0),
        current_basal: fx(1.0),
        max_basal: fx(3.0),
        max_iob: fx(5.0),
        min_bg: fx(100.0),
        max_bg: fx(120.0),
        ..Default::default()
    }
}

/// Readings every five minutes, most recent first, from `newest` on.
fn series(values: &[f64], newest: i64) -> Vec<GlucoseReading> {
    values
        .iter()
        .enumerate()
        .map(|(k, &g)| GlucoseReading::new(fx(g), newest - 5 * MINUTE * k as i64))
        .collect()
}

fn bucket(date: i64, glucose: f64) -> BucketedGlucose {
    BucketedGlucose { date, glucose: fx(glucose) }
}

#[test]
fn test_empty_data_returns_default() {
    let profile = test_profile();
    let result = calculate(&profile, &vec![], &vec![], NOW).unwrap();
    assert_eq!(result.meal_cob, 0);
}

#[test]
fn test_round_to_decimal() {
    assert_eq!(oref::utils::round_value(fx(1.2345), 2), fx(1.23));
    assert_eq!(oref::utils::round_value(fx(1.2355), 2), fx(1.24));
    assert_eq!(oref::utils::round_value(fx(-1.2345), 2), fx(-1.23));
}

#[test]
fn regular_series_is_kept() {
    let values = [124.0, 122.0, 120.0, 118.0, 116.0, 114.0];
    let readings = series(&values, NOW);
    let buckets = bucket_glucose_data(&readings, NOW - HOUR, fx(6.0));
    let expected: Vec<BucketedGlucose> =
        values.iter().enumerate().map(|(k, &g)| bucket(NOW - 5 * MINUTE * k as i64, g)).collect();
    assert_eq!(buckets, expected);
    let again: Vec<GlucoseReading> =
        buckets.iter().map(|b| GlucoseReading::new(b.glucose, b.date)).collect();
    assert_eq!(bucket_glucose_data(&again, NOW - HOUR, fx(6.0)), buckets);
}

#[test]
fn close_readings_are_merged() {
    let readings = vec![
        GlucoseReading::new(fx(120.0), NOW),
        GlucoseReading::new(fx(118.0), NOW - MINUTE),
        GlucoseReading::new(fx(110.0), NOW - 3 * MINUTE),
        GlucoseReading::new(fx(100.0), NOW - 11 * MINUTE),
    ];
    let buckets = bucket_glucose_data(&readings, NOW - HOUR, fx(6.0));
    assert_eq!(
        buckets,
        vec![bucket(NOW, 119.0), bucket(NOW - 3 * MINUTE, 110.0), bucket(NOW - 11 * MINUTE, 100.0)]
    );
}

#[test]
fn gaps_are_filled_in_steps_of_five_minutes() {
    let readings =
        vec![GlucoseReading::new(fx(120.0), NOW), GlucoseReading::new(fx(100.0), NOW - 20 * MINUTE)];
    let buckets = bucket_glucose_data(&readings, NOW - HOUR, fx(6.0));
    assert_eq!(
        buckets,
        vec![
            bucket(NOW, 120.0),
            bucket(NOW - 5 * MINUTE, 115.0),
            bucket(NOW - 10 * MINUTE, 110.0),
            bucket(NOW - 15 * MINUTE, 105.0),
        ]
    );
    let far =
        vec![GlucoseReading::new(fx(120.0), NOW), GlucoseReading::new(fx(100.0), NOW - 5 * HOUR)];
    let buckets = bucket_glucose_data(&far, NOW - 6 * HOUR, fx(6.0));
    assert_eq!(buckets.len(), 48);
    assert_eq!(buckets[47].date, NOW - 235 * MINUTE);
}

#[test]
fn readings_outside_the_window_are_passed_over() {
    let readings = vec![
        GlucoseReading::new(fx(120.0), NOW),
        GlucoseReading::new(fx(30.0), NOW - 5 * MINUTE),
        GlucoseReading::new(fx(116.0), NOW - 10 * MINUTE),
        GlucoseReading::new(fx(114.0), NOW - 15 * MINUTE),
        GlucoseReading::new(fx(112.0), NOW - 20 * MINUTE),
    ];
    let buckets = bucket_glucose_data(&readings, NOW - 12 * MINUTE, fx(6.0));
    // the reading of no measurement is left out, the gap behind it filled;
    // the first reading from before the meal is the last one taken
    assert_eq!(
        buckets,
        vec![bucket(NOW, 120.0), bucket(NOW - 5 * MINUTE, 118.0), bucket(NOW - 15 * MINUTE, 114.0)]
    );
    let late = bucket_glucose_data(&series(&[120.0, 118.0, 116.0], NOW), NOW - 7 * HOUR, fx(6.0));
    assert_eq!(late, vec![bucket(NOW, 120.0)]);
    assert!(bucket_glucose_data(&vec![], NOW, fx(6.0)).is_empty());
    let unmeasured = bucket_glucose_data(&series(&[20.0, 118.0], NOW), NOW - HOUR, fx(6.0));
    assert_eq!(unmeasured, vec![bucket(NOW - 5 * MINUTE, 118.0)]);
}

#[test]
fn meal_time_is_the_latest_in_the_window() {
    let treatments = vec![
        Treatment::carbs(fx(20.0), NOW - 2 * HOUR),
        Treatment::carbs(fx(30.0), NOW - HOUR),
        Treatment::carbs(fx(0.5), NOW - 10 * MINUTE),
        Treatment::carbs(fx(40.0), NOW + MINUTE),
        Treatment::carbs(fx(50.0), NOW - 7 * HOUR),
        Treatment::bolus(fx(1.0), NOW - MINUTE),
    ];
    assert_eq!(find_meal_time(&treatments, NOW, fx(6.0)), Some(NOW - HOUR));
    assert_eq!(find_meal_time(&treatments, NOW, fx(0.5)), None);
    assert_eq!(find_meal_time(&treatments, NOW, fx(1.0)), Some(NOW - HOUR));
    assert_eq!(find_meal_time(&treatments, NOW, fx(8.0)), Some(NOW - HOUR));
    assert_eq!(find_meal_time(&vec![], NOW, fx(6.0)), None);
    assert_eq!(calculate_total_carbs(&treatments, NOW - 2 * HOUR, NOW), fx(50.0));
    assert_eq!(calculate_total_carbs(&treatments, NOW - HOUR, NOW), fx(30.0));
    assert_eq!(calculate_total_carbs(&treatments, NOW - 8 * HOUR, NOW + HOUR), fx(140.0));
}

#[test]
fn carbs_are_absorbed_at_the_floor_of_the_impact() {
    let profile = test_profile();
    // glucose has risen by 2 mg/dL every five minutes since the meal
    let values: Vec<f64> = (0..13).map(|k| 124.0 - 2.0 * k as f64).collect();
    let readings = series(&values, NOW);
    let treatments = vec![Treatment::carbs(fx(30.0), NOW - HOUR)];
    let result = calculate(&profile, &readings, &treatments, NOW).unwrap();
    // ten buckets behind the meal, each 8 mg/dL * 10 g/U / 50 mg/dL/U
    assert_eq!(result.carbs_absorbed, fx(16.0));
    assert_eq!(result.meal_cob, fx(14.0));
    assert_eq!(result.current_deviation, fx(2.0));
    assert_eq!(result.max_deviation, fx(2.0));
    assert_eq!(result.min_deviation, fx(2.0));
    assert_eq!(result.slope_from_max, 0);
    assert_eq!(result.slope_from_min, 0);
    let absorbed = detect_carb_absorption(&profile, &readings, NOW - HOUR, NOW).unwrap();
    assert_eq!(absorbed, fx(16.0));
}

#[test]
fn strong_deviations_absorb_more() {
    let profile = test_profile();
    // a rise of 12 mg/dL every five minutes, slowing to 6 at the end
    let mut values = vec![200.0, 194.0, 188.0];
    for k in 0..10 {
        values.push(182.0 - 12.0 * (k as f64 + 1.0) + 6.0);
    }
    let readings = series(&values, NOW);
    let treatments = vec![Treatment::carbs(fx(60.0), NOW - HOUR)];
    let internal = detect_carb_absorption_internal(&profile, &readings, &treatments, NOW - HOUR, NOW);
    assert_eq!(internal.current_deviation, fx(8.0));
    assert_eq!(internal.max_deviation, fx(12.0));
    assert!(internal.slope_from_max_deviation < 0);
    assert_eq!(internal.slope_from_max_deviation, fx(-2.0));
    assert_eq!(internal.min_deviation, fx(10.0));
    assert_eq!(internal.slope_from_min_deviation, 0);
    assert_eq!(internal.all_deviations, vec![10, 12, 12, 12, 12, 12, 12, 12, 12]);
    // impacts of 8, 8, 12, 12, ... over ten buckets
    assert_eq!(internal.carbs_absorbed, fx((8.0 + 8.0 + 8.0 * 12.0) * 10.0 / 50.0));
    let result = calculate(&profile, &readings, &treatments, NOW).unwrap();
    assert_eq!(result.meal_cob, fx(60.0 - 22.4));
}

#[test]
fn carbs_on_board_never_fall_below_nothing() {
    let profile = Profile { min_5m_carbimpact: fx(40.0), ..test_profile() };
    let values: Vec<f64> = (0..13).map(|k| 124.0 - 2.0 * k as f64).collect();
    let readings = series(&values, NOW);
    let treatments = vec![Treatment::carbs(fx(30.0), NOW - HOUR)];
    let result = calculate(&profile, &readings, &treatments, NOW).unwrap();
    assert_eq!(result.carbs_absorbed, fx(80.0));
    assert_eq!(result.meal_cob, 0);
}

#[test]
fn too_few_buckets_tell_nothing() {
    let profile = test_profile();
    let readings = series(&[120.0, 118.0, 116.0], NOW);
    let treatments = vec![Treatment::carbs(fx(30.0), NOW - HOUR)];
    let result = calculate(&profile, &readings, &treatments, NOW).unwrap();
    assert_eq!(result, oref::types::COBResult::default());
    let internal = detect_carb_absorption_internal(&profile, &readings, &treatments, NOW - HOUR, NOW);
    assert_eq!(internal.carbs_absorbed, 0);
    assert_eq!(internal.min_deviation, 0);
    assert!(internal.all_deviations.is_empty());
    let without_readings = calculate(&profile, &vec![], &treatments, NOW).unwrap();
    assert_eq!(without_readings, oref::types::COBResult::default());
    let no_meal = calculate(&profile, &series(&[120.0; 13], NOW), &vec![], NOW).unwrap();
    assert_eq!(no_meal, oref::types::COBResult::default());
}

#[test]
fn insulin_explains_part_of_the_change() {
    let profile = test_profile();
    let values: Vec<f64> = (0..13).map(|_| 120.0).collect();
    let readings = series(&values, NOW);
    let treatments =
        vec![Treatment::carbs(fx(30.0), NOW - HOUR), Treatment::bolus(fx(10.0), NOW - HOUR)];
    let result = calculate(&profile, &readings, &treatments, NOW).unwrap();
    let iob = calculate_current(&profile, &treatments, NOW).unwrap();
    let bgi = oref::determine_basal::predictions::calculate_bgi(iob.activity, fx(50.0));
    assert!(bgi < fx(-8.0));
    assert_eq!(result.current_deviation, -bgi);
    assert!(result.carbs_absorbed > fx(16.0));
    let same = calculate_iob_at_time(&profile, &treatments, NOW, NOW - HOUR);
    assert_eq!(same.activity, iob.activity);
    let fallback = calculate_iob_at_time(&profile, &treatments, i64::MAX, NOW);
    assert_eq!(fallback.activity, iob.activity);
}

#[test]
fn cob_without_a_meal_is_nothing_whatever_the_peak() {
    for peak in [0u32, 75, 149, 150, 100_000] {
        let profile = Profile { peak, ..test_profile() };
        assert_eq!(calculate(&profile, &vec![], &vec![], NOW).unwrap(), oref::types::COBResult::default());
        let bolus = vec![Treatment::bolus(fx(1.0), NOW - HOUR)];
        assert_eq!(calculate(&profile, &vec![], &bolus, NOW).unwrap(), oref::types::COBResult::default());
        assert_eq!(detect_carb_absorption(&profile, &vec![], NOW, NOW).unwrap(), 0);
    }
}

#[test]
fn cob_refuses_a_clock_outside_the_calendar() {
    let profile = test_profile();
    assert_eq!(calculate(&profile, &vec![], &vec![], i64::MAX).unwrap_err(), OrefError::InvalidTimestamp);
    assert_eq!(
        detect_carb_absorption(&profile, &vec![], NOW, i64::MIN).unwrap_err(),
        OrefError::InvalidTimestamp
    );
}
