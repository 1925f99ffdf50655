use oref::autosens::bucket_glucose_data_for_autosens;
use oref::autosens::calculate_deviations;
use oref::autosens::calculate_ratio_from_deviations;
use oref::autosens::detect_sensitivity;
use oref::autosens::detect_sensitivity_with_config;
use oref::autosens::deviations::Meal;
use oref::autosens::find_last_rewind;
use oref::autosens::find_meal_treatments;
use oref::autosens::get_active_temp_target;
use oref::autosens::percentile;
use oref::autosens::AutosensConfig;
use oref::autosens::SensitivityCategory;
use oref::cob::BucketedGlucose;
use oref::error::OrefError;
use oref::insulin::InsulinCurve;
use oref::types::GlucoseReading;
use oref::types::Profile;
use oref::types::TempTarget;
use oref::types::Treatment;

/// 2024-06-10 06:00:00 UTC.
const NOW: i64 = 1_717_999_200_000;
const MINUTE: i64 = 60_000;
const HOUR: i64 = 3_600_000;

fn fx(value: f64) -> i64 {
    (value * 1_000_000.0).round() as i64
}

fn units(value: i64) -> f64 {
    value as f64 / 1_000_000.0
}

fn test_profile() -> Profile {
    Profile {
        dia: fx(5.0),
        sens: fx(50.0),
        carb_ratio: fx(10.0),
        curve: InsulinCurve::RapidActing,
        peak: 75,
        min_5m_carbimpact: fx(8.0),
        current_basal: fx(1.0),
        max_basal: fx(3.0),
        rewind_resets_autosens: false,
        ..Default::default()
    }
}

fn bucket(date: i64, glucose: f64) -> BucketedGlucose {
    BucketedGlucose { date, glucose: fx(glucose) }
}

/// Buckets every five minutes that end at `newest`, oldest first.
fn buckets_of(values: &[f64], newest: i64) -> Vec<BucketedGlucose> {
    let n = values.len() as i64;
    values
        .iter()
        .enumerate()
        .map(|(k, &g)| bucket(newest - 5 * MINUTE * (n - 1 - k as i64), g))
        .collect()
}

#[test]
fn mod_test_percentile() {
    let values = vec![fx(1.0), fx(2.0), fx(3.0), fx(4.0), fx(5.0)];
    assert_eq!(percentile(&values, fx(0.5)), fx(3.0));
    assert_eq!(percentile(&values, fx(0.0)), fx(1.0));
    assert_eq!(percentile(&values, fx(1.0)), fx(5.0));
    // the interpolating percentile of the same values, counted in hundredths
    let data = vec![fx(1.0), fx(2.0), fx(3.0), fx(4.0), fx(5.0)];
    assert!((units(oref::utils::percentile(&data, fx(0.0)).unwrap()) - 1.0).abs() < 0.001);
    assert!((units(oref::utils::percentile(&data, fx(50.0)).unwrap()) - 3.0).abs() < 0.001);
    assert!((units(oref::utils::percentile(&data, fx(100.0)).unwrap()) - 5.0).abs() < 0.001);
}

#[test]
fn nearest_rank_percentile() {
    let values = vec![fx(1.0), fx(2.0), fx(3.0), fx(4.0)];
    assert_eq!(percentile(&values, fx(0.5)), fx(3.0));
    assert_eq!(percentile(&values, fx(0.49)), fx(2.0));
    assert_eq!(percentile(&vec![], fx(0.5)), 0);
    assert_eq!(percentile(&vec![fx(7.0)], fx(1.0)), fx(7.0));
}

#[test]
fn a_share_outside_the_values_gives_the_first_or_the_last() {
    let values = vec![fx(1.0), fx(2.0), fx(3.0), fx(4.0)];
    assert_eq!(percentile(&values, fx(-0.1)), fx(1.0));
    assert_eq!(percentile(&values, fx(-7.0)), fx(1.0));
    assert_eq!(percentile(&values, i64::MIN), fx(1.0));
    assert_eq!(percentile(&values, fx(1.000001)), fx(4.0));
    assert_eq!(percentile(&values, fx(1.2)), fx(4.0));
    assert_eq!(percentile(&values, fx(50.0)), fx(4.0));
    assert_eq!(percentile(&values, i64::MAX), fx(4.0));
    assert_eq!(percentile(&vec![], fx(-1.0)), 0);
    assert_eq!(percentile(&vec![], fx(2.0)), 0);
}

#[test]
fn test_sensitivity_category() {
    assert_eq!(SensitivityCategory::from(fx(0.8)), SensitivityCategory::Sensitive);
    assert_eq!(SensitivityCategory::from(fx(1.0)), SensitivityCategory::Normal);
    assert_eq!(SensitivityCategory::from(fx(1.2)), SensitivityCategory::Resistant);
}

#[test]
fn mod_test_round_to_decimal() {
    assert_eq!(oref::utils::round(fx(1.2345), 2), fx(1.23));
    assert_eq!(oref::utils::round(fx(1.2355), 2), fx(1.24));
    assert_eq!(oref::utils::round(fx(-1.2345), 2), fx(-1.23));
}

#[test]
fn category_edges() {
    assert_eq!(SensitivityCategory::from(fx(0.95)), SensitivityCategory::Normal);
    assert_eq!(SensitivityCategory::from(fx(0.949999)), SensitivityCategory::Sensitive);
    assert_eq!(SensitivityCategory::from(fx(1.05)), SensitivityCategory::Normal);
    assert_eq!(SensitivityCategory::from(fx(1.050001)), SensitivityCategory::Resistant);
}

#[test]
fn ratio_of_zero_deviations_is_one() {
    let profile = test_profile();
    let config = AutosensConfig::default();
    let zeros = vec![0i64; 96];
    assert_eq!(calculate_ratio_from_deviations(&zeros, &profile, &config), fx(1.0));
    assert_eq!(calculate_ratio_from_deviations(&vec![], &profile, &config), fx(1.0));
}

#[test]
fn ratio_follows_the_median_within_its_limits() {
    let profile = test_profile();
    let config = AutosensConfig::default();
    // 1 + (1 * 12 / 50) / 3
    assert_eq!(calculate_ratio_from_deviations(&vec![fx(1.0); 5], &profile, &config), fx(1.08));
    // the median of 3, -1, 0.5, 9 is the third of four in rising order
    assert_eq!(
        calculate_ratio_from_deviations(&vec![fx(3.0), fx(-1.0), fx(0.5), fx(9.0)], &profile, &config),
        fx(1.2)
    );
    assert_eq!(calculate_ratio_from_deviations(&vec![fx(2.0)], &profile, &config), fx(1.16));
    assert_eq!(calculate_ratio_from_deviations(&vec![fx(-2.0)], &profile, &config), fx(0.84));
    assert_eq!(calculate_ratio_from_deviations(&vec![fx(-9.0)], &profile, &config), fx(0.7));
    assert_eq!(calculate_ratio_from_deviations(&vec![fx(9.0)], &profile, &config), fx(1.2));
    let wide = AutosensConfig { autosens_min: fx(0.5), autosens_max: fx(2.0), ..Default::default() };
    assert_eq!(calculate_ratio_from_deviations(&vec![fx(9.0)], &profile, &wide), fx(1.72));
    let no_basal = Profile { max_basal: 0, ..test_profile() };
    assert_eq!(calculate_ratio_from_deviations(&vec![fx(9.0)], &no_basal, &config), fx(1.0));
    let no_sens = Profile { sens: 0, ..test_profile() };
    assert_eq!(calculate_ratio_from_deviations(&vec![fx(9.0)], &no_sens, &config), fx(1.0));
}

#[test]
fn any_deviations_keep_the_ratio_within_its_limits() {
    let profile = test_profile();
    let config = AutosensConfig::default();
    let mut seed: i64 = 12345;
    for _ in 0..200 {
        let mut deviations = Vec::new();
        for _ in 0..(seed.rem_euclid(40) + 1) {
            seed = (seed * 1_103_515_245 + 12345).rem_euclid(2_147_483_648);
            deviations.push((seed % 40_000_000) - 20_000_000);
        }
        let ratio = calculate_ratio_from_deviations(&deviations, &profile, &config);
        assert!(fx(0.7) <= ratio && ratio <= fx(1.2));
        assert_eq!(ratio % fx(0.01), 0);
    }
}

#[test]
fn flat_glucose_gives_the_neutral_ratio() {
    let profile = test_profile();
    let readings: Vec<GlucoseReading> =
        (0..288).map(|k| GlucoseReading::new(fx(110.0), NOW - 5 * MINUTE * k)).collect();
    let data = detect_sensitivity(&profile, &readings, &vec![], NOW).unwrap();
    assert_eq!(data.ratio, fx(1.0));
}

#[test]
fn flat_glucose_at_any_level_is_neutral() {
    let profile = test_profile();
    for level in [39_000_000i64, 110_370_000, 250_000_001, 399_999_999] {
        let newest_first: Vec<GlucoseReading> =
            (0..288).map(|k| GlucoseReading::new(level, NOW - 5 * MINUTE * k)).collect();
        let data = detect_sensitivity(&profile, &newest_first, &vec![], NOW).unwrap();
        assert_eq!(data.ratio, fx(1.0), "{}", level);
        let oldest_first: Vec<GlucoseReading> =
            (0..288).rev().map(|k| GlucoseReading::new(level, NOW - 5 * MINUTE * k)).collect();
        let data = detect_sensitivity(&profile, &oldest_first, &vec![], NOW).unwrap();
        assert_eq!(data.ratio, fx(1.0), "{}", level);
    }
    // whole mg/dL with gaps of every length between the readings
    let spaced: Vec<GlucoseReading> = (0..120)
        .map(|k| GlucoseReading::new(fx(97.0), NOW - MINUTE * (k * k / 7 + 3 * k)))
        .collect();
    let data = detect_sensitivity(&profile, &spaced, &vec![], NOW).unwrap();
    assert_eq!(data.ratio, fx(1.0));
}

#[test]
fn steady_rise_without_insulin_shows_resistance() {
    let profile = test_profile();
    let readings: Vec<GlucoseReading> =
        (0..200).map(|k| GlucoseReading::new(fx(300.0 - k as f64), NOW - 5 * MINUTE * k)).collect();
    let data = detect_sensitivity(&profile, &readings, &vec![], NOW).unwrap();
    assert_eq!(data.ratio, fx(1.08));
}

#[test]
fn sparse_or_missing_data_give_the_neutral_ratio() {
    let profile = test_profile();
    assert_eq!(detect_sensitivity(&profile, &vec![], &vec![], NOW).unwrap().ratio, fx(1.0));
    let few: Vec<GlucoseReading> =
        (0..3).map(|k| GlucoseReading::new(fx(300.0 - k as f64), NOW - 5 * MINUTE * k)).collect();
    assert_eq!(detect_sensitivity(&profile, &few, &vec![], NOW).unwrap().ratio, fx(1.0));
    let old: Vec<GlucoseReading> = (0..50)
        .map(|k| GlucoseReading::new(fx(300.0 - k as f64), NOW - 30 * HOUR - 5 * MINUTE * k))
        .collect();
    assert_eq!(detect_sensitivity(&profile, &old, &vec![], NOW).unwrap().ratio, fx(1.0));
    assert_eq!(
        detect_sensitivity(&profile, &few, &vec![], i64::MAX).unwrap_err(),
        OrefError::InvalidTimestamp
    );
}

#[test]
fn retrospect_and_rewind_move_the_window() {
    let profile = test_profile();
    let config = AutosensConfig { retrospective: true, ..Default::default() };
    let old: Vec<GlucoseReading> = (0..100)
        .map(|k| GlucoseReading::new(fx(300.0 - k as f64), NOW - 30 * HOUR - 5 * MINUTE * k))
        .collect();
    let seen =
        detect_sensitivity_with_config(&profile, &old, &vec![], &vec![], NOW, &config).unwrap();
    assert_eq!(seen.ratio, fx(1.08));
    let resetting = Profile { rewind_resets_autosens: true, ..test_profile() };
    let recent: Vec<GlucoseReading> =
        (0..100).map(|k| GlucoseReading::new(fx(300.0 - k as f64), NOW - 5 * MINUTE * k)).collect();
    let rewound = vec![Treatment {
        date: NOW - 10 * MINUTE,
        event_type: Some("Rewind".to_string()),
        ..Default::default()
    }];
    assert_eq!(detect_sensitivity(&resetting, &recent, &rewound, NOW).unwrap().ratio, fx(1.0));
    assert_eq!(detect_sensitivity(&profile, &recent, &rewound, NOW).unwrap().ratio, fx(1.08));
    assert_eq!(find_last_rewind(&rewound), Some(NOW - 10 * MINUTE));
    assert_eq!(find_last_rewind(&vec![Treatment::bolus(fx(1.0), NOW)]), None);
}

#[test]
fn autosens_buckets() {
    let readings = vec![
        GlucoseReading::new(fx(104.0), NOW),
        GlucoseReading::new(fx(100.0), NOW - 10 * MINUTE),
        GlucoseReading::new(fx(102.0), NOW - 9 * MINUTE),
        GlucoseReading::new(fx(30.0), NOW - 5 * MINUTE),
        GlucoseReading::new(fx(99.0), NOW - 2 * HOUR),
        GlucoseReading::new(fx(103.0), NOW - 4 * MINUTE),
    ];
    let buckets = bucket_glucose_data_for_autosens(&readings, NOW - HOUR);
    // in the order of time: the first within the window opens a bucket, the
    // next is merged, the reading of no measurement is left out, and those
    // behind it go by the time since the last reading taken
    assert_eq!(
        buckets,
        vec![bucket(NOW - 10 * MINUTE, 101.0), bucket(NOW - 4 * MINUTE, 103.0), bucket(NOW, 104.0)]
    );
    let regular: Vec<GlucoseReading> =
        (0..12).map(|k| GlucoseReading::new(fx(100.0 + k as f64), NOW - 5 * MINUTE * (11 - k))).collect();
    let kept = bucket_glucose_data_for_autosens(&regular, NOW - HOUR);
    let expected: Vec<BucketedGlucose> =
        regular.iter().map(|r| BucketedGlucose { date: r.date, glucose: r.glucose }).collect();
    assert_eq!(kept, expected);
}

#[test]
fn autosens_fills_gaps_on_the_line() {
    let two = vec![
        GlucoseReading::new(fx(100.0), NOW - 20 * MINUTE),
        GlucoseReading::new(fx(120.0), NOW),
    ];
    assert_eq!(
        bucket_glucose_data_for_autosens(&two, NOW - HOUR),
        vec![
            bucket(NOW - 20 * MINUTE, 100.0),
            bucket(NOW - 15 * MINUTE, 105.0),
            bucket(NOW - 10 * MINUTE, 110.0),
            bucket(NOW - 5 * MINUTE, 115.0),
            bucket(NOW, 120.0),
        ]
    );
    // given most recent first, the readings are taken in the order of time
    let reversed: Vec<GlucoseReading> = two.iter().rev().cloned().collect();
    assert_eq!(bucket_glucose_data_for_autosens(&reversed, NOW - HOUR).len(), 5);
    let uneven = vec![
        GlucoseReading::new(fx(100.0), NOW - 11 * MINUTE),
        GlucoseReading::new(fx(111.0), NOW),
        GlucoseReading::new(fx(119.0), NOW + 8 * MINUTE),
        GlucoseReading::new(fx(118.0), NOW + 9 * MINUTE),
    ];
    assert_eq!(
        bucket_glucose_data_for_autosens(&uneven, NOW - HOUR),
        vec![
            bucket(NOW - 11 * MINUTE, 100.0),
            bucket(NOW - 6 * MINUTE, 105.0),
            bucket(NOW, 111.0),
            bucket(NOW + 8 * MINUTE, 118.5),
        ]
    );
    let scattered: Vec<GlucoseReading> = [0i64, 37, 3, 170, 171, 12, 600, 95, 96, 2000]
        .iter()
        .map(|&minutes| GlucoseReading::new(fx(90.0 + (minutes % 50) as f64), NOW + minutes * MINUTE))
        .collect();
    let buckets = bucket_glucose_data_for_autosens(&scattered, NOW - HOUR);
    for pair in buckets.windows(2) {
        assert!(pair[0].date < pair[1].date);
        assert!(fx(90.0) <= pair[1].glucose && pair[1].glucose <= fx(140.0));
    }
    for pair in buckets.windows(2).take_while(|pair| pair[1].date <= NOW + 171 * MINUTE) {
        assert!(pair[1].date - pair[0].date <= 8 * MINUTE);
    }
    let far = vec![
        GlucoseReading::new(fx(100.0), NOW - 10 * HOUR),
        GlucoseReading::new(fx(220.0), NOW),
    ];
    let buckets = bucket_glucose_data_for_autosens(&far, NOW - 11 * HOUR);
    assert_eq!(buckets.len(), 50);
    assert_eq!(buckets[1], bucket(NOW - 10 * HOUR + 5 * MINUTE, 101.0));
    assert_eq!(buckets[48], bucket(NOW - 6 * HOUR, 148.0));
    assert_eq!(buckets[49], bucket(NOW, 220.0));
    for pair in buckets[..49].windows(2) {
        assert_eq!(pair[1].date - pair[0].date, 5 * MINUTE);
        assert!(pair[0].glucose <= pair[1].glucose);
    }
}

#[test]
fn no_more_deviations_than_the_lookback() {
    let profile = Profile { exercise_mode: true, ..test_profile() };
    let config = AutosensConfig::default();
    let targets = vec![TempTarget::new(fx(130.0), fx(150.0), 3000, NOW - 30 * HOUR)];
    // a day of buckets with three deviations at each even hour
    let values: Vec<f64> = (0..288).map(|k| 100.0 + (k % 7) as f64).collect();
    let buckets = buckets_of(&values, NOW);
    let deviations =
        calculate_deviations(&profile, &buckets, &vec![], &vec![], &targets, &config, NOW);
    assert_eq!(deviations.len(), 96);
    // the last bucket stands at 06:00: its own deviation, the target's, a zero
    assert_eq!(deviations[93..], [fx(-6.0), fx(-2.0), 0]);
    let short = AutosensConfig { lookback: 2, ..Default::default() };
    let deviations =
        calculate_deviations(&profile, &buckets, &vec![], &vec![], &targets, &short, NOW);
    assert_eq!(deviations[..2], [fx(-2.0), 0]);
    assert_eq!(deviations.len(), 2 + 18);
    let none = AutosensConfig { lookback: 0, ..Default::default() };
    let deviations =
        calculate_deviations(&profile, &buckets, &vec![], &vec![], &targets, &none, NOW);
    assert_eq!(deviations, vec![0i64; 18]);
}

#[test]
fn no_readings_are_neutral_whatever_the_peak() {
    for peak in [0u32, 75, 149, 150, 100_000] {
        let profile = Profile { peak, ..test_profile() };
        assert_eq!(detect_sensitivity(&profile, &vec![], &vec![], NOW).unwrap().ratio, fx(1.0));
        let bolus = vec![Treatment::bolus(fx(1.0), NOW - HOUR)];
        assert_eq!(detect_sensitivity(&profile, &vec![], &bolus, NOW).unwrap().ratio, fx(1.0));
    }
}

#[test]
fn meals_since_the_first_bucket() {
    let buckets = buckets_of(&[100.0, 101.0], NOW);
    let treatments = vec![
        Treatment::carbs(fx(30.0), NOW + HOUR),
        Treatment::carbs(fx(20.0), NOW - 5 * MINUTE),
        Treatment::carbs(fx(10.0), NOW - 6 * MINUTE),
        Treatment::carbs(fx(0.5), NOW),
        Treatment::bolus(fx(1.0), NOW),
    ];
    assert_eq!(
        find_meal_treatments(&treatments, &buckets),
        vec![Meal { time: NOW - 5 * MINUTE, carbs: fx(20.0) }, Meal { time: NOW + HOUR, carbs: fx(30.0) }]
    );
    assert!(find_meal_treatments(&treatments, &vec![]).is_empty());
}

#[test]
fn active_temp_targets() {
    let targets = vec![
        TempTarget::new(fx(120.0), fx(140.0), 60, NOW - HOUR),
        TempTarget::new(fx(80.0), fx(80.0), 30, NOW - 20 * MINUTE),
        TempTarget::new(fx(0.0), fx(0.0), 0, NOW - 5 * MINUTE),
    ];
    assert_eq!(get_active_temp_target(&targets, NOW - 2 * HOUR), None);
    assert_eq!(get_active_temp_target(&targets, NOW - 30 * MINUTE), Some(fx(130.0)));
    assert_eq!(get_active_temp_target(&targets, NOW - 10 * MINUTE), Some(fx(80.0)));
    assert_eq!(get_active_temp_target(&targets, NOW - 5 * MINUTE), None);
    assert_eq!(get_active_temp_target(&targets, NOW + HOUR), None);
    assert_eq!(get_active_temp_target(&targets[..1].to_vec(), NOW), None);
    assert_eq!(get_active_temp_target(&targets[..1].to_vec(), NOW - 1), Some(fx(130.0)));
}

#[test]
fn deviations_count_outside_of_meals() {
    let profile = test_profile();
    let config = AutosensConfig::default();
    // 05:40 to 06:00: five buckets, the last at the start of an even hour
    let buckets = buckets_of(&[100.0, 101.0, 103.0, 106.0, 110.0], NOW);
    let deviations =
        calculate_deviations(&profile, &buckets, &vec![], &vec![], &vec![], &config, NOW);
    // 3 and 4 count, a zero marks the hour, and seventeen zeros fill up
    assert_eq!(deviations[..3], [fx(3.0), fx(4.0), 0]);
    assert_eq!(deviations.len(), 3 + 17);
    assert!(deviations[3..].iter().all(|&d| d == 0));
}

#[test]
fn meals_and_their_wake_are_excluded() {
    let profile = test_profile();
    let config = AutosensConfig::default();
    let values: Vec<f64> = (0..30).map(|k| 100.0 + k as f64).collect();
    let buckets = buckets_of(&values, NOW - 7 * MINUTE);
    let meals = vec![Meal { time: buckets[4].date + MINUTE, carbs: fx(3.0) }];
    let deviations =
        calculate_deviations(&profile, &buckets, &vec![], &meals, &vec![], &config, NOW);
    // buckets 3 and 4 count; the meal of 3 g is absorbed at 1.6 g per step
    // in two steps and excludes the buckets while deviations stay positive
    let counted: Vec<i64> = deviations.iter().cloned().filter(|&d| d != 0).collect();
    assert_eq!(counted, vec![fx(1.0), fx(1.0)]);
}

#[test]
fn low_glucose_and_high_targets() {
    let profile = Profile { exercise_mode: true, ..test_profile() };
    let config = AutosensConfig::default();
    let low = buckets_of(&[70.0, 71.0, 72.0, 75.0, 74.0], NOW - 7 * MINUTE);
    let deviations = calculate_deviations(&profile, &low, &vec![], &vec![], &vec![], &config, NOW);
    assert_eq!(deviations[..2], [0, fx(-1.0)]);
    let gap = buckets_of(&[100.0, 39.5, 102.0, 103.0, 104.0, 105.0], NOW - 7 * MINUTE);
    let deviations = calculate_deviations(&profile, &gap, &vec![], &vec![], &vec![], &config, NOW);
    assert_eq!(deviations[..3], [fx(1.0), fx(1.0), 0]);
    let flat = buckets_of(&[100.0, 100.0, 100.0, 101.0], NOW - 7 * MINUTE);
    let targets = vec![TempTarget::new(fx(130.0), fx(150.0), 120, NOW - HOUR)];
    let deviations = calculate_deviations(&profile, &flat, &vec![], &vec![], &targets, &config, NOW);
    assert_eq!(deviations[..2], [fx(1.0), fx(-2.0)]);
    let unmoved = Profile { exercise_mode: false, ..test_profile() };
    let deviations = calculate_deviations(&unmoved, &flat, &vec![], &vec![], &targets, &config, NOW);
    assert_eq!(deviations[..2], [fx(1.0), 0]);
}

#[test]
fn insulin_on_board_marks_an_unannounced_meal() {
    let profile = test_profile();
    let config = AutosensConfig::default();
    let buckets = buckets_of(&[100.0, 100.0, 100.0, 100.0, 100.0, 100.0], NOW - 7 * MINUTE);
    let bolus = vec![Treatment::bolus(fx(3.0), NOW - HOUR)];
    let deviations = calculate_deviations(&profile, &buckets, &bolus, &vec![], &vec![], &config, NOW);
    assert!(deviations.iter().all(|&d| d == 0));
    let retrospective = AutosensConfig { retrospective: true, ..Default::default() };
    let deviations =
        calculate_deviations(&profile, &buckets, &bolus, &vec![], &vec![], &retrospective, NOW);
    assert!(deviations[0] > fx(3.0));
}

#[test]
fn lookback_drops_the_oldest() {
    let profile = test_profile();
    let config = AutosensConfig { lookback: 3, ..Default::default() };
    let values: Vec<f64> = (0..9).map(|k| 100.0 + (k * k) as f64).collect();
    let buckets = buckets_of(&values, NOW - 7 * MINUTE);
    let deviations =
        calculate_deviations(&profile, &buckets, &vec![], &vec![], &vec![], &config, NOW);
    assert_eq!(deviations[..3], [fx(11.0), fx(13.0), fx(15.0)]);
    assert_eq!(deviations.len(), 3 + 17);
}
