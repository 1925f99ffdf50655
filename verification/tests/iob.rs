use oref::error::OrefError;
use oref::insulin::InsulinCurve;
use oref::iob::calculate;
use oref::iob::calculate_current;
use oref::iob::calculate_total_iob;
use oref::iob::find_insulin_treatments;
use oref::iob::history::split_temp_basal_at_schedule_changes;
use oref::types::BasalScheduleEntry;
use oref::types::Profile;
use oref::types::Treatment;

const NOW: i64 = 1_718_000_000_000;
const MINUTE: i64 = 60_000;
const HOUR: i64 = 3_600_000;

fn fx(value: f64) -> i64 {
    (value * 1_000_000.0).round() as i64
}

fn units(value: i64) -> f64 {
    value as f64 / 1_000_000.0
}

fn curve_profile(dia: f64, curve: InsulinCurve) -> Profile {
    Profile { dia: fx(dia), curve, current_basal: fx(1.0), ..Default::default() }
}

fn history_profile() -> Profile {
    Profile { dia: fx(5.0), current_basal: fx(1.0), ..Default::default() }
}

#[test]
fn test_find_bolus_treatments() {
    let profile = history_profile();
    let history = vec![Treatment::bolus(fx(2.0), NOW - HOUR)];
    let treatments = find_insulin_treatments(&profile, &history, NOW, 0).unwrap();
    assert_eq!(treatments.len(), 1);
    assert_eq!(treatments[0].insulin, Some(fx(2.0)));
}

#[test]
fn test_filter_old_treatments() {
    let profile = history_profile();
    let history = vec![Treatment::bolus(fx(2.0), NOW - 6 * HOUR)];
    let treatments = find_insulin_treatments(&profile, &history, NOW, 0).unwrap();
    assert!(treatments.is_empty());
}

#[test]
fn test_temp_basal_to_insulin() {
    let profile = history_profile();
    let history = vec![Treatment::temp_basal(fx(2.0), fx(30.0), NOW - 30 * MINUTE)];
    let treatments = find_insulin_treatments(&profile, &history, NOW, 0).unwrap();
    assert!(treatments.len() >= 6);
    let total: f64 = treatments.iter().map(|t| units(t.insulin.unwrap_or(0))).sum();
    assert!((total - 0.5).abs() < 0.01);
}

#[test]
fn test_zero_temp_future() {
    let profile = history_profile();
    let treatments = find_insulin_treatments(&profile, &vec![], NOW, 30).unwrap();
    assert_eq!(treatments.len(), 6);
    for t in &treatments {
        assert!(t.insulin.unwrap_or(0) < 0);
    }
}

#[test]
fn test_calculate_iob_right_after_bolus() {
    let profile = curve_profile(3.0, InsulinCurve::Bilinear);
    let treatments = vec![Treatment::bolus(fx(2.0), NOW)];
    let iob = calculate(&profile, &treatments, NOW, true).unwrap();
    assert!(!iob.is_empty());
    assert!((units(iob[0].iob) - 2.0).abs() < 0.01);
}

#[test]
fn test_calculate_iob_after_dia() {
    let profile = curve_profile(3.0, InsulinCurve::Bilinear);
    let treatments = vec![Treatment::bolus(fx(2.0), NOW - 3 * HOUR)];
    let iob = calculate(&profile, &treatments, NOW, true).unwrap();
    assert!(!iob.is_empty());
    assert!(units(iob[0].iob).abs() < 0.01);
}

#[test]
fn test_calculate_iob_array_length() {
    let profile = curve_profile(5.0, InsulinCurve::RapidActing);
    let treatments = vec![Treatment::bolus(fx(1.0), NOW)];
    let iob = calculate(&profile, &treatments, NOW, false).unwrap();
    assert_eq!(iob.len(), 48);
}

#[test]
fn test_iob_decreases_over_time() {
    let profile = curve_profile(5.0, InsulinCurve::RapidActing);
    let treatments = vec![Treatment::bolus(fx(1.0), NOW)];
    let iob = calculate(&profile, &treatments, NOW, false).unwrap();
    assert!(iob[0].iob > iob[10].iob);
    assert!(iob[10].iob > iob[20].iob);
    assert!(iob[20].iob > iob[40].iob);
}

#[test]
fn test_activity_peaks_then_decreases() {
    let profile = curve_profile(5.0, InsulinCurve::RapidActing);
    let treatments = vec![Treatment::bolus(fx(1.0), NOW)];
    let iob = calculate(&profile, &treatments, NOW, false).unwrap();
    let activity_at_0 = iob[0].activity;
    let activity_at_15 = iob[15].activity;
    let activity_at_40 = iob[40].activity;
    assert!(activity_at_15 > activity_at_0);
    assert!(activity_at_15 > activity_at_40);
}

fn total_profile(dia: f64, curve: InsulinCurve) -> Profile {
    Profile { dia: fx(dia), curve, ..Default::default() }
}

#[test]
fn test_single_bolus_at_time_zero() {
    let profile = total_profile(3.0, InsulinCurve::Bilinear);
    let treatments = vec![Treatment::bolus(fx(2.0), NOW)];
    let iob = calculate_total_iob(&profile, &treatments, NOW).unwrap();
    assert!((units(iob.iob) - 2.0).abs() < 0.01);
    assert!(units(iob.bolus_iob) > 1.9);
    assert!(units(iob.basal_iob).abs() < 0.01);
}

#[test]
fn test_single_bolus_after_dia() {
    let profile = total_profile(3.0, InsulinCurve::Bilinear);
    let treatments = vec![Treatment::bolus(fx(2.0), NOW - 4 * HOUR)];
    let iob = calculate_total_iob(&profile, &treatments, NOW).unwrap();
    assert!(units(iob.iob).abs() < 0.01);
}

#[test]
fn test_multiple_boluses() {
    let profile = total_profile(5.0, InsulinCurve::RapidActing);
    let treatments = vec![Treatment::bolus(fx(1.0), NOW), Treatment::bolus(fx(1.0), NOW - HOUR)];
    let iob = calculate_total_iob(&profile, &treatments, NOW).unwrap();
    assert!(units(iob.iob) > 1.0);
    assert!(units(iob.iob) < 2.0);
}

#[test]
fn test_negative_insulin_reduces_iob() {
    let profile = total_profile(5.0, InsulinCurve::RapidActing);
    let treatments = vec![
        Treatment::bolus(fx(2.0), NOW),
        Treatment { insulin: Some(fx(-0.5)), date: NOW, ..Default::default() },
    ];
    let iob = calculate_total_iob(&profile, &treatments, NOW).unwrap();
    assert!((units(iob.iob) - 1.5).abs() < 0.01);
}

#[test]
fn test_activity_is_positive() {
    let profile = total_profile(5.0, InsulinCurve::RapidActing);
    let treatments = vec![Treatment::bolus(fx(1.0), NOW - HOUR)];
    let iob = calculate_total_iob(&profile, &treatments, NOW).unwrap();
    assert!(iob.activity > 0);
}

#[test]
fn test_ultra_rapid_faster_absorption() {
    let rapid_profile = total_profile(5.0, InsulinCurve::RapidActing);
    let ultra_profile = total_profile(5.0, InsulinCurve::UltraRapid);
    let treatments = vec![Treatment::bolus(fx(1.0), NOW - 2 * HOUR)];
    let rapid_iob = calculate_total_iob(&rapid_profile, &treatments, NOW).unwrap();
    let ultra_iob = calculate_total_iob(&ultra_profile, &treatments, NOW).unwrap();
    assert!(ultra_iob.iob < rapid_iob.iob);
}

#[test]
fn test_small_doses_categorized_as_basal() {
    let profile = total_profile(5.0, InsulinCurve::RapidActing);
    let treatments = vec![Treatment { insulin: Some(fx(0.05)), date: NOW, ..Default::default() }];
    let iob = calculate_total_iob(&profile, &treatments, NOW).unwrap();
    assert!(units(iob.basal_iob) > 0.04);
    assert!(units(iob.bolus_iob).abs() < 0.01);
}

#[test]
fn single_bolus_under_each_curve() {
    for curve in [InsulinCurve::Bilinear, InsulinCurve::RapidActing, InsulinCurve::UltraRapid] {
        let profile = curve_profile(5.0, curve);
        let history = vec![Treatment::bolus(fx(2.0), NOW)];
        let at_start = calculate_current(&profile, &history, NOW).unwrap();
        assert_eq!(at_start.iob, fx(2.0));
        let at_end = calculate_current(&profile, &history, NOW + 5 * HOUR).unwrap();
        assert_eq!(at_end.iob, 0);
        let mut last = at_start.iob;
        let mut minutes = 5;
        while minutes <= 300 {
            let iob = calculate_current(&profile, &history, NOW + minutes * MINUTE).unwrap().iob;
            assert!(iob <= last + fx(0.001), "{:?} at {}", curve, minutes);
            last = iob;
            minutes += 5;
        }
    }
}

#[test]
fn two_units_over_three_hours() {
    let profile = curve_profile(3.0, InsulinCurve::Bilinear);
    let history = vec![Treatment::bolus(fx(2.0), NOW)];
    let at_0 = calculate(&profile, &history, NOW, true).unwrap();
    assert!((units(at_0[0].iob) - 2.0).abs() < 0.01);
    let at_90 = calculate(&profile, &history, NOW + 90 * MINUTE, true).unwrap();
    assert!(units(at_90[0].iob) < 1.45);
    let at_180 = calculate(&profile, &history, NOW + 180 * MINUTE, true).unwrap();
    assert!(units(at_180[0].iob).abs() < 0.01);
}

#[test]
fn samples_are_rounded_and_split() {
    let profile = curve_profile(3.0, InsulinCurve::Bilinear);
    let history = vec![
        Treatment::bolus(fx(1.0), NOW - HOUR),
        Treatment { insulin: Some(fx(0.05)), date: NOW - HOUR, ..Default::default() },
    ];
    let sample = calculate_current(&profile, &history, NOW).unwrap();
    // 0.711088 and 0.0355544 on board
    assert_eq!(sample.bolus_iob, fx(0.711));
    assert_eq!(sample.basal_iob, fx(0.036));
    assert_eq!(sample.iob, fx(0.747));
    assert_eq!(sample.bolus_insulin, fx(1.0));
    assert_eq!(sample.net_basal_insulin, fx(0.05));
    // 0.008889 and 0.000444 acting
    assert_eq!(sample.activity, fx(0.0093));
    assert_eq!(sample.time, NOW);
    assert!(sample.iob_with_zero_temp.is_none());
    assert!((units(sample.iob) - units(sample.basal_iob) - units(sample.bolus_iob)).abs() < 0.0015);
}

#[test]
fn series_carries_zero_temp_and_last_events() {
    let profile = curve_profile(5.0, InsulinCurve::RapidActing);
    let history = vec![
        Treatment::bolus(fx(1.0), NOW - HOUR),
        Treatment::bolus(fx(0.5), NOW - 2 * HOUR),
        Treatment::temp_basal(fx(2.0), fx(30.0), NOW - 30 * MINUTE),
        Treatment::temp_basal(fx(0.5), fx(30.0), NOW - 90 * MINUTE),
    ];
    let series = calculate(&profile, &history, NOW, false).unwrap();
    assert_eq!(series.len(), 48);
    assert_eq!(series[0].last_bolus_time, Some(NOW - HOUR));
    let last_temp = series[0].last_temp.clone().unwrap();
    assert_eq!(last_temp.date, NOW - 30 * MINUTE);
    assert_eq!(last_temp.duration, fx(30.0));
    assert_eq!(last_temp.rate, Some(fx(2.0)));
    assert!(series[1].last_bolus_time.is_none());
    assert!(series[1].last_temp.is_none());
    for (i, sample) in series.iter().enumerate() {
        assert_eq!(sample.time, NOW + 5 * MINUTE * i as i64);
        let suspended = sample.iob_with_zero_temp.as_ref().unwrap();
        if i == 0 {
            assert!(suspended.iob <= sample.iob);
        } else {
            assert!(suspended.iob < sample.iob);
        }
    }
    let single = calculate(&profile, &history, NOW, true).unwrap();
    assert_eq!(single.len(), 1);
    assert_eq!(single[0].iob, series[0].iob);
    assert!(single[0].iob_with_zero_temp.is_none());
}

#[test]
fn impulses_come_in_order_of_date() {
    let profile = history_profile();
    let history = vec![
        Treatment::bolus(fx(1.0), NOW - 10 * MINUTE),
        Treatment::temp_basal(fx(3.0), fx(12.0), NOW - 20 * MINUTE),
        Treatment::bolus(fx(2.0), NOW - 20 * MINUTE),
        Treatment::bolus(fx(4.0), NOW + MINUTE),
    ];
    let treatments = find_insulin_treatments(&profile, &history, NOW, 0).unwrap();
    let dates: Vec<i64> = treatments.iter().map(|t| t.date - NOW).collect();
    assert_eq!(dates, vec![-20 * MINUTE, -20 * MINUTE, -15 * MINUTE, -10 * MINUTE, -10 * MINUTE]);
    let insulin: Vec<i64> = treatments.iter().map(|t| t.insulin.unwrap()).collect();
    // 2 U/hr above basal: 5 min give 0.166667, the last 2 min 0.066667
    assert_eq!(insulin, vec![166_667, fx(2.0), 166_667, fx(1.0), 66_667]);
    assert!(treatments[1].started_at.is_some());
    assert!(treatments[0].started_at.is_none());
}

#[test]
fn chunks_are_measured_against_the_schedule() {
    let midnight: i64 = 1_717_977_600_000;
    let profile = Profile {
        dia: fx(5.0),
        current_basal: fx(1.0),
        basal_profile: vec![
            BasalScheduleEntry { i: 0, minutes: 0, rate: fx(1.0) },
            BasalScheduleEntry { i: 1, minutes: 60, rate: fx(2.0) },
        ],
        ..Default::default()
    };
    let history = vec![Treatment::temp_basal(fx(4.0), fx(10.0), midnight + 55 * MINUTE)];
    let treatments =
        find_insulin_treatments(&profile, &history, midnight + 2 * HOUR, 0).unwrap();
    let insulin: Vec<i64> = treatments.iter().map(|t| t.insulin.unwrap()).collect();
    assert_eq!(insulin, vec![fx(0.25), 166_667]);
}

#[test]
fn future_chunks_and_small_chunks_are_left_out() {
    let profile = history_profile();
    let running = vec![Treatment::temp_basal(fx(2.0), fx(30.0), NOW - 12 * MINUTE)];
    let treatments = find_insulin_treatments(&profile, &running, NOW, 0).unwrap();
    assert_eq!(treatments.len(), 3);
    let at_basal = vec![Treatment::temp_basal(fx(1.0), fx(30.0), NOW - 30 * MINUTE)];
    assert!(find_insulin_treatments(&profile, &at_basal, NOW, 0).unwrap().is_empty());
    let ended = vec![Treatment::temp_basal(fx(2.0), fx(0.0), NOW - 30 * MINUTE)];
    assert!(find_insulin_treatments(&profile, &ended, NOW, 0).unwrap().is_empty());
}

#[test]
fn zero_temp_chunks_take_the_basal_away() {
    let profile = Profile { current_basal: fx(1.2), ..history_profile() };
    let treatments = find_insulin_treatments(&profile, &vec![], NOW, 240).unwrap();
    assert_eq!(treatments.len(), 48);
    for (k, t) in treatments.iter().enumerate() {
        assert_eq!(t.insulin, Some(fx(-0.1)));
        assert_eq!(t.date, NOW + 5 * MINUTE * k as i64);
    }
    assert!(find_insulin_treatments(&profile, &vec![], NOW, -5).unwrap().is_empty());
    assert!(find_insulin_treatments(&profile, &vec![], NOW, 4).unwrap().is_empty());
}

#[test]
fn clock_outside_the_calendar_is_refused() {
    let profile = history_profile();
    assert_eq!(
        find_insulin_treatments(&profile, &vec![], i64::MAX, 0).unwrap_err(),
        OrefError::InvalidTimestamp
    );
    assert_eq!(
        calculate(&profile, &vec![], i64::MIN, false).unwrap_err(),
        OrefError::InvalidTimestamp
    );
    assert_eq!(
        calculate_current(&profile, &vec![], 8_210_266_876_800_000).unwrap_err(),
        OrefError::InvalidTimestamp
    );
    assert!(calculate_current(&profile, &vec![], 8_210_266_876_799_999).is_ok());
    assert_eq!(OrefError::InvalidTimestamp.message(), "Invalid timestamp");
}

#[test]
fn every_peak_time_has_its_curve() {
    let history = vec![Treatment::bolus(fx(1.0), NOW - HOUR)];
    for peak in [1u32, 75, 141, 149, 150, 1000] {
        let profile = Profile { peak, ..curve_profile(5.0, InsulinCurve::RapidActing) };
        let total = calculate_total_iob(&profile, &history, NOW).unwrap();
        let part = oref::insulin::calculate_iob_contrib(
            fx(1.0),
            fx(60.0),
            InsulinCurve::RapidActing,
            fx(5.0),
            peak,
        );
        assert_eq!((total.iob, total.activity), (part.iob_contrib, part.activity_contrib));
        assert!(0 <= total.iob && total.iob <= fx(1.0));
        assert!(calculate(&profile, &history, NOW, false).is_ok());
        assert!(calculate_current(&profile, &vec![], NOW).is_ok());
    }
    let near = Profile { peak: 149, ..curve_profile(5.0, InsulinCurve::RapidActing) };
    assert_eq!(calculate_total_iob(&near, &history, NOW).unwrap().iob, 894_973);
    assert_eq!(calculate(&near, &history, i64::MAX, false).unwrap_err(), OrefError::InvalidTimestamp);
}

#[test]
fn rounded_shares_add_up_to_a_thousandth() {
    let history = vec![
        Treatment::bolus(fx(1.2345), NOW - 50 * MINUTE),
        Treatment::bolus(fx(0.7771), NOW - 3 * HOUR),
        Treatment::temp_basal(fx(2.35), fx(30.0), NOW - 40 * MINUTE),
        Treatment::temp_basal(fx(0.15), fx(45.0), NOW - 100 * MINUTE),
    ];
    for peak in [55u32, 75, 149, 200] {
        let profile = Profile { peak, ..history_profile() };
        let samples = calculate(&profile, &history, NOW, false).unwrap();
        for sample in &samples {
            let gap = sample.iob - (sample.basal_iob + sample.bolus_iob);
            assert!(-1000 <= gap && gap <= 1000, "{} {}", peak, gap);
            assert_eq!(sample.iob % 1000, 0);
        }
        assert!(samples[0].bolus_iob > 0 && samples[0].basal_iob != 0);
    }
}

#[test]
fn no_history_gives_samples_of_nothing() {
    for curve in [InsulinCurve::Bilinear, InsulinCurve::RapidActing, InsulinCurve::UltraRapid] {
        let profile = Profile { peak: 170, ..curve_profile(5.0, curve) };
        let samples = calculate(&profile, &vec![], NOW, false).unwrap();
        assert_eq!(samples.len(), 48);
        for sample in &samples {
            assert_eq!((sample.iob, sample.activity), (0, 0));
        }
        let current = calculate_current(&profile, &vec![], NOW).unwrap();
        assert_eq!((current.iob, current.activity), (0, 0));
    }
}

#[test]
fn nothing_is_on_board_where_nothing_contributes() {
    for curve in [InsulinCurve::Bilinear, InsulinCurve::RapidActing, InsulinCurve::UltraRapid] {
        let profile = Profile { peak: 149, ..curve_profile(5.0, curve) };
        let history = vec![
            Treatment::bolus(fx(2.0), NOW + HOUR),
            Treatment::bolus(fx(2.0), NOW - 6 * HOUR),
            Treatment::bolus(fx(0.00009), NOW - HOUR),
            Treatment::carbs(fx(30.0), NOW - HOUR),
        ];
        let total = calculate_total_iob(&profile, &history, NOW).unwrap();
        assert_eq!(
            (total.iob, total.activity, total.basal_iob, total.bolus_iob),
            (0, 0, 0, 0)
        );
        assert_eq!((total.net_basal_insulin, total.bolus_insulin), (0, 0));
        let empty = calculate_total_iob(&profile, &vec![], NOW).unwrap();
        assert_eq!((empty.iob, empty.activity, empty.time), (0, 0, NOW));
    }
}

#[test]
fn temp_basal_stays_in_one_piece() {
    let profile = history_profile();
    let temp = Treatment::temp_basal(fx(2.0), fx(30.0), NOW);
    let pieces = split_temp_basal_at_schedule_changes(&temp, &profile);
    assert_eq!(pieces.len(), 1);
    assert_eq!(pieces[0].rate, Some(fx(2.0)));
    assert_eq!(pieces[0].duration, Some(fx(30.0)));
    assert_eq!(pieces[0].date, NOW);
    assert_eq!(pieces[0].timestamp, temp.timestamp);
}

#[test]
fn equal_inputs_give_equal_series() {
    let profile = curve_profile(5.0, InsulinCurve::UltraRapid);
    let history = vec![
        Treatment::bolus(fx(1.3), NOW - 47 * MINUTE),
        Treatment::temp_basal(fx(0.0), fx(45.0), NOW - 40 * MINUTE),
    ];
    let one = calculate(&profile, &history, NOW, false).unwrap();
    let two = calculate(&profile, &history, NOW, false).unwrap();
    assert_eq!(format!("{:?}", one), format!("{:?}", two));
}
