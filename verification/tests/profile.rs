use oref::profile::basal_lookup;
use oref::profile::bg_targets_lookup;
use oref::profile::carb_ratio_lookup;
use oref::profile::isf_lookup;
use oref::profile::isf_lookup_from_schedule;
use oref::profile::targets::bound_target_range;
use oref::profile::BgTargets;
use oref::insulin::InsulinCurve;
use oref::types::BasalScheduleEntry;
use oref::types::ISFEntry;
use oref::types::ISFProfile;
use oref::types::Profile;

const NOW: i64 = 1_718_000_000_000;

fn fx(value: f64) -> i64 {
    (value * 1_000_000.0).round() as i64
}

fn units(value: i64) -> f64 {
    value as f64 / 1_000_000.0
}

/// 2024-01-01 at the given hour, UTC.
fn new_year(hour: i64, minute: i64) -> i64 {
    1_704_067_200_000 + hour * 3_600_000 + minute * 60_000
}

fn make_profile_with_isf_schedule() -> Profile {
    Profile {
        sens: fx(50.0),
        isf_profile: ISFProfile {
            sensitivities: vec![
                ISFEntry { offset: 0, sensitivity: fx(45.0), end_offset: None },
                ISFEntry { offset: 360, sensitivity: fx(50.0), end_offset: None },
                ISFEntry { offset: 1080, sensitivity: fx(55.0), end_offset: None },
            ],
        },
        ..Default::default()
    }
}

#[test]
fn test_carb_ratio_lookup() {
    let profile = Profile { carb_ratio: fx(10.0), ..Default::default() };
    let ratio = carb_ratio_lookup(&profile, NOW);
    assert!((units(ratio) - 10.0).abs() < 0.1);
}

#[test]
fn test_isf_lookup_night() {
    let profile = make_profile_with_isf_schedule();
    let isf = isf_lookup(&profile, new_year(3, 0));
    assert!((units(isf) - 45.0).abs() < 0.1);
}

#[test]
fn test_isf_lookup_day() {
    let profile = make_profile_with_isf_schedule();
    let isf = isf_lookup(&profile, new_year(12, 0));
    assert!((units(isf) - 50.0).abs() < 0.1);
}

#[test]
fn test_isf_lookup_evening() {
    let profile = make_profile_with_isf_schedule();
    let isf = isf_lookup(&profile, new_year(20, 0));
    assert!((units(isf) - 55.0).abs() < 0.1);
}

#[test]
fn test_empty_schedule_uses_default() {
    let profile = Profile { sens: fx(42.0), isf_profile: ISFProfile::default(), ..Default::default() };
    let isf = isf_lookup(&profile, NOW);
    assert!((units(isf) - 42.0).abs() < 0.1);
}

#[test]
fn test_bg_targets_lookup() {
    let profile = Profile { min_bg: fx(100.0), max_bg: fx(120.0), ..Default::default() };
    let targets = bg_targets_lookup(&profile, NOW);
    assert!((units(targets.min_bg) - 100.0).abs() < 0.1);
    assert!((units(targets.max_bg) - 120.0).abs() < 0.1);
}

#[test]
fn test_mmol_conversion() {
    let targets =
        bound_target_range(BgTargets { min_bg: fx(5.5), max_bg: fx(6.5), temptarget_set: false });
    assert!(units(targets.min_bg) > 90.0);
    assert!(units(targets.max_bg) > 100.0);
}

#[test]
fn test_safety_floor() {
    let targets =
        bound_target_range(BgTargets { min_bg: fx(60.0), max_bg: fx(70.0), temptarget_set: false });
    assert!((units(targets.min_bg) - 80.0).abs() < 0.1);
    assert!((units(targets.max_bg) - 80.0).abs() < 0.1);
}

#[test]
fn test_safety_ceiling() {
    let targets = bound_target_range(BgTargets {
        min_bg: fx(250.0),
        max_bg: fx(300.0),
        temptarget_set: false,
    });
    assert!((units(targets.min_bg) - 200.0).abs() < 0.1);
    assert!((units(targets.max_bg) - 200.0).abs() < 0.1);
}

#[test]
fn targets_exact_values() {
    let targets =
        bound_target_range(BgTargets { min_bg: fx(5.5), max_bg: fx(19.999), temptarget_set: true });
    assert_eq!(targets.min_bg, fx(99.0));
    assert_eq!(targets.max_bg, fx(200.0));
    assert!(targets.temptarget_set);
    let edge = bound_target_range(BgTargets { min_bg: fx(20.0), max_bg: fx(4.0), temptarget_set: false });
    assert_eq!(edge.min_bg, fx(80.0));
    assert_eq!(edge.max_bg, fx(80.0));
    let defaults = BgTargets::default();
    assert_eq!((defaults.min_bg, defaults.max_bg, defaults.temptarget_set), (fx(100.0), fx(120.0), false));
}

#[test]
fn schedule_entries_apply_until_the_next() {
    let profile = make_profile_with_isf_schedule();
    assert_eq!(isf_lookup(&profile, new_year(0, 0)), fx(45.0));
    assert_eq!(isf_lookup(&profile, new_year(5, 59)), fx(45.0));
    assert_eq!(isf_lookup(&profile, new_year(6, 0)), fx(50.0));
    assert_eq!(isf_lookup(&profile, new_year(17, 59)), fx(50.0));
    assert_eq!(isf_lookup(&profile, new_year(18, 0)), fx(55.0));
    assert_eq!(isf_lookup(&profile, new_year(23, 59)), fx(55.0));
    // before 1970 the minute of the day still counts from midnight
    assert_eq!(isf_lookup(&profile, -60_000), fx(55.0));
    assert_eq!(isf_lookup(&profile, -18 * 3_600_000 - 1), fx(45.0));
}

#[test]
fn schedule_needs_an_entry_at_midnight() {
    let schedule = ISFProfile {
        sensitivities: vec![
            ISFEntry { offset: 60, sensitivity: fx(45.0), end_offset: None },
            ISFEntry { offset: 360, sensitivity: fx(50.0), end_offset: None },
        ],
    };
    assert_eq!(isf_lookup_from_schedule(&schedule, new_year(12, 0)), None);
    let profile = Profile { sens: fx(33.0), isf_profile: schedule, ..Default::default() };
    assert_eq!(isf_lookup(&profile, new_year(12, 0)), fx(33.0));
    assert_eq!(isf_lookup_from_schedule(&ISFProfile::default(), NOW), None);
}

#[test]
fn schedule_may_come_in_any_order() {
    let schedule = ISFProfile {
        sensitivities: vec![
            ISFEntry { offset: 1080, sensitivity: fx(55.0), end_offset: None },
            ISFEntry { offset: 0, sensitivity: fx(45.0), end_offset: None },
            ISFEntry { offset: 360, sensitivity: fx(50.0), end_offset: None },
            ISFEntry { offset: 360, sensitivity: fx(51.0), end_offset: None },
        ],
    };
    assert_eq!(isf_lookup_from_schedule(&schedule, new_year(3, 0)), Some(fx(45.0)));
    assert_eq!(isf_lookup_from_schedule(&schedule, new_year(12, 0)), Some(fx(51.0)));
    assert_eq!(isf_lookup_from_schedule(&schedule, new_year(20, 0)), Some(fx(55.0)));
}

#[test]
fn schedule_outside_the_calendar_gives_the_fallback() {
    let profile = make_profile_with_isf_schedule();
    assert_eq!(isf_lookup_from_schedule(&profile.isf_profile, i64::MAX), None);
    assert_eq!(isf_lookup(&profile, i64::MIN), fx(50.0));
}

#[test]
fn basal_schedule_lookup() {
    let profile = Profile {
        current_basal: fx(0.9),
        basal_profile: vec![
            BasalScheduleEntry { i: 0, minutes: 0, rate: fx(0.8) },
            BasalScheduleEntry { i: 1, minutes: 420, rate: fx(1.1) },
            BasalScheduleEntry { i: 2, minutes: 1320, rate: fx(0.7) },
        ],
        ..Default::default()
    };
    assert_eq!(basal_lookup(&profile, new_year(6, 59)), fx(0.8));
    assert_eq!(basal_lookup(&profile, new_year(7, 0)), fx(1.1));
    assert_eq!(basal_lookup(&profile, new_year(22, 30)), fx(0.7));
    assert_eq!(basal_lookup(&profile, i64::MAX), fx(0.9));
    let plain = Profile { current_basal: fx(0.9), ..Default::default() };
    assert_eq!(basal_lookup(&plain, NOW), fx(0.9));
    let late = Profile {
        current_basal: fx(0.9),
        basal_profile: vec![BasalScheduleEntry { i: 0, minutes: 30, rate: fx(0.8) }],
        ..Default::default()
    };
    assert_eq!(basal_lookup(&late, new_year(12, 0)), fx(0.9));
}

#[test]
fn effective_dia_and_peak() {
    let bilinear = Profile { dia: fx(2.0), curve: InsulinCurve::Bilinear, ..Default::default() };
    assert_eq!(bilinear.effective_dia(), fx(3.0));
    let rapid = Profile { dia: fx(4.0), curve: InsulinCurve::RapidActing, peak: 0, ..Default::default() };
    assert_eq!(rapid.effective_dia(), fx(5.0));
    assert_eq!(rapid.effective_peak_time(), 75);
    let ultra = Profile { dia: fx(6.5), curve: InsulinCurve::UltraRapid, peak: 0, ..Default::default() };
    assert_eq!(ultra.effective_dia(), fx(6.5));
    assert_eq!(ultra.effective_peak_time(), 55);
    let custom = Profile { peak: 90, ..Default::default() };
    assert_eq!(custom.effective_peak_time(), 90);
}
