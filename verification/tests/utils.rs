use oref::types::Profile;
use oref::utils::percentile;
use oref::utils::round;
use oref::utils::round::get_pump_increment;
use oref::utils::round::is_newer_medtronic;
use oref::utils::round::round_to_increment;
use oref::utils::round_basal;
use oref::utils::round_value;

fn fx(value: f64) -> i64 {
    (value * 1_000_000.0).round() as i64
}

fn units(value: i64) -> f64 {
    value as f64 / 1_000_000.0
}

#[test]
fn test_round() {
    assert!((units(round(fx(1.2345), 2)) - 1.23).abs() < 0.001);
    assert!((units(round(fx(1.2345), 3)) - 1.235).abs() < 0.0001);
    assert!((units(round(fx(1.5), 0)) - 2.0).abs() < 0.001);
}

#[test]
fn test_percentile() {
    let data = vec![fx(1.0), fx(2.0), fx(3.0), fx(4.0), fx(5.0)];
    assert!((units(percentile(&data, fx(0.0)).unwrap()) - 1.0).abs() < 0.001);
    assert!((units(percentile(&data, fx(50.0)).unwrap()) - 3.0).abs() < 0.001);
    assert!((units(percentile(&data, fx(100.0)).unwrap()) - 5.0).abs() < 0.001);
    // the nearest-rank percentile of the same values, counted in shares of one
    let values = vec![fx(1.0), fx(2.0), fx(3.0), fx(4.0), fx(5.0)];
    assert_eq!(oref::autosens::percentile(&values, fx(0.5)), fx(3.0));
    assert_eq!(oref::autosens::percentile(&values, fx(0.0)), fx(1.0));
    assert_eq!(oref::autosens::percentile(&values, fx(1.0)), fx(5.0));
}

#[test]
fn test_percentile_empty() {
    let data: Vec<i64> = vec![];
    assert!(percentile(&data, fx(50.0)).is_none());
}

#[test]
fn test_round_basal_default() {
    let profile = Profile::default();
    assert!((units(round_basal(fx(0.83), &profile)) - 0.85).abs() < 0.001);
    assert!((units(round_basal(fx(0.86), &profile)) - 0.85).abs() < 0.001);
    assert!((units(round_basal(fx(0.025), &profile)) - 0.05).abs() < 0.001);
}

#[test]
fn test_round_basal_newer_medtronic() {
    let profile = Profile { model: Some("554".to_string()), ..Default::default() };
    assert!((units(round_basal(fx(0.025), &profile)) - 0.025).abs() < 0.001);
    assert!((units(round_basal(fx(0.030), &profile)) - 0.025).abs() < 0.001);
    assert!((units(round_basal(fx(0.040), &profile)) - 0.05).abs() < 0.001);
}

#[test]
fn test_round_basal_high_rate() {
    let profile = Profile::default();
    assert!((units(round_basal(fx(10.83), &profile)) - 10.8).abs() < 0.001);
    assert!((units(round_basal(fx(10.86), &profile)) - 10.9).abs() < 0.001);
}

#[test]
fn test_round_value() {
    assert!((units(round_value(fx(1.2345), 2)) - 1.23).abs() < 0.001);
    assert!((units(round_value(fx(1.2355), 2)) - 1.24).abs() < 0.001);
}

#[test]
fn percentile_interpolates() {
    let data = vec![fx(1.0), fx(2.0), fx(4.0), fx(8.0)];
    assert_eq!(percentile(&data, fx(50.0)), Some(fx(3.0)));
    assert_eq!(percentile(&data, fx(25.0)), Some(fx(1.75)));
    assert_eq!(percentile(&data, fx(90.0)), Some(fx(6.8)));
    assert_eq!(percentile(&data, fx(100.0)), Some(fx(8.0)));
    assert_eq!(percentile(&vec![fx(7.0)], fx(33.0)), Some(fx(7.0)));
}

#[test]
fn percentile_below_nothing_is_the_first_value() {
    let data = vec![fx(1.0), fx(2.0), fx(4.0), fx(8.0)];
    assert_eq!(percentile(&data, fx(-0.000001)), Some(fx(1.0)));
    assert_eq!(percentile(&data, fx(-10.0)), Some(fx(1.0)));
    assert_eq!(percentile(&data, fx(-250.0)), Some(fx(1.0)));
    assert_eq!(percentile(&data, i64::MIN), Some(fx(1.0)));
    // a single value answers for every percentile
    assert_eq!(percentile(&vec![fx(7.0)], fx(250.0)), Some(fx(7.0)));
    assert_eq!(percentile(&vec![fx(7.0)], fx(-3.0)), Some(fx(7.0)));
    assert_eq!(percentile(&vec![], fx(-3.0)), None);
}

#[test]
fn newer_medtronic_models() {
    for model in ["523", "723", "554", "754", "530G", "630G", "670G", "770G", "780G", "MMT-554", "x670Gy"] {
        assert!(is_newer_medtronic(model), "{}", model);
    }
    for model in ["", "522", "722", "515", "55", "670", "G670", "Omnipod", "5 5 4"] {
        assert!(!is_newer_medtronic(model), "{}", model);
    }
}

#[test]
fn pump_increment_follows_model_and_profile() {
    assert_eq!(get_pump_increment(&Profile::default()), fx(0.05));
    let fine = Profile { model: Some("723".to_string()), pump_increment: fx(0.1), ..Default::default() };
    assert_eq!(get_pump_increment(&fine), fx(0.025));
    let own = Profile { model: Some("Omnipod".to_string()), pump_increment: fx(0.01), ..Default::default() };
    assert_eq!(get_pump_increment(&own), fx(0.01));
    assert_eq!(round_basal(fx(0.834), &own), fx(0.83));
    let unset = Profile { pump_increment: 0, ..Default::default() };
    assert_eq!(get_pump_increment(&unset), fx(0.05));
}

#[test]
fn rounding_to_the_increment() {
    assert_eq!(round_to_increment(fx(0.83), fx(0.05)), fx(0.85));
    assert_eq!(round_to_increment(fx(0.82), fx(0.05)), fx(0.8));
    assert_eq!(round_to_increment(fx(0.825), fx(0.05)), fx(0.85));
    assert_eq!(round_to_increment(fx(10.0), fx(0.05)), fx(10.0));
    assert_eq!(round_to_increment(fx(10.04), fx(0.025)), fx(10.0));
    assert_eq!(round_to_increment(fx(10.05), fx(0.025)), fx(10.1));
    assert_eq!(round_to_increment(fx(-0.83), fx(0.05)), fx(-0.85));
}
