use oref::insulin::calculate::calculate_iob_contrib;
use oref::insulin::BilinearCurve;
use oref::insulin::ExponentialCurve;
use oref::insulin::InsulinCurve;

fn fx(value: f64) -> i64 {
    (value * 1_000_000.0).round() as i64
}

fn units(value: i64) -> f64 {
    value as f64 / 1_000_000.0
}

fn exponential_reference(insulin: f64, mins_ago: f64, dia: f64, peak: f64) -> (f64, f64) {
    let end = dia.max(5.0) * 60.0;
    if mins_ago >= end {
        return (0.0, 0.0);
    }
    let tau = peak * (1.0 - peak / end) / (1.0 - 2.0 * peak / end);
    let a = 2.0 * tau / end;
    let s = 1.0 / (1.0 - a + (1.0 + a) * (-end / tau).exp());
    let activity =
        insulin * (s / (tau * tau)) * mins_ago * (1.0 - mins_ago / end) * (-mins_ago / tau).exp();
    let inner = (mins_ago * mins_ago / (tau * end * (1.0 - a)) - mins_ago / tau - 1.0)
        * (-mins_ago / tau).exp()
        + 1.0;
    (insulin * (1.0 - s * (1.0 - a) * inner), activity)
}

#[test]
fn test_bilinear_at_zero() {
    let contrib = BilinearCurve::calculate(fx(1.0), fx(0.0), fx(3.0));
    assert!((units(contrib.iob_contrib) - 1.0).abs() < 0.001);
    assert!((units(contrib.activity_contrib) - 0.0).abs() < 0.001);
}

#[test]
fn test_bilinear_after_dia() {
    let contrib = BilinearCurve::calculate(fx(1.0), fx(180.0), fx(3.0));
    assert!((units(contrib.iob_contrib) - 0.0).abs() < 0.001);
    assert!((units(contrib.activity_contrib) - 0.0).abs() < 0.001);
}

#[test]
fn test_bilinear_at_peak() {
    let contrib = BilinearCurve::calculate(fx(1.0), fx(75.0), fx(3.0));
    assert!(units(contrib.activity_contrib) > 0.01);
    assert!(units(contrib.iob_contrib) > 0.5 && units(contrib.iob_contrib) < 0.6);
}

#[test]
fn test_exponential_at_zero() {
    let contrib = ExponentialCurve::calculate(fx(1.0), fx(0.0), fx(5.0), 75);
    assert!(units(contrib.iob_contrib) > 0.99);
    assert!(units(contrib.activity_contrib) < 0.001);
}

#[test]
fn test_exponential_after_dia() {
    let contrib = ExponentialCurve::calculate(fx(1.0), fx(300.0), fx(5.0), 75);
    assert!((units(contrib.iob_contrib) - 0.0).abs() < 0.001);
    assert!((units(contrib.activity_contrib) - 0.0).abs() < 0.001);
}

#[test]
fn test_exponential_at_peak() {
    let at_30 = ExponentialCurve::calculate(fx(1.0), fx(30.0), fx(5.0), 75);
    let at_75 = ExponentialCurve::calculate(fx(1.0), fx(75.0), fx(5.0), 75);
    let at_120 = ExponentialCurve::calculate(fx(1.0), fx(120.0), fx(5.0), 75);
    assert!(at_75.activity_contrib > at_30.activity_contrib);
    assert!(at_75.activity_contrib > at_120.activity_contrib);
}

#[test]
fn test_ultra_rapid_faster_decay() {
    let rapid = ExponentialCurve::calculate(fx(1.0), fx(120.0), fx(5.0), 75);
    let ultra = ExponentialCurve::calculate(fx(1.0), fx(120.0), fx(5.0), 55);
    assert!(ultra.iob_contrib < rapid.iob_contrib);
}

#[test]
fn test_calculate_iob_contrib_dispatch() {
    let bilinear = calculate_iob_contrib(fx(1.0), fx(60.0), InsulinCurve::Bilinear, fx(3.0), 75);
    let rapid = calculate_iob_contrib(fx(1.0), fx(60.0), InsulinCurve::RapidActing, fx(5.0), 75);
    let ultra = calculate_iob_contrib(fx(1.0), fx(60.0), InsulinCurve::UltraRapid, fx(5.0), 55);
    assert!(units(bilinear.iob_contrib) > 0.0 && units(bilinear.iob_contrib) < 1.0);
    assert!(units(rapid.iob_contrib) > 0.0 && units(rapid.iob_contrib) < 1.0);
    assert!(units(ultra.iob_contrib) > 0.0 && units(ultra.iob_contrib) < 1.0);
}

#[test]
fn test_zero_insulin() {
    let contrib = calculate_iob_contrib(fx(0.0), fx(60.0), InsulinCurve::RapidActing, fx(5.0), 75);
    assert_eq!(contrib.iob_contrib, 0);
    assert_eq!(contrib.activity_contrib, 0);
}

#[test]
fn test_negative_time() {
    let contrib =
        calculate_iob_contrib(fx(1.0), fx(-10.0), InsulinCurve::RapidActing, fx(5.0), 75);
    assert_eq!(contrib.iob_contrib, 0);
    assert_eq!(contrib.activity_contrib, 0);
}

#[test]
fn test_iob_matches_js_implementation() {
    let at_0 = BilinearCurve::calculate(fx(2.0), fx(0.0), fx(3.0));
    assert!((units(at_0.iob_contrib) - 2.0).abs() < 0.01);
    let at_60 = BilinearCurve::calculate(fx(2.0), fx(60.0), fx(3.0));
    assert!(units(at_60.iob_contrib) < 1.45);
    assert!(units(at_60.activity_contrib) > 0.0);
}

#[test]
fn bilinear_exact_values() {
    // x = 60 / 5 + 1 = 13: 1 - 0.001852 * 13 * 12 = 0.711088
    let at_60 = BilinearCurve::calculate(fx(1.0), fx(60.0), fx(3.0));
    assert_eq!(at_60.iob_contrib, 711_088);
    // activity: (2 / 180) * 60 / 75 = 0.008889
    assert_eq!(at_60.activity_contrib, 8_889);
    // y = (120 - 75) / 5 = 9: 0.55556 - 9 * (0.054233 - 0.001323 * 9) = 0.174626
    let at_120 = BilinearCurve::calculate(fx(1.0), fx(120.0), fx(3.0));
    assert_eq!(at_120.iob_contrib, 174_626);
    // a dose at the very start is wholly on board
    assert_eq!(BilinearCurve::calculate(fx(2.0), 0, fx(3.0)).iob_contrib, fx(2.0));
}

#[test]
fn bilinear_scales_with_dia() {
    // six hours of action: 120 minutes count as 60
    let long = BilinearCurve::calculate(fx(1.0), fx(120.0), fx(6.0));
    assert_eq!(long.iob_contrib, 711_088);
    // a duration below three hours is raised to three
    let short = BilinearCurve::calculate(fx(1.0), fx(60.0), fx(2.0));
    assert_eq!(short.iob_contrib, 711_088);
    assert_eq!(BilinearCurve::calculate(fx(1.0), fx(359.0), fx(6.0)).activity_contrib > 0, true);
    assert_eq!(BilinearCurve::calculate(fx(1.0), fx(360.0), fx(6.0)).iob_contrib, 0);
}

#[test]
fn bilinear_hardly_rises() {
    let at = |micro_minutes: i64| BilinearCurve::calculate(fx(1.0), micro_minutes, fx(3.0)).iob_contrib;
    // the two halves do not meet at the peak
    assert_eq!((at(74_999_999), at(75_000_000)), (555_520, 555_560));
    // the falling half dips below nothing and comes back before the end
    assert_eq!((at(177_480_000), at(179_999_999), at(180_000_000)), (-226, 110, 0));
    let mut lowest = fx(1.0);
    let mut k = 0;
    while k <= 18_100 {
        let got = at(k * 10_000);
        assert!(got <= lowest + 340 + 1, "{}", k);
        assert!(-226 <= got && got <= fx(1.0));
        if got < lowest {
            lowest = got;
        }
        k += 1;
    }
    assert_eq!(lowest, -226);
}

#[test]
fn bilinear_nothing_for_no_dose() {
    assert_eq!(BilinearCurve::calculate(0, fx(10.0), fx(3.0)).iob_contrib, 0);
    assert_eq!(BilinearCurve::calculate(fx(-1.0), fx(10.0), fx(3.0)).iob_contrib, 0);
    assert_eq!(BilinearCurve::calculate(fx(1.0), fx(-1.0), fx(3.0)).iob_contrib, 0);
}

#[test]
fn exponential_follows_the_formula() {
    for &(dia, peak) in &[(5.0, 75u32), (5.0, 55), (6.0, 75), (7.5, 100), (5.0, 120)] {
        let mut m = 0.0;
        while m < dia * 60.0 {
            let got = ExponentialCurve::calculate(fx(1.5), fx(m), fx(dia), peak);
            let (iob, activity) = exponential_reference(1.5, m, dia, peak as f64);
            assert!(
                (units(got.iob_contrib) - iob).abs() < 0.0005,
                "iob at {} of {}/{}: {} against {}",
                m,
                dia,
                peak,
                units(got.iob_contrib),
                iob
            );
            assert!(
                (units(got.activity_contrib) - activity).abs() < 0.00005,
                "activity at {} of {}/{}: {} against {}",
                m,
                dia,
                peak,
                units(got.activity_contrib),
                activity
            );
            m += 7.5;
        }
    }
}

#[test]
fn exponential_whole_dose_at_start() {
    let got = ExponentialCurve::calculate(fx(2.0), 0, fx(5.0), 75);
    assert_eq!(got.iob_contrib, fx(2.0));
    assert_eq!(got.activity_contrib, 0);
}

/// The curve as the quotient of two series with positive terms, which holds
/// where the closed form loses its digits: for a peak near the middle.
fn series_reference(insulin: f64, mins_ago: f64, dia: f64, peak: f64) -> (f64, f64) {
    let end = dia.max(5.0) * 60.0;
    if mins_ago >= end {
        return (0.0, 0.0);
    }
    let x = end * (end - 2.0 * peak) / (peak * (end - peak));
    let s = mins_ago / end;
    let u = x * s;
    let mut term = s * s / 2.0;
    let mut acted = term * (1.0 - 2.0 * s / 3.0);
    let mut norm_term = 1.0 / 6.0;
    let mut norm = norm_term;
    for n in 3..60 {
        term *= u / n as f64;
        acted += term * (1.0 - 2.0 * s / (n as f64 + 1.0));
        if n > 3 {
            norm_term *= x / n as f64;
            norm += (n as f64 - 2.0) * norm_term;
        }
    }
    let growth = (x - u).exp();
    (insulin * (1.0 - growth * acted / norm), insulin * s * (1.0 - s) * growth / norm / end)
}

#[test]
fn the_two_forms_of_the_curve_agree() {
    // where both hold their digits they are one curve
    for peak in [60.0, 75.0, 90.0, 100.0, 120.0] {
        let mut m = 0.0;
        while m < 300.0 {
            let (iob, activity) = exponential_reference(1.0, m, 5.0, peak);
            let (series_iob, series_activity) = series_reference(1.0, m, 5.0, peak);
            assert!((iob - series_iob).abs() < 1e-9, "{} {}", peak, m);
            assert!((activity - series_activity).abs() < 1e-9, "{} {}", peak, m);
            m += 10.0;
        }
    }
}

/// The formula, by whichever of its two forms holds its digits.
fn curve_reference(insulin: f64, mins_ago: f64, dia: f64, peak: f64) -> (f64, f64) {
    let end = dia.max(5.0) * 60.0;
    let x = end * (end - 2.0 * peak) / (peak * (end - peak));
    if x.abs() > 2.5 {
        exponential_reference(insulin, mins_ago, dia, peak)
    } else {
        series_reference(insulin, mins_ago, dia, peak)
    }
}

#[test]
fn exponential_holds_every_peak() {
    for &dia in &[5.0, 6.0, 7.3, 12.0] {
        let end = dia * 60.0;
        let mut peak = 1u32;
        while (peak as f64) < 2.5 * end {
            if peak as f64 == end || 2.0 * peak as f64 == end {
                peak += 1;
                continue;
            }
            let mut m = dia * 3.0;
            while m < end {
                let got = ExponentialCurve::calculate(fx(1.0), fx(m), fx(dia), peak);
                let (iob, activity) = curve_reference(1.0, m, dia, peak as f64);
                assert!((units(got.iob_contrib) - iob).abs() < 0.00002, "{} {} {}", dia, peak, m);
                assert!(
                    (units(got.activity_contrib) - activity).abs() < 0.00002,
                    "{} {} {}",
                    dia,
                    peak,
                    m
                );
                assert!(0 <= got.iob_contrib && got.iob_contrib <= fx(1.0));
                assert!(got.activity_contrib >= 0);
                m += dia * 3.0;
            }
            peak += 1;
        }
    }
}

#[test]
fn exponential_close_to_the_middle() {
    // peaks at which the closed form loses its digits at six decimals
    for peak in [141u32, 145, 149, 151, 155, 159] {
        let mut m = 12.5;
        while m < 300.0 {
            let got = ExponentialCurve::calculate(fx(2.0), fx(m), fx(5.0), peak);
            let (iob, activity) = series_reference(2.0, m, 5.0, peak as f64);
            assert!((units(got.iob_contrib) - iob).abs() < 0.00003, "{} {}", peak, m);
            assert!((units(got.activity_contrib) - activity).abs() < 0.00003, "{} {}", peak, m);
            m += 12.5;
        }
    }
    let near = ExponentialCurve::calculate(fx(1.0), fx(60.0), fx(5.0), 149);
    assert_eq!((near.iob_contrib, near.activity_contrib), (894_973, 3_226));
    let long = ExponentialCurve::calculate(fx(1.0), fx(360.0), fx(12.0), 359);
    let (iob, activity) = series_reference(1.0, 360.0, 12.0, 359.0);
    assert!((units(long.iob_contrib) - iob).abs() < 0.00002);
    assert!((units(long.activity_contrib) - activity).abs() < 0.00002);
}

#[test]
fn a_peak_in_the_middle_gives_a_parabola() {
    // the limit of the formula: activity 6 s (1 - s) / end, on board 1 - 3 s^2 + 2 s^3
    let at = |m: f64| {
        let got = ExponentialCurve::calculate(fx(1.0), fx(m), fx(5.0), 150);
        (got.iob_contrib, got.activity_contrib)
    };
    assert_eq!(at(0.0), (1_000_000, 0));
    assert_eq!(at(1.0), (999_967, 66));
    assert_eq!(at(75.0), (843_750, 3_750));
    assert_eq!(at(150.0), (500_000, 5_000));
    assert_eq!(at(225.0), (156_250, 3_750));
    assert_eq!(at(299.0), (33, 66));
    assert_eq!(at(300.0), (0, 0));
}

#[test]
fn a_peak_behind_the_middle_runs_the_curve_backwards() {
    // peak 200 of 300 minutes: the time constant of the formula is -200
    let at = |m: f64, peak: u32| {
        let got = ExponentialCurve::calculate(fx(1.0), fx(m), fx(5.0), peak);
        (got.iob_contrib, got.activity_contrib)
    };
    assert_eq!(at(75.0, 200), (910_576, 2_437));
    assert_eq!(at(150.0, 200), (637_207, 4_729));
    assert_eq!(at(225.0, 200), (246_165, 5_160));
    let (iob, activity) = exponential_reference(1.0, 225.0, 5.0, 200.0);
    assert!((iob - 0.246165).abs() < 0.000005 && (activity - 0.005160).abs() < 0.000005);
    // what is left under peak 200 after m minutes has acted under peak 100 after 300 - m
    let mut m = 1.0;
    while m < 300.0 {
        let late = at(m, 200);
        let early = at(300.0 - m, 100);
        assert_eq!(late.0, fx(1.0) - early.0);
        assert_eq!(late.1, early.1);
        m += 1.0;
    }
    // the activity is greatest at the peak
    let top = at(200.0, 200).1;
    let mut m = 0.0;
    while m < 300.0 {
        assert!(at(m, 200).1 <= top + 2);
        m += 0.5;
    }
}

#[test]
fn a_peak_behind_the_end_follows_the_formula() {
    // peak 400 of 300 minutes: time constant 80
    let got = ExponentialCurve::calculate(fx(1.0), fx(75.0), fx(5.0), 400);
    assert_eq!((got.iob_contrib, got.activity_contrib), (593_474, 6_846));
    let (iob, activity) = exponential_reference(1.0, 75.0, 5.0, 400.0);
    assert!((iob - 0.593474).abs() < 0.000005 && (activity - 0.006846).abs() < 0.000005);
}

#[test]
fn where_the_formula_has_no_time_constant() {
    // a peak at nothing: the dose acts at once
    let start = ExponentialCurve::calculate(fx(1.0), 0, fx(5.0), 0);
    assert_eq!((start.iob_contrib, start.activity_contrib), (fx(1.0), 0));
    for m in [1.0, 75.0, 150.0, 299.0] {
        let got = ExponentialCurve::calculate(fx(1.0), fx(m), fx(5.0), 0);
        assert_eq!((got.iob_contrib, got.activity_contrib), (0, 0), "{}", m);
    }
    // a peak at the end: the dose stays on board until the end
    for m in [0.0, 1.0, 75.0, 150.0, 299.0, 299.999] {
        let got = ExponentialCurve::calculate(fx(1.0), fx(m), fx(5.0), 300);
        assert_eq!((got.iob_contrib, got.activity_contrib), (fx(1.0), 0), "{}", m);
    }
    let over = ExponentialCurve::calculate(fx(1.0), fx(300.0), fx(5.0), 300);
    assert_eq!((over.iob_contrib, over.activity_contrib), (0, 0));
    // a minute before the end the dose acts in the last minutes
    let late = ExponentialCurve::calculate(fx(1.0), fx(225.0), fx(5.0), 299);
    assert_eq!((late.iob_contrib, late.activity_contrib), (fx(1.0), 0));
    let last = ExponentialCurve::calculate(fx(1.0), fx(299.0), fx(5.0), 299);
    assert_eq!((last.iob_contrib, last.activity_contrib), (264_246, 367_885));
}

#[test]
fn every_peak_has_the_whole_dose_at_the_start_and_nothing_at_the_end() {
    for curve in [InsulinCurve::RapidActing, InsulinCurve::UltraRapid, InsulinCurve::Bilinear] {
        for peak in 0u32..400 {
            let start = calculate_iob_contrib(fx(1.7), 0, curve, fx(5.0), peak);
            assert_eq!((start.iob_contrib, start.activity_contrib), (fx(1.7), 0), "{}", peak);
            let end = calculate_iob_contrib(fx(1.7), fx(300.0), curve, fx(5.0), peak);
            assert_eq!((end.iob_contrib, end.activity_contrib), (0, 0));
            let none = calculate_iob_contrib(0, fx(60.0), curve, fx(5.0), peak);
            assert_eq!((none.iob_contrib, none.activity_contrib), (0, 0));
            let ahead = calculate_iob_contrib(fx(1.7), -1, curve, fx(5.0), peak);
            assert_eq!((ahead.iob_contrib, ahead.activity_contrib), (0, 0));
        }
    }
}

#[test]
fn exponential_on_board_falls_with_time() {
    for peak in [1u32, 20, 55, 75, 112, 113, 140, 149, 150, 151, 200, 290, 350] {
        let mut before = fx(1.0);
        let mut m = 0.0;
        while m <= 300.0 {
            let got = ExponentialCurve::calculate(fx(1.0), fx(m), fx(5.0), peak);
            assert!(got.iob_contrib <= before + 5, "{} {}", peak, m);
            before = got.iob_contrib;
            m += 1.0;
        }
    }
}

#[test]
fn rounding_may_raise_what_is_on_board_by_millionths() {
    // a millionth of a minute later, two millionths of a unit more
    let earlier = ExponentialCurve::calculate(fx(1.0), 229_835_418, fx(5.0), 75);
    let later = ExponentialCurve::calculate(fx(1.0), 229_835_419, fx(5.0), 75);
    assert_eq!((earlier.iob_contrib, later.iob_contrib), (46_578, 46_580));
}

#[test]
fn nothing_is_left_from_the_end_of_the_action() {
    for curve in [InsulinCurve::Bilinear, InsulinCurve::RapidActing, InsulinCurve::UltraRapid] {
        for minutes in [360.0, 360.000001, 1000.0] {
            let got = calculate_iob_contrib(fx(2.0), fx(minutes), curve, fx(6.0), 75);
            assert_eq!((got.iob_contrib, got.activity_contrib), (0, 0));
        }
        let before = calculate_iob_contrib(fx(2.0), fx(300.0), curve, fx(6.0), 75);
        assert!(before.activity_contrib > 0);
    }
}

#[test]
fn exponential_short_dia_is_raised() {
    let short = ExponentialCurve::calculate(fx(1.0), fx(100.0), fx(3.0), 75);
    let five = ExponentialCurve::calculate(fx(1.0), fx(100.0), fx(5.0), 75);
    assert_eq!(short, five);
}

#[test]
fn default_peaks() {
    assert_eq!(InsulinCurve::RapidActing.default_peak_time(), 75);
    assert_eq!(InsulinCurve::UltraRapid.default_peak_time(), 55);
    assert_eq!(InsulinCurve::Bilinear.default_peak_time(), 75);
}

#[test]
fn activity_below_a_millionth_is_held_as_nothing() {
    // five minutes before the end of a day of action: 10^-7 U/min
    let late = ExponentialCurve::calculate(fx(1.0), fx(1435.0), fx(24.0), 180);
    let (_, activity) = exponential_reference(1.0, 1435.0, 24.0, 180.0);
    assert!(activity > 0.0 && activity < 0.000_000_5);
    assert_eq!(late.activity_contrib, 0);
    // a millionth of a minute after the dose
    let early = ExponentialCurve::calculate(fx(1.0), 1, fx(5.0), 75);
    assert_eq!(early.activity_contrib, 0);
    // through the middle of the action the activity of one unit is held
    let mut m = 5.0;
    while m <= 240.0 {
        assert!(ExponentialCurve::calculate(fx(1.0), fx(m), fx(5.0), 75).activity_contrib > 0);
        m += 5.0;
    }
}
