use oref::text::clone_text;
use oref::text::push_decimal;
use oref::text::push_nat;
use oref::text::text_contains;
use oref::text::text_is;

fn fx(value: f64) -> i64 {
    (value * 1_000_000.0).round() as i64
}

fn decimal(value: i64, digits: u32) -> String {
    let mut out = String::from("=");
    push_decimal(&mut out, value, digits);
    out
}

#[test]
fn decimals_in_text() {
    assert_eq!(decimal(fx(2.05), 2), "=2.05");
    assert_eq!(decimal(fx(3.5), 2), "=3.50");
    assert_eq!(decimal(fx(-0.35), 2), "=-0.35");
    assert_eq!(decimal(fx(0.004), 2), "=0.00");
    assert_eq!(decimal(fx(-0.004), 2), "=0.00");
    assert_eq!(decimal(fx(0.005), 2), "=0.01");
    assert_eq!(decimal(fx(1234.5), 0), "=1235");
    assert_eq!(decimal(fx(-1234.5), 0), "=-1235");
    assert_eq!(decimal(fx(0.4), 0), "=0");
    assert_eq!(decimal(0, 0), "=0");
    assert_eq!(decimal(1_234_567, 6), "=1.234567");
    assert_eq!(decimal(1_000_007, 9), "=1.000007");
    assert_eq!(decimal(fx(12.0), 1), "=12.0");
    assert_eq!(decimal(i64::MAX, 3), "=9223372036854.776");
    assert_eq!(decimal(i64::MIN, 0), "=-9223372036855");
}

#[test]
fn naturals_in_text() {
    let mut out = String::new();
    push_nat(&mut out, 0);
    push_nat(&mut out, 7);
    push_nat(&mut out, 10);
    push_nat(&mut out, 1905);
    push_nat(&mut out, u64::MAX);
    assert_eq!(out, "071019051844674407370955161 5".replace(' ', ""));
}

#[test]
fn text_search() {
    assert!(text_contains("MMT-554", "554"));
    assert!(text_contains("554", "554"));
    assert!(text_contains("anything", ""));
    assert!(text_contains("", ""));
    assert!(!text_contains("", "5"));
    assert!(!text_contains("55", "554"));
    assert!(!text_contains("5x54", "554"));
    assert!(text_contains("5554", "554"));
    assert!(text_contains("↑↑→", "↑→"));
    assert!(!text_contains("↑↑", "→"));
    assert!(text_is(&"Rewind".to_string(), "Rewind"));
    assert!(!text_is(&"Rewind".to_string(), "rewind"));
    assert_eq!(clone_text(&Some("a".to_string())), Some("a".to_string()));
    assert_eq!(clone_text(&None), None);
}
