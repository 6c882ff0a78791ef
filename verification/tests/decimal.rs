use filecollector::decimal::push_decimal;
use filecollector::decimal::push_signed_decimal;

fn unsigned(n: u64) -> String {
    let mut out = String::new();
    push_decimal(&mut out, n);
    out
}

fn signed(i: i64) -> String {
    let mut out = String::new();
    push_signed_decimal(&mut out, i);
    out
}

#[test]
fn zero_is_a_single_digit() {
    assert_eq!(unsigned(0), "0");
    assert_eq!(signed(0), "0");
}

#[test]
fn digits_come_most_significant_first() {
    assert_eq!(unsigned(7), "7");
    assert_eq!(unsigned(10), "10");
    assert_eq!(unsigned(1234567890), "1234567890");
    assert_eq!(unsigned(1000000), "1000000");
}

#[test]
fn largest_numbers_are_written_in_full() {
    assert_eq!(unsigned(u64::MAX), "18446744073709551615");
    assert_eq!(signed(i64::MAX), "9223372036854775807");
    assert_eq!(signed(i64::MIN), "-9223372036854775808");
}

#[test]
fn negative_numbers_get_a_minus_sign() {
    assert_eq!(signed(-1), "-1");
    assert_eq!(signed(-90), "-90");
    assert_eq!(signed(90), "90");
}

#[test]
fn decimal_appends_to_what_is_there() {
    let mut out = String::from("n=");
    push_decimal(&mut out, 42);
    push_signed_decimal(&mut out, -42);
    assert_eq!(out, "n=42-42");
}

#[test]
fn decimal_agrees_with_std() {
    let samples: [i64; 8] = [0, 1, -1, 9, 10, 99, -100, 4611686018427387904];
    for sample in samples.iter() {
        assert_eq!(signed(*sample), sample.to_string());
    }
}
