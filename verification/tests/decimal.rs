use penplot::decimal::{Decimal, SCALE};

fn text(micros: i64) -> String {
    Decimal::from_micros(micros).to_text()
}

#[test]
fn whole_numbers_have_no_point() {
    assert_eq!(Decimal::from_int(10).to_text(), "10");
    assert_eq!(Decimal::from_int(0).to_text(), "0");
    assert_eq!(Decimal::from_int(-7).to_text(), "-7");
    assert_eq!(Decimal::from_int(10000).to_text(), "10000");
}

#[test]
fn from_int_counts_millionths() {
    assert_eq!(SCALE, 1_000_000);
    assert_eq!(Decimal::from_int(3).micros, 3_000_000);
    assert_eq!(Decimal::from_int(-3).micros, -3_000_000);
    assert_eq!(Decimal::from_int(i32::MAX).micros, 2_147_483_647_000_000);
    assert_eq!(Decimal::from_int(i32::MIN).micros, -2_147_483_648_000_000);
    assert_eq!(Decimal::from_micros(42).micros, 42);
}

#[test]
fn fractions_drop_trailing_zeros() {
    assert_eq!(text(500_000), "0.5");
    assert_eq!(text(10_500_000), "10.5");
    assert_eq!(text(250_000), "0.25");
    assert_eq!(text(100_000), "0.1");
    assert_eq!(text(1_230_000), "1.23");
}

#[test]
fn fractions_keep_leading_zeros() {
    assert_eq!(text(1), "0.000001");
    assert_eq!(text(1_000_001), "1.000001");
    assert_eq!(text(50_000), "0.05");
    assert_eq!(text(7_001_000), "7.001");
    assert_eq!(text(123_456), "0.123456");
}

#[test]
fn negative_numbers_carry_a_sign() {
    assert_eq!(text(-250_000), "-0.25");
    assert_eq!(text(-1), "-0.000001");
    assert_eq!(text(-12_000_000), "-12");
    assert_eq!(text(-12_340_000), "-12.34");
}

#[test]
fn the_ends_of_the_range_are_written_in_full() {
    assert_eq!(text(i64::MAX), "9223372036854.775807");
    assert_eq!(text(i64::MIN), "-9223372036854.775808");
}

#[test]
fn write_to_appends() {
    let mut s = String::from("X");
    Decimal::from_micros(1_500_000).write_to(&mut s);
    s.push_str(" Y");
    Decimal::from_int(-2).write_to(&mut s);
    assert_eq!(s, "X1.5 Y-2");
}
