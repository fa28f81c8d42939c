use penplot::decimal::Decimal;
use penplot::flatten::{
    bezier_to_lines, segment_count, ARCLEN_ACCURACY_MICROS, MIN_SEGMENTS, SEGMENTS_PER_UNIT,
};
use penplot::geometry::{CubicBez, Point};

fn d(units: i32) -> Decimal {
    Decimal::from_int(units)
}

fn m(micros: i64) -> Decimal {
    Decimal::from_micros(micros)
}

fn pt(x: i32, y: i32) -> Point {
    Point::new(d(x), d(y))
}

#[test]
fn the_constants_of_flattening() {
    assert_eq!(MIN_SEGMENTS, 4);
    assert_eq!(SEGMENTS_PER_UNIT, 10);
    assert_eq!(ARCLEN_ACCURACY_MICROS, 10_000);
}

#[test]
fn short_curves_get_four_segments() {
    assert_eq!(segment_count(d(0)), 4);
    assert_eq!(segment_count(m(1)), 4);
    assert_eq!(segment_count(m(399_999)), 4);
    assert_eq!(segment_count(m(999_999)), 4);
}

#[test]
fn odd_lengths_get_four_segments() {
    assert_eq!(segment_count(d(-1)), 4);
    assert_eq!(segment_count(m(i64::MIN)), 4);
}

#[test]
fn long_curves_get_ten_segments_a_unit() {
    assert_eq!(segment_count(d(1)), 10);
    assert_eq!(segment_count(m(1_500_000)), 10);
    assert_eq!(segment_count(m(1_999_999)), 10);
    assert_eq!(segment_count(d(2)), 20);
    assert_eq!(segment_count(m(14_142_135)), 140);
    assert_eq!(segment_count(m(i64::MAX)), 92_233_720_368_540);
}

#[test]
fn flattening_spans_the_curve() {
    let bez = CubicBez::new(pt(0, 0), pt(0, 8), pt(8, 8), pt(8, 0));
    let lines = bezier_to_lines(bez, m(16_000_000));
    assert_eq!(lines.len(), 160);
    assert_eq!(lines[0].p0, pt(0, 0));
    assert_eq!(lines[159].p1, pt(8, 0));
    for k in 1..lines.len() {
        assert_eq!(lines[k].p0, lines[k - 1].p1);
    }
    assert_eq!(lines[79].p1, pt(4, 6));
}

#[test]
fn flattening_a_short_curve() {
    let bez = CubicBez::new(pt(0, 0), pt(10, 20), pt(20, 40), pt(30, 60));
    let lines = bezier_to_lines(bez, m(300_000));
    assert_eq!(lines.len(), 4);
    assert_eq!(lines[0].p0, pt(0, 0));
    assert_eq!(lines[0].p1, Point::new(m(7_500_000), d(15)));
    assert_eq!(lines[1].p1, pt(15, 30));
    assert_eq!(lines[2].p1, Point::new(m(22_500_000), d(45)));
    assert_eq!(lines[3].p1, pt(30, 60));
}
