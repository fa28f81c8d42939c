use penplot::decimal::Decimal;
use penplot::document::PathSegment;
use penplot::geometry::{Point, Rect, Transform};
use penplot::gcode::{write_command, write_op, Command, PathOp};
use penplot::model::DWELL_SECONDS;
use penplot::stripper::{
    check_bounds_and_pause, clamp_to_viewbox, close_path, curve_to, line_to, maybe_pen_down,
    maybe_pen_up, move_to, segment, Params, State,
};
use penplot::xml::{XmlIndent, XmlOptions};

fn d(units: i32) -> Decimal {
    Decimal::from_int(units)
}

fn m(micros: i64) -> Decimal {
    Decimal::from_micros(micros)
}

fn pt(x: i32, y: i32) -> Point {
    Point::new(d(x), d(y))
}

fn fresh() -> State {
    State::new(
        XmlOptions { use_single_quote: false, indent: XmlIndent::Spaces(4), attributes_indent: XmlIndent::Off },
        Params { pen_up_height: d(20), pen_down_height: d(100), max_line_speed: d(10000) },
        Rect::new(d(0), d(0), d(100), d(100)).unwrap(),
    )
}

#[test]
fn a_new_state_has_emitted_nothing() {
    let s = fresh();
    assert_eq!(s.gcode(), "");
    assert_eq!(s.current_svg_path(), "");
    assert!(!s.pen_up());
    assert_eq!(s.current_loc(), pt(0, 0));
    assert_eq!(s.path_start(), None);
}

#[test]
fn commands_are_written_one_a_line() {
    let mut out = String::new();
    write_command(&mut out, Command::PenHeight(d(100)));
    write_command(&mut out, Command::Rapid(Point::new(m(1_500_000), d(-2))));
    write_command(&mut out, Command::Draw(pt(3, 4), m(250_000)));
    write_command(&mut out, Command::Dwell(d(3)));
    assert_eq!(out, "M3 S100\nG0 X1.5 Y-2\nG1 X3 Y4 F0.25\nG4 P3\n");
}

#[test]
fn path_data_is_written_with_trailing_spaces() {
    let mut out = String::new();
    write_op(&mut out, PathOp::MoveTo(pt(1, 2)));
    write_op(&mut out, PathOp::LineTo(Point::new(m(-500_000), d(7))));
    assert_eq!(out, "M 1 2 L -0.5 7 ");
}

#[test]
fn the_border_is_traced_with_the_pen_up() {
    assert_eq!(DWELL_SECONDS, 3);
    let s = check_bounds_and_pause(fresh());
    assert_eq!(
        s.gcode(),
        "M3 S0\nG0 X0 Y0\nG0 X0 Y100\nG0 X100 Y100\nG0 X100 Y0\nG0 X0 Y0\nG4 P3\n"
    );
    assert!(s.pen_up());
    assert_eq!(s.current_loc(), pt(0, 0));
    assert_eq!(s.path_start(), None);
    assert_eq!(s.current_svg_path(), "");
}

#[test]
fn the_pen_is_lifted_once() {
    let s = maybe_pen_up(fresh());
    assert!(s.pen_up());
    assert_eq!(s.gcode(), "M3 S20\n");
    let s = maybe_pen_up(s);
    assert!(s.pen_up());
    assert_eq!(s.gcode(), "M3 S20\n");
}

#[test]
fn the_pen_is_lowered_once() {
    let s = maybe_pen_down(fresh());
    assert!(!s.pen_up());
    assert_eq!(s.gcode(), "");
    let s = maybe_pen_down(maybe_pen_up(s));
    assert!(!s.pen_up());
    assert_eq!(s.gcode(), "M3 S20\nM3 S100\n");
    let s = maybe_pen_down(s);
    assert_eq!(s.gcode(), "M3 S20\nM3 S100\n");
}

#[test]
fn clamping_by_the_state_uses_its_page() {
    let s = fresh();
    assert_eq!(clamp_to_viewbox(&s, d(200), d(0)), (d(100), d(0)));
    assert_eq!(clamp_to_viewbox(&s, d(-1), d(101)), (d(0), d(100)));
    assert_eq!(clamp_to_viewbox(&s, d(40), d(60)), (d(40), d(60)));
}

#[test]
fn a_move_starts_a_subpath() {
    let s = move_to(fresh(), d(200), d(30));
    assert_eq!(s.gcode(), "M3 S20\nG0 X100 Y30\n");
    assert_eq!(s.current_svg_path(), "M 100 30 ");
    assert_eq!(s.current_loc(), pt(100, 30));
    assert_eq!(s.path_start(), Some(pt(100, 30)));
    assert!(s.pen_up());
}

#[test]
fn a_line_draws_and_keeps_the_subpath() {
    let s = line_to(move_to(fresh(), d(1), d(2)), d(50), d(-5));
    assert_eq!(s.gcode(), "M3 S20\nG0 X1 Y2\nM3 S100\nG1 X50 Y0 F10000\n");
    assert_eq!(s.current_svg_path(), "M 1 2 L 50 0 ");
    assert_eq!(s.current_loc(), pt(50, 0));
    assert_eq!(s.path_start(), Some(pt(1, 2)));
    assert!(!s.pen_up());
}

#[test]
fn a_curve_starts_at_the_current_position() {
    let s = move_to(check_bounds_and_pause(fresh()), d(0), d(60));
    let before = s.gcode().len();
    let s = curve_to(s, d(10), d(40), d(20), d(20), d(30), d(0), m(999_999));
    assert_eq!(
        &s.gcode()[before..],
        "M3 S100\nG1 X7.5 Y45 F10000\nG1 X15 Y30 F10000\nG1 X22.5 Y15 F10000\nG1 X30 Y0 F10000\n"
    );
    assert_eq!(s.current_svg_path(), "M 0 60 L 7.5 45 L 15 30 L 22.5 15 L 30 0 ");
    assert_eq!(s.current_loc(), pt(30, 0));
    assert_eq!(s.path_start(), Some(pt(0, 60)));
}

#[test]
fn closing_draws_back_and_forgets_the_start() {
    let s = line_to(move_to(check_bounds_and_pause(fresh()), d(5), d(5)), d(20), d(5));
    let before = s.gcode().len();
    let s = close_path(s);
    assert_eq!(&s.gcode()[before..], "G1 X5 Y5 F10000\n");
    assert_eq!(s.current_svg_path(), "M 5 5 L 20 5 L 5 5 ");
    assert_eq!(s.current_loc(), pt(5, 5));
    assert_eq!(s.path_start(), None);
    let again = s.gcode().len();
    let s = close_path(s);
    assert_eq!(s.gcode().len(), again);
    assert_eq!(s.current_svg_path(), "M 5 5 L 20 5 L 5 5 ");
}

#[test]
fn closing_without_a_start_changes_nothing() {
    let s = line_to(check_bounds_and_pause(fresh()), d(9), d(9));
    let gcode = s.gcode().clone();
    let path = s.current_svg_path().clone();
    let s = close_path(s);
    assert_eq!(s.gcode(), &gcode);
    assert_eq!(s.current_svg_path(), &path);
    assert_eq!(s.current_loc(), pt(9, 9));
    assert_eq!(s.path_start(), None);
    assert!(!s.pen_up());
}

#[test]
fn a_segment_is_transformed_first() {
    let t = Transform { a: d(0), b: d(1), c: d(-1), d: d(0), e: d(50), f: d(0) };
    let s = segment(fresh(), &t, PathSegment::MoveTo { x: d(3), y: d(4) }, d(0));
    assert_eq!(s.gcode(), "M3 S20\nG0 X46 Y3\n");
    let s = segment(s, &t, PathSegment::LineTo { x: d(10), y: d(70) }, d(0));
    assert_eq!(s.current_loc(), pt(0, 10));
    let s = segment(s, &t, PathSegment::ClosePath, d(0));
    assert_eq!(s.current_loc(), pt(46, 3));
    assert_eq!(s.current_svg_path(), "M 46 3 L 0 10 L 46 3 ");
    let curve = PathSegment::CurveTo { x1: d(3), y1: d(4), x2: d(3), y2: d(4), x: d(3), y: d(4) };
    let s = segment(s, &t, curve, d(0));
    assert_eq!(s.current_svg_path(), "M 46 3 L 0 10 L 46 3 L 46 3 L 46 3 L 46 3 L 46 3 ");
}
