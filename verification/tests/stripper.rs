use penplot::decimal::Decimal;
use penplot::document::{Document, Path, PathSegment};
use penplot::geometry::{CubicBez, Point, Rect, Size, Transform};
use penplot::stripper::{curves, strip, Params, StripError};
use penplot::xml::{XmlIndent, XmlOptions};

fn d(units: i32) -> Decimal {
    Decimal::from_int(units)
}

fn m(micros: i64) -> Decimal {
    Decimal::from_micros(micros)
}

fn pt(x: i32, y: i32) -> Point {
    Point::new(d(x), d(y))
}

fn params() -> Params {
    Params { pen_up_height: d(20), pen_down_height: d(100), max_line_speed: d(10000) }
}

fn options() -> XmlOptions {
    XmlOptions { use_single_quote: false, indent: XmlIndent::Spaces(4), attributes_indent: XmlIndent::Off }
}

fn page(paths: Vec<Path>) -> Document {
    Document {
        view_box: Rect::new(d(0), d(0), d(100), d(100)).unwrap(),
        size: Size { width: d(100), height: d(100) },
        paths,
    }
}

fn path(data: Vec<PathSegment>) -> Path {
    Path { transform: Transform::identity(), data }
}

fn move_to(x: i32, y: i32) -> PathSegment {
    PathSegment::MoveTo { x: d(x), y: d(y) }
}

fn line_to(x: i32, y: i32) -> PathSegment {
    PathSegment::LineTo { x: d(x), y: d(y) }
}

const PREAMBLE: &str = "M3 S0\nG0 X0 Y0\nG0 X0 Y100\nG0 X100 Y100\nG0 X100 Y0\nG0 X0 Y0\nG4 P3\n";
const FINALE: &str = "M3 S0\nG0 X0 Y0\n";
const HEAD: &str = "<svg xmlns=\"http://www.w3.org/2000/svg\" viewBox=\"0 0 100 100\" width=\"100\" height=\"100\">\n    <path stroke=\"red\" fill=\"none\" d=\"M 0 0 L 0 0 L 0 100 L 100 100 L 100 0 L 0 0 \"/>\n";

fn black(d: &str) -> String {
    format!("    <path stroke-width=\"0.1\" stroke=\"black\" fill=\"none\" d=\"{}\"/>\n", d)
}

fn body(gcode: &str) -> &str {
    assert!(gcode.starts_with(PREAMBLE));
    assert!(gcode.ends_with(FINALE));
    &gcode[PREAMBLE.len()..gcode.len() - FINALE.len()]
}

#[test]
fn an_empty_document_is_border_and_finale() {
    let (svg, gcode) = strip(&page(vec![]), options(), &params(), &vec![]).unwrap();
    assert_eq!(gcode, format!("{}{}", PREAMBLE, FINALE));
    assert_eq!(svg, format!("{}</svg>\n", HEAD));
}

#[test]
fn a_line_is_drawn_with_the_pen_down() {
    let doc = page(vec![path(vec![move_to(0, 0), line_to(10, 10)])]);
    let (svg, gcode) = strip(&doc, options(), &params(), &vec![]).unwrap();
    assert_eq!(
        gcode,
        format!("{}G0 X0 Y0\nM3 S100\nG1 X10 Y10 F10000\n{}", PREAMBLE, FINALE)
    );
    assert_eq!(svg, format!("{}{}</svg>\n", HEAD, black("M 0 0 L 10 10 ")));
    assert!(!body(&gcode).contains("G0 X10 Y10"));
}

#[test]
fn a_move_outside_the_page_is_clamped() {
    let doc = page(vec![path(vec![move_to(200, 0), line_to(10, 10)])]);
    let (svg, gcode) = strip(&doc, options(), &params(), &vec![]).unwrap();
    assert_eq!(
        gcode,
        format!("{}G0 X100 Y0\nM3 S100\nG1 X10 Y10 F10000\n{}", PREAMBLE, FINALE)
    );
    assert!(!gcode.contains("X200"));
    assert_eq!(svg, format!("{}{}</svg>\n", HEAD, black("M 100 0 L 10 10 ")));
}

#[test]
fn close_path_draws_back_to_the_start() {
    let doc = page(vec![path(vec![move_to(5, 5), line_to(20, 5), PathSegment::ClosePath])]);
    let (svg, gcode) = strip(&doc, options(), &params(), &vec![]).unwrap();
    assert_eq!(
        body(&gcode),
        "G0 X5 Y5\nM3 S100\nG1 X20 Y5 F10000\nG1 X5 Y5 F10000\n"
    );
    assert_eq!(svg, format!("{}{}</svg>\n", HEAD, black("M 5 5 L 20 5 L 5 5 ")));
}

#[test]
fn two_paths_share_one_border_and_one_finale() {
    let doc = page(vec![
        path(vec![move_to(1, 1), line_to(2, 2)]),
        path(vec![move_to(3, 3), line_to(4, 4)]),
    ]);
    let (svg, gcode) = strip(&doc, options(), &params(), &vec![]).unwrap();
    assert_eq!(
        body(&gcode),
        "G0 X1 Y1\nM3 S100\nG1 X2 Y2 F10000\nM3 S20\nG0 X3 Y3\nM3 S100\nG1 X4 Y4 F10000\n"
    );
    assert_eq!(gcode.matches("G4 P3\n").count(), 1);
    assert_eq!(gcode.matches(PREAMBLE).count(), 1);
    assert_eq!(gcode.matches("M3 S0\n").count(), 2);
    assert!(gcode.ends_with("G1 X4 Y4 F10000\nM3 S0\nG0 X0 Y0\n"));
    assert_eq!(svg.matches("stroke=\"red\"").count(), 1);
    assert_eq!(
        svg,
        format!("{}{}{}</svg>\n", HEAD, black("M 1 1 L 2 2 "), black("M 3 3 L 4 4 "))
    );
}

#[test]
fn the_pen_moves_only_when_its_state_changes() {
    let doc = page(vec![path(vec![
        move_to(1, 1),
        move_to(2, 2),
        line_to(3, 3),
        line_to(4, 4),
        move_to(5, 5),
        PathSegment::ClosePath,
        PathSegment::ClosePath,
    ])]);
    let (_, gcode) = strip(&doc, options(), &params(), &vec![]).unwrap();
    assert_eq!(
        body(&gcode),
        "G0 X1 Y1\nG0 X2 Y2\nM3 S100\nG1 X3 Y3 F10000\nG1 X4 Y4 F10000\nM3 S20\nG0 X5 Y5\nM3 S100\nG1 X5 Y5 F10000\n"
    );
}

#[test]
fn close_path_without_a_move_does_nothing() {
    let doc = page(vec![path(vec![PathSegment::ClosePath])]);
    let (svg, gcode) = strip(&doc, options(), &params(), &vec![]).unwrap();
    assert_eq!(body(&gcode), "");
    assert_eq!(svg, format!("{}{}</svg>\n", HEAD, black("")));
}

#[test]
fn a_subpath_does_not_outlive_its_path() {
    let doc = page(vec![
        path(vec![move_to(5, 5), line_to(6, 6)]),
        path(vec![PathSegment::ClosePath, line_to(7, 7)]),
    ]);
    let (svg, gcode) = strip(&doc, options(), &params(), &vec![]).unwrap();
    assert_eq!(body(&gcode), "G0 X5 Y5\nM3 S100\nG1 X6 Y6 F10000\nG1 X7 Y7 F10000\n");
    assert_eq!(svg, format!("{}{}{}</svg>\n", HEAD, black("M 5 5 L 6 6 "), black("L 7 7 ")));
}

#[test]
fn the_transform_comes_before_the_clamp() {
    let t = Transform { a: d(2), b: d(0), c: d(0), d: d(2), e: d(-10), f: m(500_000) };
    let doc = page(vec![Path { transform: t, data: vec![move_to(1, 1), line_to(60, 20)] }]);
    let (svg, gcode) = strip(&doc, options(), &params(), &vec![]).unwrap();
    assert_eq!(body(&gcode), "G0 X0 Y2.5\nM3 S100\nG1 X100 Y40.5 F10000\n");
    assert_eq!(svg, format!("{}{}</svg>\n", HEAD, black("M 0 2.5 L 100 40.5 ")));
}

#[test]
fn a_curve_is_drawn_as_lines() {
    let curve = PathSegment::CurveTo { x1: d(10), y1: d(20), x2: d(20), y2: d(40), x: d(30), y: d(60) };
    let doc = page(vec![path(vec![move_to(0, 0), curve])]);
    let found = curves(&doc).unwrap();
    assert_eq!(found, vec![CubicBez::new(pt(0, 0), pt(10, 20), pt(20, 40), pt(30, 60))]);
    let (svg, gcode) = strip(&doc, options(), &params(), &vec![m(300_000)]).unwrap();
    assert_eq!(
        body(&gcode),
        "G0 X0 Y0\nM3 S100\nG1 X7.5 Y15 F10000\nG1 X15 Y30 F10000\nG1 X22.5 Y45 F10000\nG1 X30 Y60 F10000\n"
    );
    assert_eq!(
        svg,
        format!("{}{}</svg>\n", HEAD, black("M 0 0 L 7.5 15 L 15 30 L 22.5 45 L 30 60 "))
    );
}

#[test]
fn a_long_curve_gets_ten_lines_a_unit() {
    let curve = PathSegment::CurveTo { x1: d(0), y1: d(8), x2: d(8), y2: d(8), x: d(8), y: d(0) };
    let doc = page(vec![path(vec![move_to(0, 0), curve])]);
    let (svg, gcode) = strip(&doc, options(), &params(), &vec![m(16_000_000)]).unwrap();
    assert_eq!(body(&gcode).matches("G1 ").count(), 160);
    assert_eq!(svg.matches("L ").count(), 5 + 160);
    assert!(body(&gcode).ends_with("G1 X8 Y0 F10000\n"));
    assert!(body(&gcode).contains("G1 X4 Y6 F10000\n"));
}

#[test]
fn a_curve_leaves_the_page_only_up_to_its_edge() {
    let curve = PathSegment::CurveTo { x1: d(50), y1: d(400), x2: d(50), y2: d(400), x: d(90), y: d(90) };
    let doc = page(vec![path(vec![move_to(10, 90), curve])]);
    let (_, gcode) = strip(&doc, options(), &params(), &vec![d(0)]).unwrap();
    assert_eq!(
        body(&gcode),
        "G0 X10 Y90\nM3 S100\nG1 X33.75 Y100 F10000\nG1 X50 Y100 F10000\nG1 X66.25 Y100 F10000\nG1 X90 Y90 F10000\n"
    );
}

#[test]
fn curves_start_where_the_pen_is() {
    let c = |x: i32| PathSegment::CurveTo { x1: d(1), y1: d(2), x2: d(3), y2: d(4), x: d(x), y: d(5) };
    let doc = page(vec![
        path(vec![c(200), c(7), move_to(-5, 50), c(8), line_to(9, 9), c(6), PathSegment::ClosePath, c(5)]),
        path(vec![c(4), PathSegment::ClosePath, c(3)]),
    ]);
    let starts: Vec<Point> = curves(&doc).unwrap().iter().map(|b| b.p0).collect();
    assert_eq!(
        starts,
        vec![pt(0, 0), pt(100, 5), pt(0, 50), pt(9, 9), pt(0, 50), pt(5, 5), pt(4, 5)]
    );
    let ends: Vec<Point> = curves(&doc).unwrap().iter().map(|b| b.p3).collect();
    assert_eq!(ends[0], pt(200, 5));
    let lens = vec![d(0); 7];
    let (_, gcode) = strip(&doc, options(), &params(), &lens).unwrap();
    assert_eq!(body(&gcode).matches("G1 ").count(), 7 * 4 + 1 + 1);
}

#[test]
fn arc_lengths_must_match_the_curves() {
    let curve = PathSegment::CurveTo { x1: d(10), y1: d(20), x2: d(20), y2: d(40), x: d(30), y: d(60) };
    let doc = page(vec![path(vec![move_to(0, 0), curve]), path(vec![curve, line_to(1, 1)])]);
    assert_eq!(strip(&doc, options(), &params(), &vec![]), Err(StripError::ArcLengthCount));
    assert_eq!(strip(&doc, options(), &params(), &vec![d(1)]), Err(StripError::ArcLengthCount));
    assert_eq!(strip(&doc, options(), &params(), &vec![d(1); 3]), Err(StripError::ArcLengthCount));
    assert!(strip(&doc, options(), &params(), &vec![d(1); 2]).is_ok());
    let no_curves = page(vec![path(vec![move_to(0, 0)])]);
    assert_eq!(strip(&no_curves, options(), &params(), &vec![d(1)]), Err(StripError::ArcLengthCount));
}

#[test]
fn the_page_must_be_a_rectangle() {
    let mut doc = page(vec![]);
    doc.view_box = Rect { x: d(0), y: d(0), width: d(0), height: d(10) };
    assert_eq!(strip(&doc, options(), &params(), &vec![]), Err(StripError::InvalidViewBox));
    assert_eq!(curves(&doc), Err(StripError::InvalidViewBox));
    doc.view_box = Rect { x: m(i64::MAX), y: d(0), width: d(1), height: d(10) };
    assert_eq!(strip(&doc, options(), &params(), &vec![d(1)]), Err(StripError::InvalidViewBox));
    assert_eq!(curves(&doc), Err(StripError::InvalidViewBox));
}

#[test]
fn the_page_need_not_start_at_the_origin() {
    let doc = Document {
        view_box: Rect::new(d(-10), m(2_500_000), d(30), d(5)).unwrap(),
        size: Size { width: d(300), height: m(50_250_000) },
        paths: vec![path(vec![move_to(-20, 0), line_to(25, 9)])],
    };
    let (svg, gcode) = strip(&doc, options(), &params(), &vec![]).unwrap();
    assert_eq!(
        gcode,
        "M3 S0\nG0 X-10 Y2.5\nG0 X-10 Y7.5\nG0 X20 Y7.5\nG0 X20 Y2.5\nG0 X-10 Y2.5\nG4 P3\nG0 X-10 Y2.5\nM3 S100\nG1 X20 Y7.5 F10000\nM3 S0\nG0 X0 Y0\n"
    );
    assert_eq!(
        svg,
        "<svg xmlns=\"http://www.w3.org/2000/svg\" viewBox=\"-10 2.5 30 5\" width=\"300\" height=\"50.25\">\n    <path stroke=\"red\" fill=\"none\" d=\"M -10 2.5 L -10 2.5 L -10 7.5 L 20 7.5 L 20 2.5 L -10 2.5 \"/>\n    <path stroke-width=\"0.1\" stroke=\"black\" fill=\"none\" d=\"M -10 2.5 L 20 7.5 \"/>\n</svg>\n"
    );
}

#[test]
fn the_markup_follows_the_options() {
    let doc = page(vec![path(vec![move_to(1, 1)])]);
    let flat = XmlOptions { use_single_quote: true, indent: XmlIndent::Off, attributes_indent: XmlIndent::Off };
    let (svg, _) = strip(&doc, flat, &params(), &vec![]).unwrap();
    assert_eq!(
        svg,
        "<svg xmlns='http://www.w3.org/2000/svg' viewBox='0 0 100 100' width='100' height='100'><path stroke='red' fill='none' d='M 0 0 L 0 0 L 0 100 L 100 100 L 100 0 L 0 0 '/><path stroke-width='0.1' stroke='black' fill='none' d='M 1 1 '/></svg>"
    );
    let tabs = XmlOptions { use_single_quote: false, indent: XmlIndent::Tabs, attributes_indent: XmlIndent::Spaces(2) };
    let (svg, _) = strip(&page(vec![]), tabs, &params(), &vec![]).unwrap();
    assert_eq!(
        svg,
        "<svg\n  xmlns=\"http://www.w3.org/2000/svg\"\n  viewBox=\"0 0 100 100\"\n  width=\"100\"\n  height=\"100\">\n\t<path\n\t  stroke=\"red\"\n\t  fill=\"none\"\n\t  d=\"M 0 0 L 0 0 L 0 100 L 100 100 L 100 0 L 0 0 \"/>\n</svg>\n"
    );
}

#[test]
fn heights_and_speed_come_from_the_configuration() {
    let p = Params { pen_up_height: m(1_500_000), pen_down_height: m(-250_000), max_line_speed: d(7) };
    let doc = page(vec![path(vec![move_to(1, 1), line_to(2, 2), move_to(3, 3)])]);
    let (_, gcode) = strip(&doc, options(), &p, &vec![]).unwrap();
    assert_eq!(body(&gcode), "G0 X1 Y1\nM3 S-0.25\nG1 X2 Y2 F7\nM3 S1.5\nG0 X3 Y3\n");
}

#[test]
fn the_drawn_points_are_the_points_of_the_drawing() {
    let curve = PathSegment::CurveTo { x1: d(50), y1: d(400), x2: d(50), y2: d(-400), x: d(90), y: d(90) };
    let doc = page(vec![
        path(vec![move_to(10, 90), curve, line_to(-3, 7), PathSegment::ClosePath]),
        path(vec![move_to(1, 2), move_to(3, 4), line_to(500, 500)]),
    ]);
    let (svg, gcode) = strip(&doc, options(), &params(), &vec![m(3_300_000)]).unwrap();
    let mut moves: Vec<String> = Vec::new();
    for line in body(&gcode).lines() {
        let words: Vec<&str> = line.split(' ').collect();
        match words[0] {
            "G0" => moves.push(format!("M {} {}", &words[1][1..], &words[2][1..])),
            "G1" => moves.push(format!("L {} {}", &words[1][1..], &words[2][1..])),
            _ => {}
        }
    }
    let mut drawn: Vec<String> = Vec::new();
    for element in svg.lines().filter(|l| l.contains("stroke=\"black\"")) {
        let d = element.split(" d=\"").nth(1).unwrap().split('"').next().unwrap();
        let words: Vec<&str> = d.split(' ').filter(|w| !w.is_empty()).collect();
        for op in words.chunks(3) {
            drawn.push(format!("{} {} {}", op[0], op[1], op[2]));
        }
    }
    assert_eq!(moves.len(), 1 + 30 + 1 + 1 + 3);
    assert_eq!(moves, drawn);
}
