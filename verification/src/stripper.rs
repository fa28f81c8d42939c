//! The conversion itself: one pass over a document that writes the motion program
//! and the normalized drawing side by side.

use vstd::prelude::*;
use vstd::string::*;
use crate::decimal::Decimal;
use crate::document::{
    count_curves, count_curves_prefix, count_path_curves, count_path_curves_prefix, Document, Path,
    PathSegment,
};
use crate::flatten::bezier_to_lines;
use crate::gcode::{
    path_text, path_text_push, program_text, program_text_push, write_command, write_op, Command,
    PathOp,
};
use crate::geometry::{CubicBez, Point, Rect, Size, Transform};
use crate::model::{
    border_events, border_path, border_program, document_curves, final_program, header_events,
    path_open_events, plot, view_box_text, Cursor, Emission, DWELL_SECONDS,
};
use crate::xml::{
    tag_is_open, xml_document, xml_end_document, xml_end_element, xml_events, xml_new,
    xml_options, xml_start_element, xml_write_attribute, XmlEvent, XmlOptions,
};

verus! {

/// The configuration of one conversion.
#[derive(Clone, Copy, Debug, PartialEq, Eq, Structural)]
pub struct Params {
    /// The height sent to the pen to lift it.
    pub pen_up_height: Decimal,
    /// The height sent to the pen to lower it.
    pub pen_down_height: Decimal,
    /// The feed rate of every drawing move.
    pub max_line_speed: Decimal,
}

/// The state of a conversion under way.
pub struct State {
    svg: xmlwriter::XmlWriter,
    gcode: String,
    pen_up: bool,
    current_svg_path: String,
    current_loc: Point,
    path_start: Option<Point>,
    params: Params,
    view_box: Rect,
    program: Ghost<Seq<Command>>,
    path: Ghost<Seq<PathOp>>,
    curves: Ghost<Seq<CubicBez>>,
}

impl State {
    /// The two texts are the texts of what has been emitted, and the page is a rectangle.
    #[verifier::type_invariant]
    spec fn inv(self) -> bool {
        &&& self.gcode@ == program_text(self.program@)
        &&& self.current_svg_path@ == path_text(self.path@)
        &&& self.view_box.wf()
    }

    /// What the conversion has emitted and remembers.
    pub closed spec fn view(&self) -> Emission {
        Emission {
            options: xml_options(self.svg),
            events: xml_events(self.svg),
            program: self.program@,
            path: self.path@,
            pen_up: self.pen_up,
            current_loc: self.current_loc,
            path_start: self.path_start,
            curves: self.curves@,
            params: self.params,
            view_box: self.view_box,
        }
    }

    /// The state of a conversion that has not emitted anything yet.
    pub fn new(options: XmlOptions, params: Params, view_box: Rect) -> (state: State)
        requires
            view_box.wf(),
        ensures
            state@ == Emission::start(options, params, view_box),
    {
        State {
            svg: xml_new(options),
            gcode: String::new(),
            pen_up: false,
            current_svg_path: String::new(),
            current_loc: Point { x: Decimal { micros: 0 }, y: Decimal { micros: 0 } },
            path_start: None,
            params,
            view_box,
            program: Ghost(Seq::empty()),
            path: Ghost(Seq::empty()),
            curves: Ghost(Seq::empty()),
        }
    }

    /// The text of the motion program so far.
    pub fn gcode(&self) -> (text: &String)
        ensures
            text@ == program_text(self@.program),
    {
        proof {
            use_type_invariant(self);
        }
        &self.gcode
    }

    /// The text of the path data of the open path.
    pub fn current_svg_path(&self) -> (text: &String)
        ensures
            text@ == path_text(self@.path),
    {
        proof {
            use_type_invariant(self);
        }
        &self.current_svg_path
    }

    /// Whether the pen is known to be lifted.
    pub fn pen_up(&self) -> (up: bool)
        ensures
            up == self@.pen_up,
    {
        self.pen_up
    }

    /// The last position sent to the device by a path.
    pub fn current_loc(&self) -> (p: Point)
        ensures
            p == self@.current_loc,
    {
        self.current_loc
    }

    /// Where the current subpath started, if a move has started one.
    pub fn path_start(&self) -> (p: Option<Point>)
        ensures
            p == self@.path_start,
    {
        self.path_start
    }

    /// Starts an element of the normalized drawing.
    fn start_element(self, name: &str) -> (out: State)
        ensures
            out@ == (Emission { events: self@.events.push(XmlEvent::Start(name@)), ..self@ }),
    {
        proof {
            use_type_invariant(&self);
        }
        let State {
            svg,
            gcode,
            pen_up,
            current_svg_path,
            current_loc,
            path_start,
            params,
            view_box,
            program,
            path,
            curves,
        } = self;
        let mut svg = svg;
        xml_start_element(&mut svg, name);
        State {
            svg,
            gcode,
            pen_up,
            current_svg_path,
            current_loc,
            path_start,
            params,
            view_box,
            program,
            path,
            curves,
        }
    }

    /// Writes an attribute into the start tag that is open.
    fn attribute(self, name: &str, value: &str) -> (out: State)
        requires
            tag_is_open(self@.events),
        ensures
            out@ == (Emission {
                events: self@.events.push(XmlEvent::Attribute(name@, value@)),
                ..self@
            }),
    {
        proof {
            use_type_invariant(&self);
        }
        let State {
            svg,
            gcode,
            pen_up,
            current_svg_path,
            current_loc,
            path_start,
            params,
            view_box,
            program,
            path,
            curves,
        } = self;
        let mut svg = svg;
        xml_write_attribute(&mut svg, name, value);
        State {
            svg,
            gcode,
            pen_up,
            current_svg_path,
            current_loc,
            path_start,
            params,
            view_box,
            program,
            path,
            curves,
        }
    }

    /// Ends the innermost open element of the normalized drawing.
    fn end_element(self) -> (out: State)
        ensures
            out@ == (Emission { events: self@.events.push(XmlEvent::End), ..self@ }),
    {
        proof {
            use_type_invariant(&self);
        }
        let State {
            svg,
            gcode,
            pen_up,
            current_svg_path,
            current_loc,
            path_start,
            params,
            view_box,
            program,
            path,
            curves,
        } = self;
        let mut svg = svg;
        xml_end_element(&mut svg);
        State {
            svg,
            gcode,
            pen_up,
            current_svg_path,
            current_loc,
            path_start,
            params,
            view_box,
            program,
            path,
            curves,
        }
    }

    /// Notes a curve that is about to be flattened.
    fn record(self, Ghost(bez): Ghost<CubicBez>) -> (out: State)
        ensures
            out@ == (Emission { curves: self@.curves.push(bez), ..self@ }),
    {
        let mut out = self;
        proof {
            use_type_invariant(&out);
        }
        out.curves = Ghost(out.curves@.push(bez));
        out
    }

    /// Adds a command to the motion program.
    fn emit(self, c: Command) -> (out: State)
        ensures
            out@ == (Emission { program: self@.program.push(c), ..self@ }),
    {
        proof {
            use_type_invariant(&self);
            program_text_push(self.program@, c);
        }
        let State {
            svg,
            gcode,
            pen_up,
            current_svg_path,
            current_loc,
            path_start,
            params,
            view_box,
            program,
            path,
            curves,
        } = self;
        let mut gcode = gcode;
        write_command(&mut gcode, c);
        State {
            svg,
            gcode,
            pen_up,
            current_svg_path,
            current_loc,
            path_start,
            params,
            view_box,
            program: Ghost(program@.push(c)),
            path,
            curves,
        }
    }

    /// Adds a step to the path data of the open path.
    fn trace(self, op: PathOp) -> (out: State)
        ensures
            out@ == (Emission { path: self@.path.push(op), ..self@ }),
    {
        proof {
            use_type_invariant(&self);
            path_text_push(self.path@, op);
        }
        let State {
            svg,
            gcode,
            pen_up,
            current_svg_path,
            current_loc,
            path_start,
            params,
            view_box,
            program,
            path,
            curves,
        } = self;
        let mut current_svg_path = current_svg_path;
        write_op(&mut current_svg_path, op);
        State {
            svg,
            gcode,
            pen_up,
            current_svg_path,
            current_loc,
            path_start,
            params,
            view_box,
            program,
            path: Ghost(path@.push(op)),
            curves,
        }
    }
}

/// Lifts the pen, unless it is up already.
pub fn maybe_pen_up(state: State) -> (out: State)
    ensures
        out@ == state@.maybe_pen_up(),
{
    if !state.pen_up {
        let height = state.params.pen_up_height;
        let mut out = state.emit(Command::PenHeight(height));
        proof {
            use_type_invariant(&out);
        }
        out.pen_up = true;
        out
    } else {
        state
    }
}

/// Lowers the pen, unless it is down already.
pub fn maybe_pen_down(state: State) -> (out: State)
    ensures
        out@ == state@.maybe_pen_down(),
{
    if state.pen_up {
        let height = state.params.pen_down_height;
        let mut out = state.emit(Command::PenHeight(height));
        proof {
            use_type_invariant(&out);
        }
        out.pen_up = false;
        out
    } else {
        state
    }
}

/// The point of the page nearest to `(x, y)`.
pub fn clamp_to_viewbox(state: &State, x: Decimal, y: Decimal) -> (p: (Decimal, Decimal))
    ensures
        (Point { x: p.0, y: p.1 }) == state@.view_box.clamp_spec(Point { x, y }),
        state@.view_box.contains(Point { x: p.0, y: p.1 }),
{
    proof {
        use_type_invariant(state);
    }
    let q = state.view_box.clamp(Point { x, y });
    (q.x, q.y)
}

/// Starts a subpath at the point of the page nearest to `(x, y)`.
pub fn move_to(state: State, x: Decimal, y: Decimal) -> (out: State)
    ensures
        out@ == state@.move_to(x, y),
{
    let state = maybe_pen_up(state);
    let (x, y) = clamp_to_viewbox(&state, x, y);
    let p = Point { x, y };
    let mut out = state.emit(Command::Rapid(p)).trace(PathOp::MoveTo(p));
    proof {
        use_type_invariant(&out);
    }
    out.path_start = Some(p);
    out.current_loc = p;
    out
}

/// Draws a line to the point of the page nearest to `(x, y)`.
pub fn line_to(state: State, x: Decimal, y: Decimal) -> (out: State)
    ensures
        out@ == state@.line_to(x, y),
{
    let state = maybe_pen_down(state);
    let (x, y) = clamp_to_viewbox(&state, x, y);
    let p = Point { x, y };
    let speed = state.params.max_line_speed;
    let mut out = state.emit(Command::Draw(p, speed)).trace(PathOp::LineTo(p));
    proof {
        use_type_invariant(&out);
    }
    out.current_loc = p;
    out
}

/// Draws a curve of length `arclen` from the current position to `(x, y)`, with
/// control points `(x1, y1)` and `(x2, y2)`, as a sequence of lines.
pub fn curve_to(
    state: State,
    x1: Decimal,
    y1: Decimal,
    x2: Decimal,
    y2: Decimal,
    x: Decimal,
    y: Decimal,
    arclen: Decimal,
) -> (out: State)
    ensures
        out@ == state@.curve_to(x1, y1, x2, y2, x, y, arclen),
        out@.events == state@.events,
        out@.options == state@.options,
{
    let bez = CubicBez::new(
        state.current_loc,
        Point::new(x1, y1),
        Point::new(x2, y2),
        Point::new(x, y),
    );
    let lines = bezier_to_lines(bez, arclen);
    let ghost found = state@;
    let mut state = state.record(Ghost(bez));
    let ghost before = state@;
    let mut k: usize = 0;
    while k < lines.len()
        invariant
            k <= lines.len(),
            state@ == before.lines_to(lines@.take(k as int)),
            state@.events == found.events,
            state@.options == found.options,
        decreases lines.len() - k,
    {
        let end = lines[k].end();
        state = line_to(state, end.x, end.y);
        k = k + 1;
        assert(lines@.take(k as int).drop_last() =~= lines@.take(k - 1));
    }
    assert(lines@.take(k as int) =~= lines@);
    state
}

/// Closes the subpath: draws a line back to its start and forgets the start. Where
/// no move has started a subpath, the state is returned as it came.
pub fn close_path(state: State) -> (out: State)
    ensures
        out@ == state@.close_path(),
        state@.path_start is None ==> out@ == state@,
{
    match state.path_start {
        Some(p) => {
            let mut out = line_to(state, p.x, p.y);
            proof {
                use_type_invariant(&out);
            }
            out.path_start = None;
            out
        },
        None => state,
    }
}

/// Why a document could not be converted.
#[derive(Clone, Copy, Debug, PartialEq, Eq, Structural)]
pub enum StripError {
    /// The page is not a rectangle: an extent is not positive, or a far edge lies
    /// beyond the largest number.
    InvalidViewBox,
    /// The arc lengths given are not as many as the document's curves.
    ArcLengthCount,
}

/// Opens the root element of the normalized drawing.
fn write_header(state: State, size: Size) -> (out: State)
    ensures
        out@ == state@.header(size),
{
    let view_box = state.view_box;
    let mut text = String::new();
    view_box.x.write_to(&mut text);
    text.append(" ");
    view_box.y.write_to(&mut text);
    text.append(" ");
    view_box.width.write_to(&mut text);
    text.append(" ");
    view_box.height.write_to(&mut text);
    assert(text@ =~= view_box_text(view_box));
    let width = size.width.to_text();
    let height = size.height.to_text();
    let out = state.start_element("svg").attribute("xmlns", "http://www.w3.org/2000/svg")
        .attribute("viewBox", text.as_str()).attribute("width", width.as_str()).attribute(
        "height",
        height.as_str(),
    );
    assert(out@.events =~= state@.events + header_events(view_box, size));
    out
}

/// One corner of the border trace: a rapid move there, and a line in the border's
/// path data.
fn do_corner(state: State, path: &mut String, corner: Point, Ghost(ops): Ghost<Seq<PathOp>>) -> (out:
    State)
    requires
        old(path)@ == path_text(ops),
    ensures
        out@ == (Emission { program: state@.program.push(Command::Rapid(corner)), ..state@ }),
        final(path)@ == path_text(ops.push(PathOp::LineTo(corner))),
{
    write_op(path, PathOp::LineTo(corner));
    proof {
        path_text_push(ops, PathOp::LineTo(corner));
    }
    state.emit(Command::Rapid(corner))
}

/// Traces the border of the page with the pen up, shows it in the normalized
/// drawing, and pauses so that the page can be aligned.
pub fn check_bounds_and_pause(state: State) -> (out: State)
    ensures
        out@ == state@.check_bounds_and_pause(),
{
    proof {
        use_type_invariant(&state);
    }
    let ghost before = state@;
    let r = state.view_box;
    let top_left = Point::new(r.left(), r.top());
    let bottom_left = Point::new(r.left(), r.bottom());
    let bottom_right = Point::new(r.right(), r.bottom());
    let top_right = Point::new(r.right(), r.top());

    let state = state.start_element("path").attribute("stroke", "red").attribute("fill", "none");
    let state = state.emit(Command::PenHeight(Decimal::from_int(0)));

    let mut path = String::new();
    write_op(&mut path, PathOp::MoveTo(top_left));
    let ghost ops0 = Seq::<PathOp>::empty().push(PathOp::MoveTo(top_left));
    proof {
        path_text_push(Seq::<PathOp>::empty(), PathOp::MoveTo(top_left));
    }
    let state = do_corner(state, &mut path, top_left, Ghost(ops0));
    let ghost ops1 = ops0.push(PathOp::LineTo(top_left));
    let state = do_corner(state, &mut path, bottom_left, Ghost(ops1));
    let ghost ops2 = ops1.push(PathOp::LineTo(bottom_left));
    let state = do_corner(state, &mut path, bottom_right, Ghost(ops2));
    let ghost ops3 = ops2.push(PathOp::LineTo(bottom_right));
    let state = do_corner(state, &mut path, top_right, Ghost(ops3));
    let ghost ops4 = ops3.push(PathOp::LineTo(top_right));
    let state = do_corner(state, &mut path, top_left, Ghost(ops4));
    let ghost ops5 = ops4.push(PathOp::LineTo(top_left));
    assert(ops5 =~= border_path(r));

    let state = state.emit(Command::Dwell(Decimal::from_int(DWELL_SECONDS)));
    let mut out = state.attribute("d", path.as_str()).end_element();
    proof {
        use_type_invariant(&out);
    }
    out.pen_up = true;
    assert(out@.program =~= before.program + border_program(r));
    assert(out@.events =~= before.events + border_events(r));
    out
}

/// Opens the element of a path in the normalized drawing, with empty path data.
fn begin_path(state: State) -> (out: State)
    ensures
        out@ == state@.begin_path(),
        tag_is_open(out@.events),
{
    let ghost before = state@;
    let state = state.start_element("path").attribute("stroke-width", "0.1").attribute(
        "stroke",
        "black",
    ).attribute("fill", "none");
    assert(state@.events =~= before.events + path_open_events());
    proof {
        use_type_invariant(&state);
    }
    let State {
        svg,
        gcode,
        pen_up,
        current_svg_path: _,
        current_loc,
        path_start,
        params,
        view_box,
        program,
        path: _,
        curves,
    } = state;
    State {
        svg,
        gcode,
        pen_up,
        current_svg_path: String::new(),
        current_loc,
        path_start,
        params,
        view_box,
        program,
        path: Ghost(Seq::empty()),
        curves,
    }
}

/// Writes the path data into the open element and closes it.
fn end_path(state: State) -> (out: State)
    requires
        tag_is_open(state@.events),
    ensures
        out@ == state@.end_path(),
{
    proof {
        use_type_invariant(&state);
    }
    let State {
        svg,
        gcode,
        pen_up,
        current_svg_path,
        current_loc,
        path_start: _,
        params,
        view_box,
        program,
        path,
        curves,
    } = state;
    let mut svg = svg;
    xml_write_attribute(&mut svg, "d", current_svg_path.as_str());
    xml_end_element(&mut svg);
    State {
        svg,
        gcode,
        pen_up,
        current_svg_path,
        current_loc,
        path_start: None,
        params,
        view_box,
        program,
        path,
        curves,
    }
}

/// Ends the motion program and hands out the two texts: the normalized drawing
/// first, the motion program second.
fn finish(state: State) -> (out: (String, String))
    ensures
        out.0@ == xml_document(state@.options, state@.finish().events),
        out.1@ == program_text(state@.finish().program),
{
    let ghost before = state@;
    let state = state.emit(Command::PenHeight(Decimal::from_int(0))).emit(
        Command::Rapid(Point::new(Decimal::from_int(0), Decimal::from_int(0))),
    );
    assert(state@.program =~= before.program + final_program());
    proof {
        use_type_invariant(&state);
    }
    let State {
        svg,
        gcode,
        pen_up: _,
        current_svg_path: _,
        current_loc: _,
        path_start: _,
        params: _,
        view_box: _,
        program: _,
        path: _,
        curves: _,
    } = state;
    (xml_end_document(svg), gcode)
}

/// Handles one segment of a path. For a curve, `arclen` is its length in device space.
pub fn segment(state: State, transform: &Transform, seg: PathSegment, arclen: Decimal) -> (out:
    State)
    ensures
        out@ == state@.segment(*transform, seg, arclen),
        out@.events == state@.events,
        out@.options == state@.options,
{
    match seg {
        PathSegment::MoveTo { x, y } => {
            let p = transform.apply(x, y);
            move_to(state, p.x, p.y)
        },
        PathSegment::LineTo { x, y } => {
            let p = transform.apply(x, y);
            line_to(state, p.x, p.y)
        },
        PathSegment::CurveTo { x1, y1, x2, y2, x, y } => {
            let p1 = transform.apply(x1, y1);
            let p2 = transform.apply(x2, y2);
            let p = transform.apply(x, y);
            curve_to(state, p1.x, p1.y, p2.x, p2.y, p.x, p.y, arclen)
        },
        PathSegment::ClosePath => close_path(state),
    }
}

/// Draws one path. Its curves take their lengths from `arc_lengths`, the first of
/// them the one at index `used`. Returns the state and the index of the first length
/// not used, or nothing where the lengths run out.
fn draw_path(state: State, path: &Path, arc_lengths: &Vec<Decimal>, used: usize) -> (r: Option<
    (State, usize),
>)
    requires
        used <= arc_lengths.len(),
    ensures
        match r {
            Some((out, next)) => {
                &&& out@ == state@.draw_path(*path, arc_lengths@, used as int)
                &&& out@.options == state@.options
                &&& next == used + count_curves(path.data@)
                &&& next <= arc_lengths.len()
            },
            None => arc_lengths.len() < used + count_curves(path.data@),
        },
{
    let ghost before = state@;
    let mut state = begin_path(state);
    let mut next: usize = used;
    let mut j: usize = 0;
    while j < path.data.len()
        invariant
            j <= path.data.len(),
            used <= next <= arc_lengths.len(),
            next == used + count_curves(path.data@.take(j as int)),
            tag_is_open(state@.events),
            state@.options == before.options,
            state@ == before.begin_path().segments(
                path.transform,
                path.data@.take(j as int),
                arc_lengths@,
                used as int,
            ),
        decreases path.data.len() - j,
    {
        let seg = path.data[j];
        assert(path.data@.take(j + 1).drop_last() =~= path.data@.take(j as int));
        assert(path.data@.take(j + 1).last() == seg);
        match seg {
            PathSegment::CurveTo { .. } => {
                if next >= arc_lengths.len() {
                    proof {
                        count_curves_prefix(path.data@, j as int);
                    }
                    return None;
                }
                state = segment(state, &path.transform, seg, arc_lengths[next]);
                next = next + 1;
            },
            _ => {
                // A segment that is no curve reads no length: any will do.
                let ghost unread = arc_lengths@[next as int];
                let ghost now = state@;
                state = segment(state, &path.transform, seg, Decimal::from_int(0));
                assert(state@ == now.segment(path.transform, seg, unread));
            },
        }
        j = j + 1;
    }
    assert(path.data@.take(j as int) =~= path.data@);
    Some((end_path(state), next))
}

/// Draws the paths in order. The curves take their lengths from `arc_lengths` in the
/// order in which they occur. Returns nothing where the lengths are not as many as
/// the curves.
fn draw_paths(state: State, paths: &Vec<Path>, arc_lengths: &Vec<Decimal>) -> (r: Option<State>)
    ensures
        r is Some <==> arc_lengths@.len() == count_path_curves(paths@),
        r is Some ==> r->0@ == state@.draw_paths(paths@, arc_lengths@),
        r is Some ==> r->0@.options == state@.options,
{
    let ghost before = state@;
    let mut state = state;
    let mut used: usize = 0;
    let mut i: usize = 0;
    while i < paths.len()
        invariant
            i <= paths.len(),
            used <= arc_lengths.len(),
            used == count_path_curves(paths@.take(i as int)),
            state@ == before.draw_paths(paths@.take(i as int), arc_lengths@),
            state@.options == before.options,
        decreases paths.len() - i,
    {
        assert(paths@.take(i + 1).drop_last() =~= paths@.take(i as int));
        assert(paths@.take(i + 1).last() == paths@[i as int]);
        match draw_path(state, &paths[i], arc_lengths, used) {
            Some((out, next)) => {
                state = out;
                used = next;
            },
            None => {
                proof {
                    count_path_curves_prefix(paths@, i as int);
                }
                return None;
            },
        }
        i = i + 1;
    }
    assert(paths@.take(i as int) =~= paths@);
    if used != arc_lengths.len() {
        return None;
    }
    Some(state)
}

/// Converts a document into the text of its normalized drawing and the text of its
/// motion program, in this order.
///
/// `arc_lengths` holds the length in device space of each curve of the document, in
/// the order in which the curves occur; [`curves`] returns these curves.
pub fn strip(doc: &Document, xml_opt: XmlOptions, params: &Params, arc_lengths: &Vec<Decimal>) -> (r:
    Result<(String, String), StripError>)
    ensures
        match r {
            Ok((svg, gcode)) => {
                &&& doc.view_box.wf()
                &&& arc_lengths@.len() == doc.curve_count()
                &&& svg@ == xml_document(xml_opt, plot(*doc, xml_opt, *params, arc_lengths@).events)
                &&& gcode@ == program_text(plot(*doc, xml_opt, *params, arc_lengths@).program)
            },
            Err(StripError::InvalidViewBox) => !doc.view_box.wf(),
            Err(StripError::ArcLengthCount) => {
                &&& doc.view_box.wf()
                &&& arc_lengths@.len() != doc.curve_count()
            },
        },
{
    if !doc.view_box.is_valid() {
        return Err(StripError::InvalidViewBox);
    }
    let state = State::new(xml_opt, *params, doc.view_box);
    let state = write_header(state, doc.size);
    let state = check_bounds_and_pause(state);
    match draw_paths(state, &doc.paths, arc_lengths) {
        Some(state) => Ok(finish(state)),
        None => Err(StripError::ArcLengthCount),
    }
}

/// Follows one path from `loc`, adding the curves it meets to `curves`. Returns
/// the position at which the path ends.
fn path_curves(view_box: &Rect, path: &Path, loc: Point, curves: &mut Vec<CubicBez>) -> (end: Point)
    requires
        view_box.wf(),
    ensures
        (Cursor { loc: end, start: None, curves: final(curves)@ }) == (Cursor {
            loc,
            start: None,
            curves: old(curves)@,
        }).follow_path(*view_box, *path),
{
    let ghost before = Cursor { loc, start: None, curves: curves@ };
    let mut loc = loc;
    let mut start: Option<Point> = None;
    let mut j: usize = 0;
    while j < path.data.len()
        invariant
            view_box.wf(),
            j <= path.data.len(),
            (Cursor { loc, start, curves: curves@ }) == before.segments(
                *view_box,
                path.transform,
                path.data@.take(j as int),
            ),
        decreases path.data.len() - j,
    {
        assert(path.data@.take(j + 1).drop_last() =~= path.data@.take(j as int));
        assert(path.data@.take(j + 1).last() == path.data@[j as int]);
        match path.data[j] {
            PathSegment::MoveTo { x, y } => {
                loc = view_box.clamp(path.transform.apply(x, y));
                start = Some(loc);
            },
            PathSegment::LineTo { x, y } => {
                loc = view_box.clamp(path.transform.apply(x, y));
            },
            PathSegment::CurveTo { x1, y1, x2, y2, x, y } => {
                let bez = CubicBez::new(
                    loc,
                    path.transform.apply(x1, y1),
                    path.transform.apply(x2, y2),
                    path.transform.apply(x, y),
                );
                curves.push(bez);
                loc = view_box.clamp(bez.end());
            },
            PathSegment::ClosePath => {
                if let Some(p) = start {
                    loc = view_box.clamp(p);
                    start = None;
                }
            },
        }
        j = j + 1;
    }
    assert(path.data@.take(j as int) =~= path.data@);
    loc
}

/// The curves of a document in device space, in the order in which they occur, each
/// from the position at which the conversion meets it. [`strip`] asks for the length
/// of each of them.
pub fn curves(doc: &Document) -> (r: Result<Vec<CubicBez>, StripError>)
    ensures
        match r {
            Ok(found) => doc.view_box.wf() && found@ == document_curves(*doc),
            Err(e) => e == StripError::InvalidViewBox && !doc.view_box.wf(),
        },
{
    if !doc.view_box.is_valid() {
        return Err(StripError::InvalidViewBox);
    }
    let mut found: Vec<CubicBez> = Vec::new();
    let mut loc = Point::new(Decimal::from_int(0), Decimal::from_int(0));
    let mut i: usize = 0;
    while i < doc.paths.len()
        invariant
            doc.view_box.wf(),
            i <= doc.paths.len(),
            (Cursor { loc, start: None, curves: found@ }) == Cursor::start().follow_paths(
                doc.view_box,
                doc.paths@.take(i as int),
            ),
        decreases doc.paths.len() - i,
    {
        assert(doc.paths@.take(i + 1).drop_last() =~= doc.paths@.take(i as int));
        assert(doc.paths@.take(i + 1).last() == doc.paths@[i as int]);
        loc = path_curves(&doc.view_box, &doc.paths[i], loc, &mut found);
        i = i + 1;
    }
    assert(doc.paths@.take(i as int) =~= doc.paths@);
    Ok(found)
}

} // verus!
