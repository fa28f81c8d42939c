//! What a conversion emits, as mathematics.
//!
//! An [`Emission`] is everything a conversion has produced and remembers at some
//! moment: the commands of the motion program, the calls made on the writer of the
//! normalized drawing, the path data of the path that is open, and the state of the
//! pen. Every operation of the conversion is a function from one emission to the next.

use vstd::prelude::*;
use crate::decimal::{decimal_text, Decimal, SCALE};
use crate::document::{count_curves, count_path_curves, Document, Path, PathSegment};
use crate::flatten::flatten_spec;
use crate::gcode::{path_text, Command, PathOp};
use crate::geometry::{CubicBez, Line, Point, Rect, Size, Transform};
use crate::stripper::Params;
use crate::xml::{XmlEvent, XmlOptions};

verus! {

/// Seconds to wait after the border has been traced.
pub const DWELL_SECONDS: i32 = 3;

/// Everything a conversion has produced and remembers.
pub struct Emission {
    /// The layout of the normalized drawing's markup.
    pub options: XmlOptions,
    /// The calls made so far on the writer of the normalized drawing.
    pub events: Seq<XmlEvent>,
    /// The motion program so far.
    pub program: Seq<Command>,
    /// The path data of the path that is open.
    pub path: Seq<PathOp>,
    /// Whether the pen is known to be lifted.
    pub pen_up: bool,
    /// The last position sent to the device by a path; the origin before the first.
    pub current_loc: Point,
    /// Where the current subpath started, if a move has started one.
    pub path_start: Option<Point>,
    /// The curves flattened so far, each from the position at which it was met.
    pub curves: Seq<CubicBez>,
    /// The configuration of the conversion.
    pub params: Params,
    /// The page: no position outside it is ever emitted.
    pub view_box: Rect,
}

/// The number zero.
pub open spec fn zero() -> Decimal {
    Decimal { micros: 0 }
}

/// The height that lifts the pen fully, whatever the configuration says.
pub open spec fn full_up() -> Command {
    Command::PenHeight(zero())
}

/// The pause that follows the border trace.
pub open spec fn dwell() -> Command {
    Command::Dwell(Decimal { micros: (DWELL_SECONDS * SCALE) as i64 })
}

/// The four corners of the page in the order of the border trace, which ends where
/// it began: top-left, bottom-left, bottom-right, top-right, top-left.
pub open spec fn border_corners(view_box: Rect) -> Seq<Point> {
    let left = view_box.left_spec();
    let top = view_box.top_spec();
    let right = view_box.right_spec();
    let bottom = view_box.bottom_spec();
    seq![
        Point { x: left, y: top },
        Point { x: left, y: bottom },
        Point { x: right, y: bottom },
        Point { x: right, y: top },
        Point { x: left, y: top },
    ]
}

/// The preamble of every motion program: pen fully up, a rapid move to each corner
/// of the border trace, then a pause.
pub open spec fn border_program(view_box: Rect) -> Seq<Command> {
    let c = border_corners(view_box);
    seq![
        full_up(),
        Command::Rapid(c[0]),
        Command::Rapid(c[1]),
        Command::Rapid(c[2]),
        Command::Rapid(c[3]),
        Command::Rapid(c[4]),
        dwell(),
    ]
}

/// The path data of the border: a move to the first corner, then a line to each
/// corner of the trace.
pub open spec fn border_path(view_box: Rect) -> Seq<PathOp> {
    let c = border_corners(view_box);
    seq![
        PathOp::MoveTo(c[0]),
        PathOp::LineTo(c[0]),
        PathOp::LineTo(c[1]),
        PathOp::LineTo(c[2]),
        PathOp::LineTo(c[3]),
        PathOp::LineTo(c[4]),
    ]
}

/// The element that shows the border in the normalized drawing.
pub open spec fn border_events(view_box: Rect) -> Seq<XmlEvent> {
    seq![
        XmlEvent::Start("path"@),
        XmlEvent::Attribute("stroke"@, "red"@),
        XmlEvent::Attribute("fill"@, "none"@),
        XmlEvent::Attribute("d"@, path_text(border_path(view_box))),
        XmlEvent::End,
    ]
}

/// The value of the root element's `viewBox` attribute.
pub open spec fn view_box_text(view_box: Rect) -> Seq<char> {
    decimal_text(view_box.x) + " "@ + decimal_text(view_box.y) + " "@ + decimal_text(
        view_box.width,
    ) + " "@ + decimal_text(view_box.height)
}

/// The root element of the normalized drawing and its attributes.
pub open spec fn header_events(view_box: Rect, size: Size) -> Seq<XmlEvent> {
    seq![
        XmlEvent::Start("svg"@),
        XmlEvent::Attribute("xmlns"@, "http://www.w3.org/2000/svg"@),
        XmlEvent::Attribute("viewBox"@, view_box_text(view_box)),
        XmlEvent::Attribute("width"@, decimal_text(size.width)),
        XmlEvent::Attribute("height"@, decimal_text(size.height)),
    ]
}

/// The start of the element that shows one path of the drawing.
pub open spec fn path_open_events() -> Seq<XmlEvent> {
    seq![
        XmlEvent::Start("path"@),
        XmlEvent::Attribute("stroke-width"@, "0.1"@),
        XmlEvent::Attribute("stroke"@, "black"@),
        XmlEvent::Attribute("fill"@, "none"@),
    ]
}

/// The end of every motion program: pen fully up, then back to the origin.
pub open spec fn final_program() -> Seq<Command> {
    seq![full_up(), Command::Rapid(Point::origin())]
}

impl Emission {
    /// Before anything is emitted: nothing written, the state of the pen unknown and
    /// taken to be down, the position at the origin.
    pub open spec fn start(options: XmlOptions, params: Params, view_box: Rect) -> Emission {
        Emission {
            options,
            events: Seq::empty(),
            program: Seq::empty(),
            path: Seq::empty(),
            pen_up: false,
            current_loc: Point::origin(),
            path_start: None,
            curves: Seq::empty(),
            params,
            view_box,
        }
    }

    /// Opens the root element of the normalized drawing.
    pub open spec fn header(self, size: Size) -> Emission {
        Emission { events: self.events + header_events(self.view_box, size), ..self }
    }

    /// Traces the border of the page with the pen up, shows it in the normalized
    /// drawing, and pauses. The pen is up afterwards.
    pub open spec fn check_bounds_and_pause(self) -> Emission {
        Emission {
            events: self.events + border_events(self.view_box),
            program: self.program + border_program(self.view_box),
            pen_up: true,
            ..self
        }
    }

    /// Lifts the pen, unless it is up already.
    pub open spec fn maybe_pen_up(self) -> Emission {
        if !self.pen_up {
            Emission {
                program: self.program.push(Command::PenHeight(self.params.pen_up_height)),
                pen_up: true,
                ..self
            }
        } else {
            self
        }
    }

    /// Lowers the pen, unless it is down already.
    pub open spec fn maybe_pen_down(self) -> Emission {
        if self.pen_up {
            Emission {
                program: self.program.push(Command::PenHeight(self.params.pen_down_height)),
                pen_up: false,
                ..self
            }
        } else {
            self
        }
    }

    /// Starts a subpath at the point of the page nearest to `(x, y)`: the pen goes up
    /// and moves there.
    pub open spec fn move_to(self, x: Decimal, y: Decimal) -> Emission {
        let lifted = self.maybe_pen_up();
        let p = self.view_box.clamp_spec(Point { x, y });
        Emission {
            program: lifted.program.push(Command::Rapid(p)),
            path: lifted.path.push(PathOp::MoveTo(p)),
            current_loc: p,
            path_start: Some(p),
            ..lifted
        }
    }

    /// Draws a line to the point of the page nearest to `(x, y)`: the pen goes down
    /// and moves there at the configured speed.
    pub open spec fn line_to(self, x: Decimal, y: Decimal) -> Emission {
        let lowered = self.maybe_pen_down();
        let p = self.view_box.clamp_spec(Point { x, y });
        Emission {
            program: lowered.program.push(Command::Draw(p, self.params.max_line_speed)),
            path: lowered.path.push(PathOp::LineTo(p)),
            current_loc: p,
            ..lowered
        }
    }

    /// Draws a line to the end of each segment in turn.
    pub open spec fn lines_to(self, lines: Seq<Line>) -> Emission
        decreases lines.len(),
    {
        if lines.len() == 0 {
            self
        } else {
            self.lines_to(lines.drop_last()).line_to(lines.last().p1.x, lines.last().p1.y)
        }
    }

    /// The curve that a curve segment draws: from the current position to `(x, y)`.
    pub open spec fn curve_from_here(
        self,
        x1: Decimal,
        y1: Decimal,
        x2: Decimal,
        y2: Decimal,
        x: Decimal,
        y: Decimal,
    ) -> CubicBez {
        CubicBez {
            p0: self.current_loc,
            p1: Point { x: x1, y: y1 },
            p2: Point { x: x2, y: y2 },
            p3: Point { x, y },
        }
    }

    /// Draws a curve of length `arclen` from the current position to `(x, y)`, as the
    /// lines that flattening replaces it by.
    pub open spec fn curve_to(
        self,
        x1: Decimal,
        y1: Decimal,
        x2: Decimal,
        y2: Decimal,
        x: Decimal,
        y: Decimal,
        arclen: Decimal,
    ) -> Emission {
        let bez = self.curve_from_here(x1, y1, x2, y2, x, y);
        Emission { curves: self.curves.push(bez), ..self }.lines_to(flatten_spec(bez, arclen))
    }

    /// Closes the subpath: draws a line back to its start and forgets the start.
    /// Where no move has started a subpath, nothing happens.
    pub open spec fn close_path(self) -> Emission {
        match self.path_start {
            Some(p) => Emission { path_start: None, ..self.line_to(p.x, p.y) },
            None => self,
        }
    }

    /// Handles one segment of a path whose map to device space is `transform`. For a
    /// curve, `arclen` is its length in device space.
    pub open spec fn segment(
        self,
        transform: Transform,
        segment: PathSegment,
        arclen: Decimal,
    ) -> Emission {
        match segment {
            PathSegment::MoveTo { x, y } => {
                let p = transform.apply_spec(x, y);
                self.move_to(p.x, p.y)
            },
            PathSegment::LineTo { x, y } => {
                let p = transform.apply_spec(x, y);
                self.line_to(p.x, p.y)
            },
            PathSegment::CurveTo { x1, y1, x2, y2, x, y } => {
                let p1 = transform.apply_spec(x1, y1);
                let p2 = transform.apply_spec(x2, y2);
                let p = transform.apply_spec(x, y);
                self.curve_to(p1.x, p1.y, p2.x, p2.y, p.x, p.y, arclen)
            },
            PathSegment::ClosePath => self.close_path(),
        }
    }

    /// Handles the segments in order. The curves among them take their lengths from
    /// `arc_lengths`, the first of them the one at index `base`.
    pub open spec fn segments(
        self,
        transform: Transform,
        segments: Seq<PathSegment>,
        arc_lengths: Seq<Decimal>,
        base: int,
    ) -> Emission
        decreases segments.len(),
    {
        if segments.len() == 0 {
            self
        } else {
            self.segments(transform, segments.drop_last(), arc_lengths, base).segment(
                transform,
                segments.last(),
                arc_lengths[base + count_curves(segments.drop_last())],
            )
        }
    }

    /// Opens the element of a path in the normalized drawing, with empty path data.
    pub open spec fn begin_path(self) -> Emission {
        Emission { events: self.events + path_open_events(), path: Seq::empty(), ..self }
    }

    /// Writes the path data into the open element and closes it. No subpath outlives
    /// its path.
    pub open spec fn end_path(self) -> Emission {
        Emission {
            events: self.events.push(XmlEvent::Attribute("d"@, path_text(self.path))).push(
                XmlEvent::End,
            ),
            path_start: None,
            ..self
        }
    }

    /// Draws one path. Its curves take their lengths from `arc_lengths`, the first of
    /// them the one at index `base`.
    pub open spec fn draw_path(self, path: Path, arc_lengths: Seq<Decimal>, base: int) -> Emission {
        self.begin_path().segments(path.transform, path.data@, arc_lengths, base).end_path()
    }

    /// Draws the paths in order. The curves take their lengths from `arc_lengths` in
    /// the order in which they occur.
    pub open spec fn draw_paths(self, paths: Seq<Path>, arc_lengths: Seq<Decimal>) -> Emission
        decreases paths.len(),
    {
        if paths.len() == 0 {
            self
        } else {
            self.draw_paths(paths.drop_last(), arc_lengths).draw_path(
                paths.last(),
                arc_lengths,
                count_path_curves(paths.drop_last()) as int,
            )
        }
    }

    /// Ends the motion program: pen fully up, back to the origin.
    pub open spec fn finish(self) -> Emission {
        Emission { program: self.program + final_program(), ..self }
    }
}

/// Everything that the conversion of a document emits, where `arc_lengths` holds the
/// length of each of its curves, in the order in which they occur.
pub open spec fn plot(
    doc: Document,
    options: XmlOptions,
    params: Params,
    arc_lengths: Seq<Decimal>,
) -> Emission {
    Emission::start(options, params, doc.view_box).header(doc.size).check_bounds_and_pause()
        .draw_paths(doc.paths@, arc_lengths).finish()
}

/// The part of a conversion's state that decides where a curve starts.
pub struct Cursor {
    /// The last position sent to the device by a path; the origin before the first.
    pub loc: Point,
    /// Where the current subpath started, if a move has started one.
    pub start: Option<Point>,
    /// The curves met so far, each from the position at which it was met.
    pub curves: Seq<CubicBez>,
}

impl Cursor {
    /// Before the first path: at the origin, with no subpath and no curve.
    pub open spec fn start() -> Cursor {
        Cursor { loc: Point::origin(), start: None, curves: Seq::empty() }
    }

    /// Follows one segment of a path whose map to device space is `transform`.
    pub open spec fn segment(self, view_box: Rect, transform: Transform, segment: PathSegment) -> Cursor {
        match segment {
            PathSegment::MoveTo { x, y } => {
                let p = view_box.clamp_spec(transform.apply_spec(x, y));
                Cursor { loc: p, start: Some(p), ..self }
            },
            PathSegment::LineTo { x, y } => {
                Cursor { loc: view_box.clamp_spec(transform.apply_spec(x, y)), ..self }
            },
            PathSegment::CurveTo { x1, y1, x2, y2, x, y } => {
                let bez = CubicBez {
                    p0: self.loc,
                    p1: transform.apply_spec(x1, y1),
                    p2: transform.apply_spec(x2, y2),
                    p3: transform.apply_spec(x, y),
                };
                Cursor { loc: view_box.clamp_spec(bez.p3), curves: self.curves.push(bez), ..self }
            },
            PathSegment::ClosePath => match self.start {
                Some(p) => Cursor { loc: view_box.clamp_spec(p), start: None, ..self },
                None => self,
            },
        }
    }

    /// Follows the segments in order.
    pub open spec fn segments(
        self,
        view_box: Rect,
        transform: Transform,
        segments: Seq<PathSegment>,
    ) -> Cursor
        decreases segments.len(),
    {
        if segments.len() == 0 {
            self
        } else {
            self.segments(view_box, transform, segments.drop_last()).segment(
                view_box,
                transform,
                segments.last(),
            )
        }
    }

    /// Follows one path. No subpath outlives its path.
    pub open spec fn follow_path(self, view_box: Rect, path: Path) -> Cursor {
        Cursor { start: None, ..self.segments(view_box, path.transform, path.data@) }
    }

    /// Follows the paths in order.
    pub open spec fn follow_paths(self, view_box: Rect, paths: Seq<Path>) -> Cursor
        decreases paths.len(),
    {
        if paths.len() == 0 {
            self
        } else {
            self.follow_paths(view_box, paths.drop_last()).follow_path(view_box, paths.last())
        }
    }
}

/// The curves of a document in device space, in the order in which they occur, each
/// from the position at which the conversion meets it.
pub open spec fn document_curves(doc: Document) -> Seq<CubicBez> {
    Cursor::start().follow_paths(doc.view_box, doc.paths@).curves
}

} // verus!
