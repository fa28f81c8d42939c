//! What holds of every conversion.

use vstd::prelude::*;
use crate::decimal::Decimal;
use crate::document::{count_curves, count_path_curves, Document, Path, PathSegment};
use crate::flatten::{flatten_spans_curve, flatten_spec};
use crate::gcode::{path_text, Command, PathOp};
use crate::geometry::{Line, Point, Rect, Transform};
use crate::model::{
    border_events, border_program, document_curves, final_program, header_events,
    path_open_events, plot, Cursor, Emission,
};
use crate::stripper::Params;
use crate::xml::{XmlEvent, XmlOptions};

verus! {

/// The state of the pen that a command needs: up for a move without drawing, down
/// for a drawing move, none for any other command.
pub open spec fn pen_needed(c: Command) -> Option<bool> {
    match c {
        Command::Rapid(_) => Some(true),
        Command::Draw(_, _) => Some(false),
        _ => None,
    }
}

/// The step of path data that shows a command: a move for a move without drawing, a
/// line for a drawing move, none for any other command.
pub open spec fn shown_as(c: Command) -> Option<PathOp> {
    match c {
        Command::Rapid(p) => Some(PathOp::MoveTo(p)),
        Command::Draw(p, _) => Some(PathOp::LineTo(p)),
        _ => None,
    }
}

/// The moves of a program, in order, as steps of path data.
pub open spec fn moves_of(program: Seq<Command>) -> Seq<PathOp>
    decreases program.len(),
{
    if program.len() == 0 {
        Seq::empty()
    } else {
        match shown_as(program.last()) {
            Some(op) => moves_of(program.drop_last()).push(op),
            None => moves_of(program.drop_last()),
        }
    }
}

/// How many commands of a program set the height of the pen.
pub open spec fn height_commands(program: Seq<Command>) -> nat
    decreases program.len(),
{
    if program.len() == 0 {
        0
    } else {
        height_commands(program.drop_last()) + if program.last() is PenHeight {
            1nat
        } else {
            0nat
        }
    }
}

/// The state that the moves of a program leave the pen in, where it was `up` before:
/// the state that the last move needed.
pub open spec fn pen_after(program: Seq<Command>, up: bool) -> bool
    decreases program.len(),
{
    if program.len() == 0 {
        up
    } else {
        match pen_needed(program.last()) {
            Some(needed) => needed,
            None => pen_after(program.drop_last(), up),
        }
    }
}

/// How often the pen has to change its state for the moves of a program, where it was
/// `up` before: the number of moves that need another state than the moves before
/// them left.
pub open spec fn pen_changes_needed(program: Seq<Command>, up: bool) -> nat
    decreases program.len(),
{
    if program.len() == 0 {
        0
    } else {
        pen_changes_needed(program.drop_last(), up) + if pen_needed(program.last()) == Some(
            !pen_after(program.drop_last(), up),
        ) {
            1nat
        } else {
            0nat
        }
    }
}

/// All steps of the given path data, path after path.
pub open spec fn all_ops(paths: Seq<Seq<PathOp>>) -> Seq<PathOp>
    decreases paths.len(),
{
    if paths.len() == 0 {
        Seq::empty()
    } else {
        all_ops(paths.drop_last()) + paths.last()
    }
}

/// The elements that show the given path data, one element for each path.
pub open spec fn path_events(paths: Seq<Seq<PathOp>>) -> Seq<XmlEvent>
    decreases paths.len(),
{
    if paths.len() == 0 {
        Seq::empty()
    } else {
        path_events(paths.drop_last()) + path_open_events().push(
            XmlEvent::Attribute("d"@, path_text(paths.last())),
        ).push(XmlEvent::End)
    }
}

/// The path data that drawing `paths` from `start` writes, one entry for each path.
pub open spec fn drawn_paths(start: Emission, paths: Seq<Path>, arc_lengths: Seq<Decimal>) -> Seq<
    Seq<PathOp>,
>
    decreases paths.len(),
{
    if paths.len() == 0 {
        Seq::empty()
    } else {
        drawn_paths(start, paths.drop_last(), arc_lengths).push(
            start.draw_paths(paths.drop_last(), arc_lengths).begin_path().segments(
                paths.last().transform,
                paths.last().data@,
                arc_lengths,
                count_path_curves(paths.drop_last()) as int,
            ).path,
        )
    }
}

/// What a conversion has emitted when the border is traced and no path is drawn yet.
pub open spec fn bordered(doc: Document, options: XmlOptions, params: Params) -> Emission {
    Emission::start(options, params, doc.view_box).header(doc.size).check_bounds_and_pause()
}

/// The part of a document's motion program that draws its paths: what stands between
/// the border trace and the end.
pub open spec fn path_program(
    doc: Document,
    options: XmlOptions,
    params: Params,
    arc_lengths: Seq<Decimal>,
) -> Seq<Command> {
    let before = bordered(doc, options, params);
    before.draw_paths(doc.paths@, arc_lengths).program.skip(before.program.len() as int)
}

/// The path data of a document's normalized drawing, one entry for each path, the
/// border left out.
pub open spec fn path_data(
    doc: Document,
    options: XmlOptions,
    params: Params,
    arc_lengths: Seq<Decimal>,
) -> Seq<Seq<PathOp>> {
    drawn_paths(bordered(doc, options, params), doc.paths@, arc_lengths)
}

/// Whether every move of a program goes to a point of the page.
pub open spec fn on_page(view_box: Rect, program: Seq<Command>) -> bool {
    forall|i: int|
        0 <= i < program.len() ==> match #[trigger] program[i] {
            Command::Rapid(p) => view_box.contains(p),
            Command::Draw(p, _) => view_box.contains(p),
            _ => true,
        }
}

/// What `later` has emitted since `earlier`.
pub open spec fn emitted(earlier: Emission, later: Emission) -> Seq<Command> {
    later.program.skip(earlier.program.len() as int)
}

/// `later` comes from `earlier` by steps of one path: the program has only grown,
/// by commands whose moves are the steps added to the path data, with a height
/// command exactly where the pen had to change; nothing else differs but the
/// position, the start of the subpath and the curves.
pub open spec fn traced(earlier: Emission, later: Emission) -> bool {
    let body = emitted(earlier, later);
    &&& earlier.program.len() <= later.program.len()
    &&& later.program == earlier.program + body
    &&& later.path == earlier.path + moves_of(body)
    &&& later.pen_up == pen_after(body, earlier.pen_up)
    &&& height_commands(body) == pen_changes_needed(body, earlier.pen_up)
    &&& earlier.view_box.wf() ==> on_page(earlier.view_box, body)
    &&& later.events == earlier.events
    &&& later.options == earlier.options
    &&& later.params == earlier.params
    &&& later.view_box == earlier.view_box
}

/// `later` comes from `earlier` by drawing whole paths whose path data is `drawn`.
pub open spec fn plotted(earlier: Emission, later: Emission, drawn: Seq<Seq<PathOp>>) -> bool {
    let body = emitted(earlier, later);
    &&& earlier.program.len() <= later.program.len()
    &&& later.program == earlier.program + body
    &&& moves_of(body) == all_ops(drawn)
    &&& later.pen_up == pen_after(body, earlier.pen_up)
    &&& height_commands(body) == pen_changes_needed(body, earlier.pen_up)
    &&& earlier.view_box.wf() ==> on_page(earlier.view_box, body)
    &&& later.events == earlier.events + path_events(drawn)
    &&& later.options == earlier.options
    &&& later.params == earlier.params
    &&& later.view_box == earlier.view_box
}

/// The four measures of a program with one more command.
proof fn measures_push(program: Seq<Command>, c: Command, up: bool)
    ensures
        moves_of(program.push(c)) == match shown_as(c) {
            Some(op) => moves_of(program).push(op),
            None => moves_of(program),
        },
        height_commands(program.push(c)) == height_commands(program) + if c is PenHeight {
            1nat
        } else {
            0nat
        },
        pen_after(program.push(c), up) == match pen_needed(c) {
            Some(needed) => needed,
            None => pen_after(program, up),
        },
        pen_changes_needed(program.push(c), up) == pen_changes_needed(program, up) + if pen_needed(
            c,
        ) == Some(!pen_after(program, up)) {
            1nat
        } else {
            0nat
        },
{
    assert(program.push(c).drop_last() =~= program);
}

/// The four measures of two programs run one after the other.
proof fn measures_concat(a: Seq<Command>, b: Seq<Command>, up: bool)
    ensures
        moves_of(a + b) == moves_of(a) + moves_of(b),
        height_commands(a + b) == height_commands(a) + height_commands(b),
        pen_after(a + b, up) == pen_after(b, pen_after(a, up)),
        pen_changes_needed(a + b, up) == pen_changes_needed(a, up) + pen_changes_needed(
            b,
            pen_after(a, up),
        ),
    decreases b.len(),
{
    if b.len() == 0 {
        assert(a + b =~= a);
        assert(moves_of(a) + moves_of(b) =~= moves_of(a));
    } else {
        let shorter = b.drop_last();
        measures_concat(a, shorter, up);
        assert((a + b).drop_last() =~= a + shorter);
        assert((a + b).last() == b.last());
        match shown_as(b.last()) {
            Some(op) => {
                assert(moves_of(a + b) =~= moves_of(a) + moves_of(b));
            },
            None => {},
        }
    }
}

/// One more command after a traced stretch: what was emitted grows by it.
proof fn emitted_push(earlier: Emission, program: Seq<Command>, c: Command)
    requires
        earlier.program.len() <= program.len(),
        program == earlier.program + program.skip(earlier.program.len() as int),
    ensures
        program.push(c).skip(earlier.program.len() as int) == program.skip(
            earlier.program.len() as int,
        ).push(c),
        program.push(c) == earlier.program + program.skip(earlier.program.len() as int).push(c),
{
    let k = earlier.program.len() as int;
    assert(program.push(c).skip(k) =~= program.skip(k).push(c));
    assert(program.push(c) =~= earlier.program + program.skip(k).push(c));
}

/// Nothing emitted is a traced stretch.
proof fn traced_nothing(e: Emission)
    ensures
        traced(e, e),
{
    assert(emitted(e, e) =~= Seq::empty());
    assert(e.program =~= e.program + emitted(e, e));
    assert(e.path =~= e.path + moves_of(emitted(e, e)));
}

/// A move after a traced stretch leaves a traced stretch.
proof fn traced_move_to(earlier: Emission, e: Emission, x: Decimal, y: Decimal)
    requires
        traced(earlier, e),
    ensures
        traced(earlier, e.move_to(x, y)),
{
    let body = emitted(earlier, e);
    let p = e.view_box.clamp_spec(Point { x, y });
    let lifted = e.maybe_pen_up();
    if !e.pen_up {
        let height = Command::PenHeight(e.params.pen_up_height);
        emitted_push(earlier, e.program, height);
        measures_push(body, height, earlier.pen_up);
        emitted_push(earlier, lifted.program, Command::Rapid(p));
        measures_push(body.push(height), Command::Rapid(p), earlier.pen_up);
    } else {
        emitted_push(earlier, e.program, Command::Rapid(p));
        measures_push(body, Command::Rapid(p), earlier.pen_up);
    }
    let after = e.move_to(x, y);
    assert(after.path =~= earlier.path + moves_of(emitted(earlier, after)));
}

/// A line after a traced stretch leaves a traced stretch.
proof fn traced_line_to(earlier: Emission, e: Emission, x: Decimal, y: Decimal)
    requires
        traced(earlier, e),
    ensures
        traced(earlier, e.line_to(x, y)),
{
    let body = emitted(earlier, e);
    let p = e.view_box.clamp_spec(Point { x, y });
    let lowered = e.maybe_pen_down();
    let draw = Command::Draw(p, e.params.max_line_speed);
    if e.pen_up {
        let height = Command::PenHeight(e.params.pen_down_height);
        emitted_push(earlier, e.program, height);
        measures_push(body, height, earlier.pen_up);
        emitted_push(earlier, lowered.program, draw);
        measures_push(body.push(height), draw, earlier.pen_up);
    } else {
        emitted_push(earlier, e.program, draw);
        measures_push(body, draw, earlier.pen_up);
    }
    let after = e.line_to(x, y);
    assert(after.path =~= earlier.path + moves_of(emitted(earlier, after)));
}

/// Lines after a traced stretch leave a traced stretch. They keep the start of the
/// subpath and the curves, and end at the point of the page nearest to the end of
/// the last line.
proof fn traced_lines_to(earlier: Emission, e: Emission, lines: Seq<Line>)
    requires
        traced(earlier, e),
    ensures
        traced(earlier, e.lines_to(lines)),
        e.lines_to(lines).path_start == e.path_start,
        e.lines_to(lines).curves == e.curves,
        lines.len() > 0 ==> e.lines_to(lines).current_loc == e.view_box.clamp_spec(lines.last().p1),
        lines.len() == 0 ==> e.lines_to(lines).current_loc == e.current_loc,
    decreases lines.len(),
{
    if lines.len() > 0 {
        traced_lines_to(earlier, e, lines.drop_last());
        traced_line_to(
            earlier,
            e.lines_to(lines.drop_last()),
            lines.last().p1.x,
            lines.last().p1.y,
        );
    }
}

/// A segment after a traced stretch leaves a traced stretch, and moves the position,
/// the start of the subpath and the curves as a cursor does.
proof fn traced_segment(
    earlier: Emission,
    e: Emission,
    transform: Transform,
    segment: PathSegment,
    arclen: Decimal,
)
    requires
        traced(earlier, e),
    ensures
        traced(earlier, e.segment(transform, segment, arclen)),
        cursor_of(e.segment(transform, segment, arclen)) == cursor_of(e).segment(
            e.view_box,
            transform,
            segment,
        ),
{
    match segment {
        PathSegment::MoveTo { x, y } => {
            let p = transform.apply_spec(x, y);
            traced_move_to(earlier, e, p.x, p.y);
        },
        PathSegment::LineTo { x, y } => {
            let p = transform.apply_spec(x, y);
            traced_line_to(earlier, e, p.x, p.y);
        },
        PathSegment::CurveTo { x1, y1, x2, y2, x, y } => {
            let p1 = transform.apply_spec(x1, y1);
            let p2 = transform.apply_spec(x2, y2);
            let p = transform.apply_spec(x, y);
            let bez = e.curve_from_here(p1.x, p1.y, p2.x, p2.y, p.x, p.y);
            let noted = Emission { curves: e.curves.push(bez), ..e };
            assert(emitted(earlier, noted) == emitted(earlier, e));
            traced_lines_to(earlier, noted, flatten_spec(bez, arclen));
            flatten_spans_curve(bez, arclen);
        },
        PathSegment::ClosePath => {
            match e.path_start {
                Some(p) => {
                    traced_line_to(earlier, e, p.x, p.y);
                    let drawn = e.line_to(p.x, p.y);
                    let closed = Emission { path_start: None, ..drawn };
                    assert(emitted(earlier, closed) == emitted(earlier, drawn));
                },
                None => {},
            }
        },
    }
}

/// The position, the start of the subpath and the curves of an emission.
pub open spec fn cursor_of(e: Emission) -> Cursor {
    Cursor { loc: e.current_loc, start: e.path_start, curves: e.curves }
}

/// Segments after a traced stretch leave a traced stretch, and move the position,
/// the start of the subpath and the curves as a cursor does.
proof fn traced_segments(
    earlier: Emission,
    e: Emission,
    transform: Transform,
    segments: Seq<PathSegment>,
    arc_lengths: Seq<Decimal>,
    base: int,
)
    requires
        traced(earlier, e),
    ensures
        traced(earlier, e.segments(transform, segments, arc_lengths, base)),
        cursor_of(e.segments(transform, segments, arc_lengths, base)) == cursor_of(e).segments(
            e.view_box,
            transform,
            segments,
        ),
    decreases segments.len(),
{
    if segments.len() > 0 {
        traced_segments(earlier, e, transform, segments.drop_last(), arc_lengths, base);
        traced_segment(
            earlier,
            e.segments(transform, segments.drop_last(), arc_lengths, base),
            transform,
            segments.last(),
            arc_lengths[base + count_curves(segments.drop_last())],
        );
    }
}

/// Nothing drawn is a plotted stretch without paths.
proof fn plotted_nothing(e: Emission)
    ensures
        plotted(e, e, Seq::empty()),
{
    assert(emitted(e, e) =~= Seq::empty());
    assert(e.program =~= e.program + emitted(e, e));
    assert(e.events =~= e.events + path_events(Seq::empty()));
}

/// One more path after a plotted stretch leaves a plotted stretch with one more
/// entry of path data, and moves the position and the curves as a cursor does.
proof fn plotted_path(
    earlier: Emission,
    e: Emission,
    drawn: Seq<Seq<PathOp>>,
    path: Path,
    arc_lengths: Seq<Decimal>,
    base: int,
)
    requires
        plotted(earlier, e, drawn),
    ensures
        plotted(
            earlier,
            e.draw_path(path, arc_lengths, base),
            drawn.push(e.begin_path().segments(path.transform, path.data@, arc_lengths, base).path),
        ),
        cursor_of(e.draw_path(path, arc_lengths, base)) == cursor_of(e).follow_path(
            e.view_box,
            path,
        ),
{
    let opened = e.begin_path();
    let walked = opened.segments(path.transform, path.data@, arc_lengths, base);
    let closed = walked.end_path();
    traced_nothing(opened);
    traced_segments(opened, opened, path.transform, path.data@, arc_lengths, base);
    let before = emitted(earlier, e);
    let during = emitted(opened, walked);
    let all = drawn.push(walked.path);
    assert(emitted(earlier, closed) =~= before + during);
    assert(closed.program =~= earlier.program + (before + during));
    measures_concat(before, during, earlier.pen_up);
    assert(walked.path =~= moves_of(during));
    assert(all.drop_last() =~= drawn);
    assert(closed.events =~= earlier.events + path_events(all));
}

/// Paths after a plotted stretch leave a plotted stretch, and move the position and
/// the curves as a cursor does.
proof fn plotted_paths(start: Emission, paths: Seq<Path>, arc_lengths: Seq<Decimal>)
    ensures
        plotted(
            start,
            start.draw_paths(paths, arc_lengths),
            drawn_paths(start, paths, arc_lengths),
        ),
        cursor_of(start.draw_paths(paths, arc_lengths)) == cursor_of(start).follow_paths(
            start.view_box,
            paths,
        ),
    decreases paths.len(),
{
    if paths.len() == 0 {
        plotted_nothing(start);
    } else {
        plotted_paths(start, paths.drop_last(), arc_lengths);
        plotted_path(
            start,
            start.draw_paths(paths.drop_last(), arc_lengths),
            drawn_paths(start, paths.drop_last(), arc_lengths),
            paths.last(),
            arc_lengths,
            count_path_curves(paths.drop_last()) as int,
        );
    }
}

/// Every motion program is the border trace, then the part that draws the paths,
/// then the end; and every normalized drawing is the root element, then the border,
/// then one element for each path. So the border is traced once, before anything is
/// drawn, and the program ends once, after everything is drawn.
pub proof fn conversion_has_three_parts(
    doc: Document,
    options: XmlOptions,
    params: Params,
    arc_lengths: Seq<Decimal>,
)
    ensures
        plot(doc, options, params, arc_lengths).program == border_program(doc.view_box)
            + path_program(doc, options, params, arc_lengths) + final_program(),
        plot(doc, options, params, arc_lengths).events == header_events(doc.view_box, doc.size)
            + border_events(doc.view_box) + path_events(
            path_data(doc, options, params, arc_lengths),
        ),
{
    let before = bordered(doc, options, params);
    plotted_paths(before, doc.paths@, arc_lengths);
    let drawn = before.draw_paths(doc.paths@, arc_lengths);
    assert(before.program =~= border_program(doc.view_box));
    assert(before.events =~= header_events(doc.view_box, doc.size) + border_events(doc.view_box));
    assert(plot(doc, options, params, arc_lengths).program =~= border_program(doc.view_box)
        + path_program(doc, options, params, arc_lengths) + final_program());
    assert(plot(doc, options, params, arc_lengths).events =~= header_events(
        doc.view_box,
        doc.size,
    ) + border_events(doc.view_box) + path_events(path_data(doc, options, params, arc_lengths)));
}

/// The pen changes its height only when it has to: the part of a motion program that
/// draws the paths holds as many height commands as its moves need changes of the
/// pen, which is up when that part begins.
pub proof fn pen_moves_only_on_change(
    doc: Document,
    options: XmlOptions,
    params: Params,
    arc_lengths: Seq<Decimal>,
)
    ensures
        height_commands(path_program(doc, options, params, arc_lengths)) == pen_changes_needed(
            path_program(doc, options, params, arc_lengths),
            true,
        ),
{
    plotted_paths(bordered(doc, options, params), doc.paths@, arc_lengths);
}

/// No path leaves the page: where the page is a rectangle, every move of the part of
/// a motion program that draws the paths goes to a point of the page.
pub proof fn paths_stay_on_the_page(
    doc: Document,
    options: XmlOptions,
    params: Params,
    arc_lengths: Seq<Decimal>,
)
    requires
        doc.view_box.wf(),
    ensures
        on_page(doc.view_box, path_program(doc, options, params, arc_lengths)),
{
    plotted_paths(bordered(doc, options, params), doc.paths@, arc_lengths);
}

/// The two outputs show the same points: the moves of the part of the motion program
/// that draws the paths are, in order, the steps of the path data of the normalized
/// drawing, a move without drawing for each move of a path and a drawing move for
/// each line.
pub proof fn streams_agree(
    doc: Document,
    options: XmlOptions,
    params: Params,
    arc_lengths: Seq<Decimal>,
)
    ensures
        moves_of(path_program(doc, options, params, arc_lengths)) == all_ops(
            path_data(doc, options, params, arc_lengths),
        ),
{
    plotted_paths(bordered(doc, options, params), doc.paths@, arc_lengths);
}

/// The curves that a conversion flattens do not depend on the lengths given for
/// them: they are the curves of the document.
pub proof fn curves_are_the_documents(
    doc: Document,
    options: XmlOptions,
    params: Params,
    arc_lengths: Seq<Decimal>,
)
    ensures
        plot(doc, options, params, arc_lengths).curves == document_curves(doc),
{
    plotted_paths(bordered(doc, options, params), doc.paths@, arc_lengths);
}

/// Closing a subpath that no move has started emits nothing and changes nothing.
pub proof fn close_without_start_is_no_op(e: Emission, transform: Transform, arclen: Decimal)
    requires
        e.path_start is None,
    ensures
        e.close_path() == e,
        e.segment(transform, PathSegment::ClosePath, arclen) == e,
{
}

/// Clamping a point a second time changes nothing, and a clamped point lies on the page.
pub proof fn clamp_is_idempotent(view_box: Rect, p: Point)
    requires
        view_box.wf(),
    ensures
        view_box.clamp_spec(view_box.clamp_spec(p)) == view_box.clamp_spec(p),
        view_box.contains(view_box.clamp_spec(p)),
{
}

} // verus!
