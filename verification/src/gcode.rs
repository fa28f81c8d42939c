//! The two output languages: motion commands and path data.

use vstd::prelude::*;
use vstd::string::*;
use crate::decimal::{decimal_text, Decimal};
use crate::geometry::Point;

verus! {

/// One line of the motion program.
#[derive(Clone, Copy, Debug, PartialEq, Eq, Structural)]
pub enum Command {
    /// `M3 S<height>`: sets the height of the pen.
    PenHeight(Decimal),
    /// `G0 X<x> Y<y>`: moves without drawing.
    Rapid(Point),
    /// `G1 X<x> Y<y> F<speed>`: draws a line at the given feed rate.
    Draw(Point, Decimal),
    /// `G4 P<seconds>`: waits.
    Dwell(Decimal),
}

/// One step of the path data of the normalized drawing.
#[derive(Clone, Copy, Debug, PartialEq, Eq, Structural)]
pub enum PathOp {
    /// `M <x> <y> `
    MoveTo(Point),
    /// `L <x> <y> `
    LineTo(Point),
}

/// The line of text that is one command.
pub open spec fn command_text(c: Command) -> Seq<char> {
    match c {
        Command::PenHeight(h) => "M3 S"@ + decimal_text(h) + "\n"@,
        Command::Rapid(p) => "G0 X"@ + decimal_text(p.x) + " Y"@ + decimal_text(p.y) + "\n"@,
        Command::Draw(p, speed) => "G1 X"@ + decimal_text(p.x) + " Y"@ + decimal_text(p.y) + " F"@
            + decimal_text(speed) + "\n"@,
        Command::Dwell(seconds) => "G4 P"@ + decimal_text(seconds) + "\n"@,
    }
}

/// The text of a motion program: its commands' lines, in order.
pub open spec fn program_text(program: Seq<Command>) -> Seq<char>
    decreases program.len(),
{
    if program.len() == 0 {
        Seq::<char>::empty()
    } else {
        program_text(program.drop_last()) + command_text(program.last())
    }
}

/// The text of one step of path data.
pub open spec fn op_text(op: PathOp) -> Seq<char> {
    match op {
        PathOp::MoveTo(p) => "M "@ + decimal_text(p.x) + " "@ + decimal_text(p.y) + " "@,
        PathOp::LineTo(p) => "L "@ + decimal_text(p.x) + " "@ + decimal_text(p.y) + " "@,
    }
}

/// The text of path data: its steps, in order.
pub open spec fn path_text(path: Seq<PathOp>) -> Seq<char>
    decreases path.len(),
{
    if path.len() == 0 {
        Seq::<char>::empty()
    } else {
        path_text(path.drop_last()) + op_text(path.last())
    }
}

/// Appends one command's line to a motion program.
pub fn write_command(out: &mut String, c: Command)
    ensures
        final(out)@ == old(out)@ + command_text(c),
{
    match c {
        Command::PenHeight(h) => {
            out.append("M3 S");
            h.write_to(out);
        },
        Command::Rapid(p) => {
            out.append("G0 X");
            p.x.write_to(out);
            out.append(" Y");
            p.y.write_to(out);
        },
        Command::Draw(p, speed) => {
            out.append("G1 X");
            p.x.write_to(out);
            out.append(" Y");
            p.y.write_to(out);
            out.append(" F");
            speed.write_to(out);
        },
        Command::Dwell(seconds) => {
            out.append("G4 P");
            seconds.write_to(out);
        },
    }
    out.append("\n");
    assert(final(out)@ =~= old(out)@ + command_text(c));
}

/// Appends one step to path data.
pub fn write_op(out: &mut String, op: PathOp)
    ensures
        final(out)@ == old(out)@ + op_text(op),
{
    let p = match op {
        PathOp::MoveTo(p) => {
            out.append("M ");
            p
        },
        PathOp::LineTo(p) => {
            out.append("L ");
            p
        },
    };
    p.x.write_to(out);
    out.append(" ");
    p.y.write_to(out);
    out.append(" ");
    assert(final(out)@ =~= old(out)@ + op_text(op));
}

/// Adding a command to a program adds its line to the text.
pub proof fn program_text_push(program: Seq<Command>, c: Command)
    ensures
        program_text(program.push(c)) == program_text(program) + command_text(c),
{
    assert(program.push(c).drop_last() =~= program);
}

/// Adding a step to path data adds its text.
pub proof fn path_text_push(path: Seq<PathOp>, op: PathOp)
    ensures
        path_text(path.push(op)) == path_text(path) + op_text(op),
{
    assert(path.push(op).drop_last() =~= path);
}

} // verus!
