//! Flattening of cubic curves into straight segments.

use vstd::prelude::*;
use vstd::arithmetic::div_mod::*;
use crate::decimal::{Decimal, SCALE};
use crate::geometry::{CubicBez, Line};

verus! {

/// No curve is drawn with fewer segments than this.
pub const MIN_SEGMENTS: u64 = 4;

/// Segments drawn for each whole unit of a curve's length.
pub const SEGMENTS_PER_UNIT: u64 = 10;

/// The accuracy, in millionths, to which a curve's length is to be estimated.
pub const ARCLEN_ACCURACY_MICROS: i64 = 10_000;

/// The whole units in a number, rounded toward negative infinity.
pub open spec fn whole_units(v: Decimal) -> int {
    (v.micros as int) / (SCALE as int)
}

/// Number of segments for a curve of the given length: ten for each whole unit,
/// and four at least.
pub open spec fn segment_count_spec(arclen: Decimal) -> int {
    let by_length = whole_units(arclen) * (SEGMENTS_PER_UNIT as int);
    if by_length < MIN_SEGMENTS as int {
        MIN_SEGMENTS as int
    } else {
        by_length
    }
}

/// The segments that stand for a curve of the given length: the chords between the
/// curve's points at the parameters `0, 1/n, 2/n, .. 1`, with `n` the segment count.
pub open spec fn flatten_spec(bez: CubicBez, arclen: Decimal) -> Seq<Line> {
    let n = segment_count_spec(arclen);
    Seq::new(n as nat, |k: int| Line { p0: bez.eval_spec(k, n), p1: bez.eval_spec(k + 1, n) })
}

/// Number of segments for a curve of the given length.
pub fn segment_count(arclen: Decimal) -> (n: u64)
    ensures
        n == segment_count_spec(arclen),
        MIN_SEGMENTS <= n,
{
    if arclen.micros < SCALE {
        proof {
            if arclen.micros >= 0 {
                lemma_basic_div(arclen.micros as int, SCALE as int);
            } else {
                lemma_div_is_ordered(arclen.micros as int, 0, SCALE as int);
            }
        }
        MIN_SEGMENTS
    } else {
        let units: u64 = (arclen.micros / SCALE) as u64;
        proof {
            lemma_div_is_ordered(SCALE as int, arclen.micros as int, SCALE as int);
            lemma_div_is_ordered(arclen.micros as int, i64::MAX as int, SCALE as int);
        }
        let by_length: u64 = units * SEGMENTS_PER_UNIT;
        if by_length < MIN_SEGMENTS {
            MIN_SEGMENTS
        } else {
            by_length
        }
    }
}

/// Replaces a curve of the given length by straight segments.
pub fn bezier_to_lines(bez: CubicBez, arclen: Decimal) -> (lines: Vec<Line>)
    ensures
        lines@ == flatten_spec(bez, arclen),
{
    let count = segment_count(arclen);
    let mut pos = bez.start();
    let mut lines: Vec<Line> = Vec::new();
    proof {
        bez.eval_at_ends(count as int);
    }
    let mut i: u64 = 0;
    while i < count
        invariant
            i <= count,
            0 < count,
            count == segment_count_spec(arclen),
            pos == bez.eval_spec(i as int, count as int),
            lines@.len() == i,
            forall|k: int|
                0 <= k < i ==> lines@[k] == (Line {
                    p0: bez.eval_spec(k, count as int),
                    p1: bez.eval_spec(k + 1, count as int),
                }),
        decreases count - i,
    {
        i = i + 1;
        let new_pos = bez.eval(i, count);
        lines.push(Line::new(pos, new_pos));
        pos = new_pos;
    }
    assert(lines@ =~= flatten_spec(bez, arclen));
    lines
}

/// The segments of a flattened curve are as many as the segment count says; they
/// start where the curve starts, end where it ends, and each begins where the one
/// before it ended.
pub proof fn flatten_spans_curve(bez: CubicBez, arclen: Decimal)
    ensures
        flatten_spec(bez, arclen).len() == segment_count_spec(arclen),
        flatten_spec(bez, arclen).len() >= MIN_SEGMENTS,
        flatten_spec(bez, arclen).first().p0 == bez.p0,
        flatten_spec(bez, arclen).last().p1 == bez.p3,
        forall|k: int|
            0 < k < flatten_spec(bez, arclen).len() ==> (#[trigger] flatten_spec(bez, arclen)[k]).p0
                == flatten_spec(bez, arclen)[k - 1].p1,
{
    bez.eval_at_ends(segment_count_spec(arclen));
}

/// Where less than a tenth of a unit lies beyond the last whole unit of the length,
/// the segment count is also the whole number of tenths in the length, and four at least.
pub proof fn segment_count_in_tenths(arclen: Decimal)
    requires
        ((arclen.micros as int) % (SCALE as int)) * 10 < SCALE,
    ensures
        segment_count_spec(arclen) == if (arclen.micros * 10) / (SCALE as int) < 4 {
            4
        } else {
            (arclen.micros * 10) / (SCALE as int)
        },
{
    let q = (arclen.micros as int) / (SCALE as int);
    let r = (arclen.micros as int) % (SCALE as int);
    lemma_fundamental_div_mod(arclen.micros as int, SCALE as int);
    assert(arclen.micros * 10 == (q * 10) * SCALE + r * 10) by (nonlinear_arith)
        requires
            arclen.micros == SCALE * q + r,
    ;
    lemma_fundamental_div_mod_converse(arclen.micros * 10, SCALE as int, q * 10, r * 10);
}

} // verus!
