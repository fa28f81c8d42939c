//! The drawing that is to be plotted.

use vstd::prelude::*;
use crate::decimal::Decimal;
use crate::geometry::{Rect, Size, Transform};

verus! {

/// One step of a path, with coordinates in the path's own space.
#[derive(Clone, Copy, Debug, PartialEq, Eq, Structural)]
pub enum PathSegment {
    /// Starts a new subpath at `(x, y)` without drawing.
    MoveTo { x: Decimal, y: Decimal },
    /// Draws a straight line to `(x, y)`.
    LineTo { x: Decimal, y: Decimal },
    /// Draws a cubic curve to `(x, y)` with control points `(x1, y1)` and `(x2, y2)`.
    CurveTo { x1: Decimal, y1: Decimal, x2: Decimal, y2: Decimal, x: Decimal, y: Decimal },
    /// Draws a straight line back to where the subpath started.
    ClosePath,
}

/// A sequence of segments, and the map from their space to device space.
#[derive(Debug)]
pub struct Path {
    pub transform: Transform,
    pub data: Vec<PathSegment>,
}

/// A page and the paths to draw on it, in drawing order.
#[derive(Debug)]
pub struct Document {
    pub view_box: Rect,
    pub size: Size,
    pub paths: Vec<Path>,
}

/// How many of the segments are curves.
pub open spec fn count_curves(segments: Seq<PathSegment>) -> nat
    decreases segments.len(),
{
    if segments.len() == 0 {
        0
    } else {
        count_curves(segments.drop_last()) + if segments.last() is CurveTo {
            1nat
        } else {
            0nat
        }
    }
}

/// How many curves the paths hold together.
pub open spec fn count_path_curves(paths: Seq<Path>) -> nat
    decreases paths.len(),
{
    if paths.len() == 0 {
        0
    } else {
        count_path_curves(paths.drop_last()) + count_curves(paths.last().data@)
    }
}

impl Document {
    /// How many curves the document holds.
    pub open spec fn curve_count(self) -> nat {
        count_path_curves(self.paths@)
    }
}

/// A path holds at least as many curves as any of its prefixes, and one more than
/// the prefix that ends just before one of its curves.
pub proof fn count_curves_prefix(segments: Seq<PathSegment>, j: int)
    requires
        0 <= j <= segments.len(),
    ensures
        count_curves(segments.take(j)) <= count_curves(segments),
        j < segments.len() && segments[j] is CurveTo ==> count_curves(segments.take(j))
            < count_curves(segments),
    decreases segments.len(),
{
    if j < segments.len() {
        let shorter = segments.drop_last();
        assert(shorter.take(j) =~= segments.take(j)) by {
            assert(j <= shorter.len());
        }
        if j < shorter.len() {
            count_curves_prefix(shorter, j);
        } else {
            assert(shorter.take(j) =~= shorter);
        }
    } else {
        assert(segments.take(j) =~= segments);
    }
}

/// A document holds at least as many curves as the paths before one of its paths
/// and that path hold together.
pub proof fn count_path_curves_prefix(paths: Seq<Path>, i: int)
    requires
        0 <= i < paths.len(),
    ensures
        count_path_curves(paths.take(i)) + count_curves(paths[i].data@) <= count_path_curves(
            paths,
        ),
    decreases paths.len(),
{
    let shorter = paths.drop_last();
    if i < shorter.len() {
        assert(shorter.take(i) =~= paths.take(i));
        count_path_curves_prefix(shorter, i);
    } else {
        assert(paths.take(i) =~= shorter);
    }
}

} // verus!
