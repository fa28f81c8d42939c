//! Points, rectangles, affine transforms and cubic curves on the decimal grid.

use vstd::prelude::*;
use vstd::arithmetic::div_mod::*;
use vstd::arithmetic::mul::*;
use crate::decimal::{Decimal, SCALE};

verus! {

/// A position, in whatever space the context says.
#[derive(Clone, Copy, Debug, PartialEq, Eq, Structural)]
pub struct Point {
    pub x: Decimal,
    pub y: Decimal,
}

/// A straight segment from `p0` to `p1`.
#[derive(Clone, Copy, Debug, PartialEq, Eq, Structural)]
pub struct Line {
    pub p0: Point,
    pub p1: Point,
}

/// A nominal width and height.
#[derive(Clone, Copy, Debug, PartialEq, Eq, Structural)]
pub struct Size {
    pub width: Decimal,
    pub height: Decimal,
}

/// An axis-aligned rectangle given by its top-left corner and its extent.
#[derive(Clone, Copy, Debug, PartialEq, Eq, Structural)]
pub struct Rect {
    pub x: Decimal,
    pub y: Decimal,
    pub width: Decimal,
    pub height: Decimal,
}

/// An affine map `(x, y) -> (a*x + c*y + e, b*x + d*y + f)`.
#[derive(Clone, Copy, Debug, PartialEq, Eq, Structural)]
pub struct Transform {
    pub a: Decimal,
    pub b: Decimal,
    pub c: Decimal,
    pub d: Decimal,
    pub e: Decimal,
    pub f: Decimal,
}

/// A cubic Bezier curve from `p0` to `p3` with control points `p1` and `p2`.
#[derive(Clone, Copy, Debug, PartialEq, Eq, Structural)]
pub struct CubicBez {
    pub p0: Point,
    pub p1: Point,
    pub p2: Point,
    pub p3: Point,
}

/// `v` restricted to `[lo, hi]`: raised to `lo` first, then lowered to `hi`.
pub open spec fn clamp(v: int, lo: int, hi: int) -> int {
    let raised = if v < lo {
        lo
    } else {
        v
    };
    if hi < raised {
        hi
    } else {
        raised
    }
}

/// `v` brought into the range of a 64-bit grid count.
pub open spec fn saturate(v: int) -> int {
    clamp(v, i64::MIN as int, i64::MAX as int)
}

/// The product of a grid coefficient and a grid value, rounded down to the grid.
pub open spec fn scaled_product(k: int, v: int) -> int {
    (k * v) / (SCALE as int)
}

/// The point `i / n` of the way from `a` to `b`, rounded down to the grid.
pub open spec fn lerp(a: int, b: int, i: int, n: int) -> int {
    a + ((b - a) * i) / n
}

/// `num / den` rounded toward negative infinity.
fn floor_div(num: i128, den: i128) -> (q: i128)
    requires
        den > 0,
        num > i128::MIN,
    ensures
        q == num / den,
{
    if num >= 0 {
        num / den
    } else {
        let m: i128 = -num;
        let q: i128 = m / den;
        let r: i128 = m % den;
        proof {
            lemma_fundamental_div_mod(m as int, den as int);
            if r == 0 {
                assert(num == (-q) * den + 0) by (nonlinear_arith)
                    requires
                        m == den * q + r,
                        r == 0,
                        num == -m,
                ;
                lemma_fundamental_div_mod_converse(num as int, den as int, -q as int, 0);
            } else {
                assert(num == (-q - 1) * den + (den - r)) by (nonlinear_arith)
                    requires
                        m == den * q + r,
                        num == -m,
                ;
                lemma_fundamental_div_mod_converse(num as int, den as int, -q - 1, den - r);
            }
        }
        if r == 0 {
            -q
        } else {
            -q - 1
        }
    }
}

/// The grid product of two grid values.
fn mul_scaled(k: i64, v: i64) -> (p: i128)
    ensures
        p == scaled_product(k as int, v as int),
        -0x800_0000_0000_0000_0000_0000_0000 <= p <= 0x800_0000_0000_0000_0000_0000_0000,
{
    assert(-0x4000_0000_0000_0000_0000_0000_0000_0000 <= k * v
        <= 0x4000_0000_0000_0000_0000_0000_0000_0000) by (nonlinear_arith)
        requires
            -0x8000_0000_0000_0000 <= k <= 0x7fff_ffff_ffff_ffff,
            -0x8000_0000_0000_0000 <= v <= 0x7fff_ffff_ffff_ffff,
    ;
    let prod: i128 = (k as i128) * (v as i128);
    let q = floor_div(prod, 1_000_000);
    proof {
        lemma_div_is_ordered(prod as int, 0x4000_0000_0000_0000_0000_0000_0000_0000, 1_000_000);
        lemma_div_is_ordered(-0x4000_0000_0000_0000_0000_0000_0000_0000, prod as int, 1_000_000);
        assert(0x4000_0000_0000_0000_0000_0000_0000_0000int / 1_000_000
            <= 0x800_0000_0000_0000_0000_0000_0000);
        assert((-0x4000_0000_0000_0000_0000_0000_0000_0000int) / 1_000_000
            >= -0x800_0000_0000_0000_0000_0000_0000);
    }
    q
}

/// A wide value brought back into the 64-bit range.
fn saturate_to_grid(v: i128) -> (d: Decimal)
    ensures
        d.micros == saturate(v as int),
{
    if v < i64::MIN as i128 {
        Decimal { micros: i64::MIN }
    } else if v > i64::MAX as i128 {
        Decimal { micros: i64::MAX }
    } else {
        Decimal { micros: v as i64 }
    }
}

/// `m / n` rounded up, which is the negation of `-m / n` rounded down.
fn ceil_div(m: u128, n: u128) -> (q: u128)
    requires
        n > 0,
    ensures
        -(q as int) == (-(m as int)) / (n as int),
        q <= m,
{
    let q: u128 = m / n;
    let r: u128 = m % n;
    proof {
        lemma_fundamental_div_mod(m as int, n as int);
        if r == 0 {
            assert(-(m as int) == (-(q as int)) * n + 0) by (nonlinear_arith)
                requires
                    m == n * q + r,
                    r == 0,
            ;
            lemma_fundamental_div_mod_converse(-(m as int), n as int, -(q as int), 0);
        } else {
            assert(-(m as int) == (-(q as int) - 1) * n + (n - r)) by (nonlinear_arith)
                requires
                    m == n * q + r,
            ;
            lemma_fundamental_div_mod_converse(-(m as int), n as int, -(q as int) - 1, n - r);
            assert(q < m) by (nonlinear_arith)
                requires
                    m == n * q + r,
                    r > 0,
                    n > 0,
                    q >= 0,
            ;
        }
    }
    if r == 0 {
        q
    } else {
        q + 1
    }
}

/// A grid value between `a` and `b`, `i / n` of the way along.
fn lerp_grid(a: i64, b: i64, i: u64, n: u64) -> (r: i64)
    requires
        0 < n,
        i <= n,
    ensures
        r == lerp(a as int, b as int, i as int, n as int),
        a <= b ==> a <= r <= b,
        b <= a ==> b <= r <= a,
{
    if a <= b {
        let d: u128 = ((b as i128) - (a as i128)) as u128;
        assert(d * i <= 0xffff_ffff_ffff_ffff * 0xffff_ffff_ffff_ffff) by (nonlinear_arith)
            requires
                0 <= d <= 0xffff_ffff_ffff_ffff,
                0 <= i <= 0xffff_ffff_ffff_ffff,
        ;
        let q: u128 = (d * (i as u128)) / (n as u128);
        proof {
            lemma_mul_inequality(i as int, n as int, d as int);
            lemma_mul_is_commutative(i as int, d as int);
            lemma_mul_is_commutative(n as int, d as int);
            lemma_div_is_ordered(d * i, d * n, n as int);
            lemma_div_multiples_vanish(d as int, n as int);
            lemma_mul_nonnegative(d as int, i as int);
            lemma_div_pos_is_pos(d * i, n as int);
        }
        ((a as i128) + (q as i128)) as i64
    } else {
        let d: u128 = ((a as i128) - (b as i128)) as u128;
        assert(d * i <= 0xffff_ffff_ffff_ffff * 0xffff_ffff_ffff_ffff) by (nonlinear_arith)
            requires
                0 <= d <= 0xffff_ffff_ffff_ffff,
                0 <= i <= 0xffff_ffff_ffff_ffff,
        ;
        let m: u128 = d * (i as u128);
        let q: u128 = ceil_div(m, n as u128);
        proof {
            assert((b - a) * i == -(m as int)) by (nonlinear_arith)
                requires
                    m == d * i,
                    d == a - b,
            ;
            // q is the least count of steps of size `n` that covers `m`, and `d` steps do.
            lemma_mul_inequality(i as int, n as int, d as int);
            lemma_mul_is_commutative(i as int, d as int);
            lemma_mul_is_commutative(n as int, d as int);
            lemma_div_is_ordered(-(d * n), -(m as int), n as int);
            assert(-(d * n) == (-(d as int)) * n) by (nonlinear_arith);
            lemma_div_multiples_vanish(-(d as int), n as int);
        }
        ((a as i128) - (q as i128)) as i64
    }
}

impl Point {
    /// The point `(x, y)`.
    pub fn new(x: Decimal, y: Decimal) -> (p: Point)
        ensures
            p == (Point { x, y }),
    {
        Point { x, y }
    }

    /// The origin of the coordinate system.
    pub open spec fn origin() -> Point {
        Point { x: Decimal { micros: 0 }, y: Decimal { micros: 0 } }
    }
}

impl Line {
    /// The segment from `p0` to `p1`.
    pub fn new(p0: Point, p1: Point) -> (l: Line)
        ensures
            l == (Line { p0, p1 }),
    {
        Line { p0, p1 }
    }

    /// Where the segment starts.
    pub fn start(&self) -> (p: Point)
        ensures
            p == self.p0,
    {
        self.p0
    }

    /// Where the segment ends.
    pub fn end(&self) -> (p: Point)
        ensures
            p == self.p1,
    {
        self.p1
    }
}

impl Rect {
    /// A rectangle has a positive extent, and its far edges are on the grid.
    pub open spec fn wf(self) -> bool {
        &&& self.width.micros > 0
        &&& self.height.micros > 0
        &&& self.x.micros + self.width.micros <= i64::MAX
        &&& self.y.micros + self.height.micros <= i64::MAX
    }

    /// The x coordinate of the left edge.
    pub open spec fn left_spec(self) -> Decimal {
        self.x
    }

    /// The y coordinate of the top edge.
    pub open spec fn top_spec(self) -> Decimal {
        self.y
    }

    /// The x coordinate of the right edge: the left edge plus the width.
    pub open spec fn right_spec(self) -> Decimal {
        Decimal { micros: (self.x.micros + self.width.micros) as i64 }
    }

    /// The y coordinate of the bottom edge: the top edge plus the height.
    pub open spec fn bottom_spec(self) -> Decimal {
        Decimal { micros: (self.y.micros + self.height.micros) as i64 }
    }

    /// The point of the rectangle nearest to `p`, coordinate by coordinate.
    pub open spec fn clamp_spec(self, p: Point) -> Point {
        Point {
            x: Decimal {
                micros: clamp(
                    p.x.micros as int,
                    self.left_spec().micros as int,
                    self.right_spec().micros as int,
                ) as i64,
            },
            y: Decimal {
                micros: clamp(
                    p.y.micros as int,
                    self.top_spec().micros as int,
                    self.bottom_spec().micros as int,
                ) as i64,
            },
        }
    }

    /// Whether `p` lies in the rectangle, edges included.
    pub open spec fn contains(self, p: Point) -> bool {
        &&& self.left_spec().micros <= p.x.micros <= self.right_spec().micros
        &&& self.top_spec().micros <= p.y.micros <= self.bottom_spec().micros
    }

    /// Whether these four values describe a rectangle.
    pub fn is_valid(&self) -> (ok: bool)
        ensures
            ok == self.wf(),
    {
        self.width.micros > 0 && self.height.micros > 0 && self.x.micros <= i64::MAX
            - self.width.micros && self.y.micros <= i64::MAX - self.height.micros
    }

    /// The rectangle with top-left corner `(x, y)` and the given extent, where there is one.
    pub fn new(x: Decimal, y: Decimal, width: Decimal, height: Decimal) -> (r: Option<Rect>)
        ensures
            r is Some <==> (Rect { x, y, width, height }).wf(),
            r is Some ==> r->0 == (Rect { x, y, width, height }),
    {
        let rect = Rect { x, y, width, height };
        if rect.is_valid() {
            Some(rect)
        } else {
            None
        }
    }

    /// The x coordinate of the left edge.
    pub fn left(&self) -> (v: Decimal)
        ensures
            v == self.left_spec(),
    {
        self.x
    }

    /// The y coordinate of the top edge.
    pub fn top(&self) -> (v: Decimal)
        ensures
            v == self.top_spec(),
    {
        self.y
    }

    /// The x coordinate of the right edge.
    pub fn right(&self) -> (v: Decimal)
        requires
            self.wf(),
        ensures
            v == self.right_spec(),
    {
        Decimal { micros: self.x.micros + self.width.micros }
    }

    /// The y coordinate of the bottom edge.
    pub fn bottom(&self) -> (v: Decimal)
        requires
            self.wf(),
        ensures
            v == self.bottom_spec(),
    {
        Decimal { micros: self.y.micros + self.height.micros }
    }

    /// Restricts a point to the rectangle.
    pub fn clamp(&self, p: Point) -> (q: Point)
        requires
            self.wf(),
        ensures
            q == self.clamp_spec(p),
            self.contains(q),
    {
        let right = self.right();
        let bottom = self.bottom();
        let x = if p.x.micros < self.x.micros {
            self.x.micros
        } else {
            p.x.micros
        };
        let y = if p.y.micros < self.y.micros {
            self.y.micros
        } else {
            p.y.micros
        };
        Point {
            x: Decimal {
                micros: if right.micros < x {
                    right.micros
                } else {
                    x
                },
            },
            y: Decimal {
                micros: if bottom.micros < y {
                    bottom.micros
                } else {
                    y
                },
            },
        }
    }
}

impl Transform {
    /// Where the map sends `(x, y)`: each product is rounded down to the grid, and a
    /// coordinate beyond the 64-bit range stops at its end.
    pub open spec fn apply_spec(self, x: Decimal, y: Decimal) -> Point {
        Point {
            x: Decimal {
                micros: saturate(
                    scaled_product(self.a.micros as int, x.micros as int) + scaled_product(
                        self.c.micros as int,
                        y.micros as int,
                    ) + self.e.micros,
                ) as i64,
            },
            y: Decimal {
                micros: saturate(
                    scaled_product(self.b.micros as int, x.micros as int) + scaled_product(
                        self.d.micros as int,
                        y.micros as int,
                    ) + self.f.micros,
                ) as i64,
            },
        }
    }

    /// The map with ones on the diagonal and zeros elsewhere.
    pub open spec fn identity_spec() -> Transform {
        Transform {
            a: Decimal { micros: SCALE },
            b: Decimal { micros: 0 },
            c: Decimal { micros: 0 },
            d: Decimal { micros: SCALE },
            e: Decimal { micros: 0 },
            f: Decimal { micros: 0 },
        }
    }

    /// The map that leaves every point where it is.
    pub fn identity() -> (t: Transform)
        ensures
            t == Transform::identity_spec(),
    {
        Transform {
            a: Decimal { micros: SCALE },
            b: Decimal { micros: 0 },
            c: Decimal { micros: 0 },
            d: Decimal { micros: SCALE },
            e: Decimal { micros: 0 },
            f: Decimal { micros: 0 },
        }
    }

    /// Maps a point of the path's own space to device space.
    pub fn apply(&self, x: Decimal, y: Decimal) -> (p: Point)
        ensures
            p == self.apply_spec(x, y),
    {
        let px: i128 = mul_scaled(self.a.micros, x.micros) + mul_scaled(self.c.micros, y.micros)
            + (self.e.micros as i128);
        let py: i128 = mul_scaled(self.b.micros, x.micros) + mul_scaled(self.d.micros, y.micros)
            + (self.f.micros as i128);
        Point { x: saturate_to_grid(px), y: saturate_to_grid(py) }
    }

    /// The identity map moves no point.
    pub proof fn identity_is_neutral(x: Decimal, y: Decimal)
        ensures
            Transform::identity_spec().apply_spec(x, y) == (Point { x, y }),
    {
        lemma_div_multiples_vanish(x.micros as int, SCALE as int);
        lemma_div_multiples_vanish(y.micros as int, SCALE as int);
        assert(0 * x.micros == 0 && 0 * y.micros == 0);
        assert(0int / (SCALE as int) == 0);
    }
}

impl CubicBez {
    /// The curve through the four given points.
    pub fn new(p0: Point, p1: Point, p2: Point, p3: Point) -> (c: CubicBez)
        ensures
            c == (CubicBez { p0, p1, p2, p3 }),
    {
        CubicBez { p0, p1, p2, p3 }
    }

    /// One coordinate of the curve at parameter `i / n`, by de Casteljau's construction
    /// with every interpolation rounded down to the grid.
    pub open spec fn coordinate_at(c0: int, c1: int, c2: int, c3: int, i: int, n: int) -> int {
        let q0 = lerp(c0, c1, i, n);
        let q1 = lerp(c1, c2, i, n);
        let q2 = lerp(c2, c3, i, n);
        let r0 = lerp(q0, q1, i, n);
        let r1 = lerp(q1, q2, i, n);
        lerp(r0, r1, i, n)
    }

    /// The point of the curve at parameter `i / n`.
    pub open spec fn eval_spec(self, i: int, n: int) -> Point {
        Point {
            x: Decimal {
                micros: CubicBez::coordinate_at(
                    self.p0.x.micros as int,
                    self.p1.x.micros as int,
                    self.p2.x.micros as int,
                    self.p3.x.micros as int,
                    i,
                    n,
                ) as i64,
            },
            y: Decimal {
                micros: CubicBez::coordinate_at(
                    self.p0.y.micros as int,
                    self.p1.y.micros as int,
                    self.p2.y.micros as int,
                    self.p3.y.micros as int,
                    i,
                    n,
                ) as i64,
            },
        }
    }

    /// Where the curve starts.
    pub fn start(&self) -> (p: Point)
        ensures
            p == self.p0,
    {
        self.p0
    }

    /// Where the curve ends.
    pub fn end(&self) -> (p: Point)
        ensures
            p == self.p3,
    {
        self.p3
    }

    /// The point of the curve at parameter `i / n`.
    pub fn eval(&self, i: u64, n: u64) -> (p: Point)
        requires
            0 < n,
            i <= n,
        ensures
            p == self.eval_spec(i as int, n as int),
    {
        Point {
            x: Decimal {
                micros: coordinate_on_grid(
                    self.p0.x.micros,
                    self.p1.x.micros,
                    self.p2.x.micros,
                    self.p3.x.micros,
                    i,
                    n,
                ),
            },
            y: Decimal {
                micros: coordinate_on_grid(
                    self.p0.y.micros,
                    self.p1.y.micros,
                    self.p2.y.micros,
                    self.p3.y.micros,
                    i,
                    n,
                ),
            },
        }
    }

    /// At parameter 0 the curve is at its start, and at parameter 1 at its end.
    pub proof fn eval_at_ends(self, n: int)
        requires
            0 < n,
        ensures
            self.eval_spec(0, n) == self.p0,
            self.eval_spec(n, n) == self.p3,
    {
        lerp_at_ends(self.p0.x.micros as int, self.p1.x.micros as int, n);
        lerp_at_ends(self.p1.x.micros as int, self.p2.x.micros as int, n);
        lerp_at_ends(self.p2.x.micros as int, self.p3.x.micros as int, n);
        lerp_at_ends(self.p0.y.micros as int, self.p1.y.micros as int, n);
        lerp_at_ends(self.p1.y.micros as int, self.p2.y.micros as int, n);
        lerp_at_ends(self.p2.y.micros as int, self.p3.y.micros as int, n);
    }
}

/// Interpolation starts at `a` and ends at `b`.
pub proof fn lerp_at_ends(a: int, b: int, n: int)
    requires
        0 < n,
    ensures
        lerp(a, b, 0, n) == a,
        lerp(a, b, n, n) == b,
{
    assert((b - a) * 0 == 0);
    assert(0int / n == 0) by {
        lemma_div_multiples_vanish(0, n);
        assert(n * 0 == 0);
    }
    lemma_div_multiples_vanish(b - a, n);
    lemma_mul_is_commutative(b - a, n);
}

/// One coordinate of a curve at parameter `i / n`.
fn coordinate_on_grid(c0: i64, c1: i64, c2: i64, c3: i64, i: u64, n: u64) -> (r: i64)
    requires
        0 < n,
        i <= n,
    ensures
        r == CubicBez::coordinate_at(
            c0 as int,
            c1 as int,
            c2 as int,
            c3 as int,
            i as int,
            n as int,
        ),
{
    let q0 = lerp_grid(c0, c1, i, n);
    let q1 = lerp_grid(c1, c2, i, n);
    let q2 = lerp_grid(c2, c3, i, n);
    let r0 = lerp_grid(q0, q1, i, n);
    let r1 = lerp_grid(q1, q2, i, n);
    lerp_grid(r0, r1, i, n)
}

} // verus!
