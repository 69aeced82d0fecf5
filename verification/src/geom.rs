//! Scalar and point arithmetic shared by the whole crate.
//!
//! Every coordinate is an `i64` counting milli-pixels (thousandths of a
//! pixel). Divisions round to the nearest milli-pixel, halves away from
//! zero, which `rdiv` pins down exactly.

use vstd::prelude::*;
use vstd::arithmetic::div_mod::lemma_fundamental_div_mod;

verus! {

/// Milli-pixels per pixel.
pub const SCALE: i64 = 1000;

/// Largest magnitude, in milli-pixels, of a screen coordinate or pan offset
/// (a billion pixels). Offset updates that would pass it saturate there.
pub const MAX_COORD: i64 = 1_000_000_000_000;

/// Largest canvas dimension in milli-pixels (the settings panel caps
/// dimensions at 10000 pixels).
pub const MAX_DIM: i64 = 10_000_000;

/// Canvas-space values stay within a hundredfold of `MAX_COORD`: unprojecting
/// a screen point divides by a zoom factor of at least a tenth, and the rest
/// of the slack absorbs the canvas extent itself.
pub const MAX_CANVAS_COORD: i64 = 100_000_000_000_000;

/// A screen coordinate or offset component.
pub open spec fn in_range(v: int) -> bool {
    -MAX_COORD <= v <= MAX_COORD
}

/// A canvas-space coordinate component.
pub open spec fn in_canvas_range(v: int) -> bool {
    -MAX_CANVAS_COORD <= v <= MAX_CANVAS_COORD
}

/// `a / b` rounded to the nearest integer, halves away from zero — the
/// rounding that `f32::round`-style snapping uses.
pub open spec fn rdiv(a: int, b: int) -> int {
    if a >= 0 {
        (a + b / 2) / b
    } else {
        -((-a + b / 2) / b)
    }
}

/// `v` forced into `[lo, hi]`.
pub open spec fn clamp_spec(v: int, lo: int, hi: int) -> int {
    if v < lo {
        lo
    } else if v > hi {
        hi
    } else {
        v
    }
}

/// Magnitude of `v`.
pub open spec fn mag(v: int) -> int {
    if v >= 0 {
        v
    } else {
        -v
    }
}

/// Rounding puts `rdiv(a, b) * b` within half of `b` from `a`.
pub proof fn lemma_rdiv_error(a: int, b: int)
    requires
        b >= 1,
    ensures
        -b <= 2 * (rdiv(a, b) * b - a) <= b,
{
    lemma_fundamental_div_mod(b, 2);
    let h = b / 2;
    if a >= 0 {
        lemma_fundamental_div_mod(a + h, b);
        let q = (a + h) / b;
        let r = (a + h) % b;
        assert(q * b == a + h - r);
    } else {
        lemma_fundamental_div_mod(-a + h, b);
        let q = (-a + h) / b;
        let r = (-a + h) % b;
        assert(q * b == -a + h - r);
        assert((-q) * b == -(q * b)) by (nonlinear_arith);
    }
}

/// `rdiv` is exact on multiples of the divisor.
pub proof fn lemma_rdiv_multiple(k: int, b: int)
    requires
        b >= 1,
    ensures
        rdiv(k * b, b) == k,
{
    lemma_fundamental_div_mod(b, 2);
    let h = b / 2;
    if k >= 0 {
        assert(k * b >= 0) by (nonlinear_arith)
            requires
                k >= 0,
                b >= 1,
        ;
        assert((k * b + h) / b == k) by {
            lemma_fundamental_div_mod(k * b + h, b);
            let q = (k * b + h) / b;
            let r = (k * b + h) % b;
            assert(q * b + r == k * b + h);
            assert((q - k) * b == h - r) by (nonlinear_arith)
                requires
                    q * b + r == k * b + h,
            ;
            assert(-b < h - r < b);
            assert(q == k) by (nonlinear_arith)
                requires
                    (q - k) * b == h - r,
                    -b < h - r < b,
                    b >= 1,
            ;
        }
    } else {
        assert(k * b < 0) by (nonlinear_arith)
            requires
                k < 0,
                b >= 1,
        ;
        assert(-(k * b) == (-k) * b) by (nonlinear_arith);
        assert(((-k) * b + h) / b == -k) by {
            lemma_fundamental_div_mod((-k) * b + h, b);
            let q = ((-k) * b + h) / b;
            let r = ((-k) * b + h) % b;
            assert(q * b + r == (-k) * b + h);
            assert((q - (-k)) * b == h - r) by (nonlinear_arith)
                requires
                    q * b + r == (-k) * b + h,
            ;
            assert(-b < h - r < b);
            assert(q == -k) by (nonlinear_arith)
                requires
                    (q - (-k)) * b == h - r,
                    -b < h - r < b,
                    b >= 1,
            ;
        }
    }
}

/// Rounded division, matching `rdiv` exactly.
pub fn div_round(a: i64, b: i64) -> (q: i64)
    requires
        1 <= b <= 0x4000_0000_0000_0000,
        -0x4000_0000_0000_0000 <= a <= 0x4000_0000_0000_0000,
    ensures
        q == rdiv(a as int, b as int),
{
    let bu: u64 = b as u64;
    if a >= 0 {
        let au: u64 = a as u64;
        ((au + bu / 2) / bu) as i64
    } else {
        let au: u64 = (-a) as u64;
        -(((au + bu / 2) / bu) as i64)
    }
}

/// `v` forced into `[lo, hi]`.
pub fn clamp_i64(v: i64, lo: i64, hi: i64) -> (r: i64)
    requires
        lo <= hi,
    ensures
        r == clamp_spec(v as int, lo as int, hi as int),
{
    if v < lo {
        lo
    } else if v > hi {
        hi
    } else {
        v
    }
}

/// A position or displacement, in milli-pixels.
#[derive(Clone, Copy, PartialEq, Eq, Structural, Debug)]
pub struct Point {
    pub x: i64,
    pub y: i64,
}

impl Point {
    /// Both components are valid screen coordinates.
    pub open spec fn in_range_spec(self) -> bool {
        in_range(self.x as int) && in_range(self.y as int)
    }

    /// Both components are valid canvas-space coordinates.
    pub open spec fn in_canvas_range_spec(self) -> bool {
        in_canvas_range(self.x as int) && in_canvas_range(self.y as int)
    }

    pub fn new(x: i64, y: i64) -> (p: Point)
        ensures
            p.x == x,
            p.y == y,
    {
        Point { x, y }
    }
}

/// An axis-aligned rectangle, in milli-pixels.
#[derive(Clone, Copy, PartialEq, Eq, Structural, Debug)]
pub struct Rect {
    pub min: Point,
    pub max: Point,
}

impl Rect {
    /// Corners ordered and within the screen coordinate range.
    pub open spec fn wf(self) -> bool {
        &&& self.min.x <= self.max.x
        &&& self.min.y <= self.max.y
        &&& self.min.in_range_spec()
        &&& self.max.in_range_spec()
    }

    pub open spec fn center_x(self) -> int {
        rdiv(self.min.x + self.max.x, 2)
    }

    pub open spec fn center_y(self) -> int {
        rdiv(self.min.y + self.max.y, 2)
    }

    pub fn new(min: Point, max: Point) -> (r: Rect)
        ensures
            r.min == min,
            r.max == max,
    {
        Rect { min, max }
    }

    pub fn center(&self) -> (c: Point)
        requires
            self.min.in_range_spec(),
            self.max.in_range_spec(),
        ensures
            c.x == self.center_x(),
            c.y == self.center_y(),
    {
        let cx = div_round(self.min.x + self.max.x, 2);
        let cy = div_round(self.min.y + self.max.y, 2);
        Point { x: cx, y: cy }
    }

    /// Both corners included.
    pub open spec fn contains_spec(self, p: Point) -> bool {
        &&& self.min.x <= p.x <= self.max.x
        &&& self.min.y <= p.y <= self.max.y
    }

    pub fn contains(&self, p: Point) -> (r: bool)
        ensures
            r == self.contains_spec(p),
    {
        self.min.x <= p.x && p.x <= self.max.x && self.min.y <= p.y && p.y <= self.max.y
    }
}

} // verus!
