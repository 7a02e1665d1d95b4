//! Points, coordinate clamping and the exact integer predicates used
//! for hit-testing.

use vstd::prelude::*;

use crate::COORD_LIMIT;

verus! {

/// A position in screen-pixel coordinates.
#[derive(Clone, Copy, PartialEq, Eq, Structural, Debug)]
pub struct Point {
    pub x: i64,
    pub y: i64,
}

/// A coordinate the engine stores: inside the bounded canvas.
pub open spec fn coord_ok(v: int) -> bool {
    -(COORD_LIMIT as int) <= v <= COORD_LIMIT as int
}

/// Both coordinates of a point are inside the bounded canvas.
pub open spec fn point_ok(p: Point) -> bool {
    coord_ok(p.x as int) && coord_ok(p.y as int)
}

/// What clamping a value into `[lo, hi]` yields.
pub open spec fn clamp_spec(v: int, lo: int, hi: int) -> int {
    if v < lo {
        lo
    } else if v > hi {
        hi
    } else {
        v
    }
}

/// Clamps `v` into `[lo, hi]`.
pub fn clamp_i64(v: i64, lo: i64, hi: i64) -> (r: i64)
    requires
        lo <= hi,
    ensures
        r as int == clamp_spec(v as int, lo as int, hi as int),
{
    if v < lo {
        lo
    } else if v > hi {
        hi
    } else {
        v
    }
}

/// What clamping a coordinate into the canvas yields.
pub open spec fn clamp_coord_spec(v: int) -> int {
    clamp_spec(v, -(COORD_LIMIT as int), COORD_LIMIT as int)
}

/// Clamps a coordinate into the canvas bound.
pub fn clamp_coord(v: i64) -> (r: i64)
    ensures
        r as int == clamp_coord_spec(v as int),
        coord_ok(r as int),
{
    clamp_i64(v, -COORD_LIMIT, COORD_LIMIT)
}

/// Clamps a point into the canvas bound, coordinate by coordinate.
pub fn clamp_point(p: Point) -> (r: Point)
    ensures
        r.x as int == clamp_coord_spec(p.x as int),
        r.y as int == clamp_coord_spec(p.y as int),
        point_ok(r),
{
    Point { x: clamp_coord(p.x), y: clamp_coord(p.y) }
}

pub open spec fn min_spec(a: int, b: int) -> int {
    if a <= b {
        a
    } else {
        b
    }
}

pub open spec fn max_spec(a: int, b: int) -> int {
    if a >= b {
        a
    } else {
        b
    }
}

pub fn min_i64(a: i64, b: i64) -> (r: i64)
    ensures
        r as int == min_spec(a as int, b as int),
{
    if a <= b {
        a
    } else {
        b
    }
}

pub fn max_i64(a: i64, b: i64) -> (r: i64)
    ensures
        r as int == max_spec(a as int, b as int),
{
    if a >= b {
        a
    } else {
        b
    }
}

pub open spec fn abs_spec(v: int) -> int {
    if v >= 0 {
        v
    } else {
        -v
    }
}

/// Absolute value of a difference of two in-range coordinates.
pub fn abs_diff(a: i64, b: i64) -> (r: i64)
    requires
        coord_ok(a as int),
        coord_ok(b as int),
    ensures
        r as int == abs_spec(a as int - b as int),
        0 <= r <= 2 * COORD_LIMIT,
{
    if a >= b {
        a - b
    } else {
        b - a
    }
}

/// Whether `p` lies in the axis-aligned box `[min_x, max_x] x [min_y, max_y]`.
pub open spec fn in_aabb_spec(p: Point, min_x: int, min_y: int, max_x: int, max_y: int) -> bool {
    min_x <= p.x as int <= max_x && min_y <= p.y as int <= max_y
}

pub fn point_in_aabb(p: Point, min_x: i64, min_y: i64, max_x: i64, max_y: i64) -> (r: bool)
    ensures
        r == in_aabb_spec(p, min_x as int, min_y as int, max_x as int, max_y as int),
{
    p.x >= min_x && p.x <= max_x && p.y >= min_y && p.y <= max_y
}

/// An axis-aligned rectangle given by two corners.
#[derive(Clone, Copy, PartialEq, Eq, Structural, Debug)]
pub struct Rect {
    pub min: Point,
    pub max: Point,
}

/// A rectangle whose corners are ordered and on the canvas.
pub open spec fn rect_ok(r: Rect) -> bool {
    point_ok(r.min) && point_ok(r.max) && r.min.x <= r.max.x && r.min.y <= r.max.y
}

/// Whether `p` lies inside `r`, borders included.
pub open spec fn rect_contains_spec(r: Rect, p: Point) -> bool {
    in_aabb_spec(p, r.min.x as int, r.min.y as int, r.max.x as int, r.max.y as int)
}

impl Rect {
    /// Border-inclusive containment test.
    pub fn contains(&self, p: Point) -> (r: bool)
        ensures
            r == rect_contains_spec(*self, p),
    {
        point_in_aabb(p, self.min.x, self.min.y, self.max.x, self.max.y)
    }
}

/// `a * b` stays within the box given by bounds on `a` and `b`.
pub proof fn lemma_mul_bound(a: int, b: int, aa: int, bb: int)
    requires
        -aa <= a <= aa,
        -bb <= b <= bb,
    ensures
        -(aa * bb) <= a * b <= aa * bb,
{
    assert(-(aa * bb) <= a * b <= aa * bb) by (nonlinear_arith)
        requires
            -aa <= a <= aa,
            -bb <= b <= bb,
    ;
}

/// A square is never negative.
pub proof fn lemma_sq_nonneg(a: int)
    ensures
        a * a >= 0,
{
    assert(a * a >= 0) by (nonlinear_arith);
}

/// Whether `p` satisfies the ellipse inequality
/// `(dx/rx)^2 + (dy/ry)^2 <= 1` for center `c` and radii `rx`, `ry`;
/// false when either radius is not positive.  Stated over the exact
/// cross-multiplied integers.
pub open spec fn ellipse_contains_spec(p: Point, c: Point, rx: int, ry: int) -> bool {
    if rx <= 0 || ry <= 0 {
        false
    } else {
        let dx = p.x as int - c.x as int;
        let dy = p.y as int - c.y as int;
        dx * dx * ry * ry + dy * dy * rx * rx <= rx * rx * ry * ry
    }
}

/// Exact ellipse containment test.
pub fn ellipse_contains(p: Point, c: Point, rx: i64, ry: i64) -> (r: bool)
    requires
        point_ok(p),
        point_ok(c),
        -2 * COORD_LIMIT <= rx as int <= 2 * COORD_LIMIT,
        -2 * COORD_LIMIT <= ry as int <= 2 * COORD_LIMIT,
    ensures
        r == ellipse_contains_spec(p, c, rx as int, ry as int),
{
    if rx <= 0 || ry <= 0 {
        return false;
    }
    let dx: i128 = p.x as i128 - c.x as i128;
    let dy: i128 = p.y as i128 - c.y as i128;
    let rxw: i128 = rx as i128;
    let ryw: i128 = ry as i128;
    proof {
        let l2 = 2_000_000_000int;
        let l4 = 4_000_000_000_000_000_000int;
        lemma_mul_bound(dx as int, dx as int, l2, l2);
        lemma_mul_bound(dy as int, dy as int, l2, l2);
        lemma_mul_bound(rxw as int, rxw as int, l2, l2);
        lemma_mul_bound(ryw as int, ryw as int, l2, l2);
        lemma_mul_bound((dx * dx) as int, ryw as int, l4, l2);
        lemma_mul_bound((dx * dx * ryw) as int, ryw as int, l4 * l2, l2);
        lemma_mul_bound((dy * dy) as int, rxw as int, l4, l2);
        lemma_mul_bound((dy * dy * rxw) as int, rxw as int, l4 * l2, l2);
        lemma_mul_bound((rxw * rxw) as int, ryw as int, l4, l2);
        lemma_mul_bound((rxw * rxw * ryw) as int, ryw as int, l4 * l2, l2);
    }
    dx * dx * ryw * ryw + dy * dy * rxw * rxw <= rxw * rxw * ryw * ryw
}

/// Whether the distance from `p` to the segment `a`-`b` is at most `d`,
/// where the closest point is clamped to the segment.  False for a
/// degenerate segment.  Stated with exact rational arithmetic: with
/// `w = p - a`, `v = b - a`, `t = w.v / |v|^2` clamped to `[0, 1]`, the
/// squared distance to `a + t v` is compared against `d^2` after
/// multiplying through by `|v|^2`.
pub open spec fn seg_within_spec(p: Point, a: Point, b: Point, d: int) -> bool {
    let vx = b.x as int - a.x as int;
    let vy = b.y as int - a.y as int;
    let wx = p.x as int - a.x as int;
    let wy = p.y as int - a.y as int;
    let len2 = vx * vx + vy * vy;
    let dot = wx * vx + wy * vy;
    if len2 == 0 {
        false
    } else if dot <= 0 {
        wx * wx + wy * wy <= d * d
    } else if dot >= len2 {
        let ux = p.x as int - b.x as int;
        let uy = p.y as int - b.y as int;
        ux * ux + uy * uy <= d * d
    } else {
        (wx * wx + wy * wy) * len2 - dot * dot <= d * d * len2
    }
}

/// Exact point-to-segment distance test.
pub fn seg_within(p: Point, a: Point, b: Point, d: i64) -> (r: bool)
    requires
        point_ok(p),
        point_ok(a),
        point_ok(b),
        0 <= d <= 100,
    ensures
        r == seg_within_spec(p, a, b, d as int),
{
    let vx: i128 = b.x as i128 - a.x as i128;
    let vy: i128 = b.y as i128 - a.y as i128;
    let wx: i128 = p.x as i128 - a.x as i128;
    let wy: i128 = p.y as i128 - a.y as i128;
    proof {
        let l2 = 2_000_000_000int;
        let l4 = 4_000_000_000_000_000_000int;
        lemma_mul_bound(vx as int, vx as int, l2, l2);
        lemma_mul_bound(vy as int, vy as int, l2, l2);
        lemma_mul_bound(wx as int, wx as int, l2, l2);
        lemma_mul_bound(wy as int, wy as int, l2, l2);
        lemma_mul_bound(wx as int, vx as int, l2, l2);
        lemma_mul_bound(wy as int, vy as int, l2, l2);
    }
    let len2: i128 = vx * vx + vy * vy;
    let dot: i128 = wx * vx + wy * vy;
    let dw: i128 = d as i128;
    proof {
        let l2 = 2_000_000_000int;
        let l4 = 4_000_000_000_000_000_000int;
        lemma_mul_bound((wx * wx + wy * wy) as int, len2 as int, 2 * l4, 2 * l4);
        lemma_mul_bound(dot as int, dot as int, 2 * l4, 2 * l4);
        lemma_mul_bound(dw as int, dw as int, 100, 100);
        lemma_mul_bound((dw * dw) as int, len2 as int, 10_000, 2 * l4);
    }
    if len2 == 0 {
        false
    } else if dot <= 0 {
        wx * wx + wy * wy <= dw * dw
    } else if dot >= len2 {
        let ux: i128 = p.x as i128 - b.x as i128;
        let uy: i128 = p.y as i128 - b.y as i128;
        proof {
            let l2 = 2_000_000_000int;
            lemma_mul_bound(ux as int, ux as int, l2, l2);
            lemma_mul_bound(uy as int, uy as int, l2, l2);
        }
        ux * ux + uy * uy <= dw * dw
    } else {
        (wx * wx + wy * wy) * len2 - dot * dot <= dw * dw * len2
    }
}

/// Whether the distance between `p` and `q` is at most `d`:
/// `|p - q|^2 <= d^2` exactly.
pub open spec fn within_dist_spec(p: Point, q: Point, d: int) -> bool {
    let dx = p.x as int - q.x as int;
    let dy = p.y as int - q.y as int;
    dx * dx + dy * dy <= d * d
}

pub fn within_dist(p: Point, q: Point, d: i64) -> (r: bool)
    requires
        -4 * COORD_LIMIT <= p.x as int <= 4 * COORD_LIMIT,
        -4 * COORD_LIMIT <= p.y as int <= 4 * COORD_LIMIT,
        -4 * COORD_LIMIT <= q.x as int <= 4 * COORD_LIMIT,
        -4 * COORD_LIMIT <= q.y as int <= 4 * COORD_LIMIT,
        0 <= d <= 1_000_000,
    ensures
        r == within_dist_spec(p, q, d as int),
{
    let dx: i128 = p.x as i128 - q.x as i128;
    let dy: i128 = p.y as i128 - q.y as i128;
    let dw: i128 = d as i128;
    proof {
        let l8 = 8_000_000_000int;
        lemma_mul_bound(dx as int, dx as int, l8, l8);
        lemma_mul_bound(dy as int, dy as int, l8, l8);
        lemma_mul_bound(dw as int, dw as int, 1_000_000, 1_000_000);
    }
    dx * dx + dy * dy <= dw * dw
}

/// Floor of the square root: `r * r <= n < (r + 1) * (r + 1)`.
pub open spec fn is_isqrt(n: int, r: int) -> bool {
    0 <= r && r * r <= n < (r + 1) * (r + 1)
}

/// Integer square root by bisection.
pub fn isqrt_u64(n: u64) -> (r: u64)
    requires
        n <= 8_000_000_000_000_000_000,
    ensures
        is_isqrt(n as int, r as int),
        r <= 3_000_000_000,
{
    let mut lo: u64 = 0;
    let mut hi: u64 = 3_000_000_000;
    proof {
        assert((3_000_000_000 as int) * (3_000_000_000 as int) > n as int) by (nonlinear_arith)
            requires
                n <= 8_000_000_000_000_000_000,
        ;
    }
    while lo + 1 < hi
        invariant
            0 <= lo < hi <= 3_000_000_000,
            (lo as int) * (lo as int) <= n as int,
            (hi as int) * (hi as int) > n as int,
        decreases hi - lo,
    {
        let mid: u64 = lo + (hi - lo) / 2;
        proof {
            lemma_mul_bound(mid as int, mid as int, 3_000_000_000, 3_000_000_000);
        }
        if mid * mid <= n {
            lo = mid;
        } else {
            hi = mid;
        }
    }
    lo
}

} // verus!

