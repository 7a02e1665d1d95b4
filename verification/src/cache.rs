//! The geometry cache: turns elements into render-ready line
//! segments (rectangle edges, an ellipse polygon, arrow shaft and
//! head, freehand point pairs) and keeps the result per content
//! fingerprint until the element mutates.

use vstd::prelude::*;
use vstd::pervasive::VecAdditionalExecFns;

use crate::element::wf_elem;
use crate::element::DrawingElement;
use crate::element::ElemV;
use crate::element::elem_eq;
use crate::geom::is_isqrt;
use crate::geom::isqrt_u64;
use crate::geom::point_ok;
use crate::geom::Point;
use crate::ARROW_HEAD_LEN;
use crate::ARROW_HEAD_WIDTH;
use crate::COORD_LIMIT;
use crate::ELLIPSE_SEGMENTS;

verus! {

/// One line segment in screen-pixel space.
#[derive(Clone, Copy, PartialEq, Eq, Structural, Debug)]
pub struct Segment {
    pub a: Point,
    pub b: Point,
}

/// Cosine table for a quarter turn in 32nds of a full turn, in
/// milli-units.
pub open spec fn quarter_cos(k: int) -> int {
    if k <= 0 {
        1000
    } else if k == 1 {
        981
    } else if k == 2 {
        924
    } else if k == 3 {
        831
    } else if k == 4 {
        707
    } else if k == 5 {
        556
    } else if k == 6 {
        383
    } else if k == 7 {
        195
    } else {
        0
    }
}

/// Cosine of `i` 32nds of a full turn, in milli-units.
pub open spec fn cos_milli(i: int) -> int {
    if i <= 8 {
        quarter_cos(i)
    } else if i <= 16 {
        -quarter_cos(16 - i)
    } else if i <= 24 {
        -quarter_cos(i - 16)
    } else {
        quarter_cos(32 - i)
    }
}

/// Sine of `i` 32nds of a full turn, in milli-units.
pub open spec fn sin_milli(i: int) -> int {
    if i <= 8 {
        quarter_cos(8 - i)
    } else if i <= 16 {
        quarter_cos(i - 8)
    } else if i <= 24 {
        -quarter_cos(24 - i)
    } else {
        -quarter_cos(i - 24)
    }
}

/// A radius scaled by a milli-unit factor, rounded towards zero.
pub open spec fn scaled_ofs(r: int, c: int) -> int {
    if c >= 0 {
        r * c / 1000
    } else {
        -(r * (-c) / 1000)
    }
}

/// Truncating division (rounding towards zero) by a positive
/// divisor.
pub open spec fn div_trunc(a: int, b: int) -> int {
    if a >= 0 {
        a / b
    } else {
        -((-a) / b)
    }
}

/// The `i`-th vertex of the polygon approximating the ellipse.
pub open spec fn ellipse_pt(center: Point, rx: int, ry: int, i: int) -> Point {
    Point {
        x: (center.x as int + scaled_ofs(rx, cos_milli(i))) as i64,
        y: (center.y as int + scaled_ofs(ry, sin_milli(i))) as i64,
    }
}

/// The floor of the square root, as a function.
pub open spec fn sqrt_floor(n: int) -> int {
    choose|r: int| is_isqrt(n, r)
}

/// The floor square root is unique.
pub proof fn lemma_isqrt_unique(n: int, r1: int, r2: int)
    requires
        is_isqrt(n, r1),
        is_isqrt(n, r2),
    ensures
        r1 == r2,
{
    if r1 < r2 {
        assert((r1 + 1) * (r1 + 1) <= r2 * r2) by (nonlinear_arith)
            requires
                0 <= r1,
                r1 + 1 <= r2,
        ;
    }
    if r2 < r1 {
        assert((r2 + 1) * (r2 + 1) <= r1 * r1) by (nonlinear_arith)
            requires
                0 <= r2,
                r2 + 1 <= r1,
        ;
    }
}

/// The segments an element renders as: four edges for a rectangle, a
/// polygon for an ellipse, shaft plus two head flanks for an arrow
/// (the head only when the shaft is longer than one pixel), one
/// segment per consecutive point pair for a freehand stroke, and
/// none for a text (shaped by the external text service).
pub open spec fn segments_spec(e: ElemV) -> Seq<Segment> {
    match e {
        ElemV::Rectangle { start, end, .. } => seq![
            Segment { a: start, b: Point { x: end.x, y: start.y } },
            Segment { a: Point { x: end.x, y: start.y }, b: end },
            Segment { a: end, b: Point { x: start.x, y: end.y } },
            Segment { a: Point { x: start.x, y: end.y }, b: start },
        ],
        ElemV::Ellipse { center, radius_x, radius_y, .. } => Seq::new(
            ELLIPSE_SEGMENTS as nat,
            |i: int|
                Segment {
                    a: ellipse_pt(center, radius_x, radius_y, i),
                    b: ellipse_pt(
                        center,
                        radius_x,
                        radius_y,
                        if i == ELLIPSE_SEGMENTS as int - 1 {
                            0
                        } else {
                            i + 1
                        },
                    ),
                },
        ),
        ElemV::Arrow { start, end, .. } => {
            let dx = end.x as int - start.x as int;
            let dy = end.y as int - start.y as int;
            let len2 = dx * dx + dy * dy;
            let shaft = seq![Segment { a: start, b: end }];
            if len2 > 1 {
                let len = sqrt_floor(len2);
                let al = ARROW_HEAD_LEN as int;
                let aw = ARROW_HEAD_WIDTH as int;
                let p1 = Point {
                    x: (end.x as int + div_trunc(-al * dx + aw * dy, len)) as i64,
                    y: (end.y as int + div_trunc(-al * dy - aw * dx, len)) as i64,
                };
                let p2 = Point {
                    x: (end.x as int + div_trunc(-al * dx - aw * dy, len)) as i64,
                    y: (end.y as int + div_trunc(-al * dy + aw * dx, len)) as i64,
                };
                shaft.push(Segment { a: end, b: p1 }).push(Segment { a: end, b: p2 })
            } else {
                shaft
            }
        },
        ElemV::Freehand { points, .. } => Seq::new(
            if points.len() == 0 {
                0
            } else {
                (points.len() - 1) as nat
            },
            |i: int| Segment { a: points[i], b: points[i + 1] },
        ),
        ElemV::Text { .. } => Seq::empty(),
    }
}

/// Cosine lookup for one polygon step.
fn cos_milli_at(i: u32) -> (c: i64)
    requires
        i < 32,
    ensures
        c as int == cos_milli(i as int),
        -1000 <= c <= 1000,
{
    let k: u32 = if i <= 8 {
        i
    } else if i <= 16 {
        16 - i
    } else if i <= 24 {
        i - 16
    } else {
        32 - i
    };
    let q = quarter_cos_at(k);
    if i <= 8 {
        q
    } else if i <= 24 {
        -q
    } else {
        q
    }
}

/// Sine lookup for one polygon step.
fn sin_milli_at(i: u32) -> (c: i64)
    requires
        i < 32,
    ensures
        c as int == sin_milli(i as int),
        -1000 <= c <= 1000,
{
    let k: u32 = if i <= 8 {
        8 - i
    } else if i <= 16 {
        i - 8
    } else if i <= 24 {
        24 - i
    } else {
        i - 24
    };
    let q = quarter_cos_at(k);
    if i <= 16 {
        q
    } else {
        -q
    }
}

/// Quarter-turn cosine table lookup.
fn quarter_cos_at(k: u32) -> (q: i64)
    ensures
        q as int == quarter_cos(k as int),
        0 <= q <= 1000,
{
    if k == 0 {
        1000
    } else if k == 1 {
        981
    } else if k == 2 {
        924
    } else if k == 3 {
        831
    } else if k == 4 {
        707
    } else if k == 5 {
        556
    } else if k == 6 {
        383
    } else if k == 7 {
        195
    } else {
        0
    }
}

/// Scales a radius by a milli-unit factor.
fn scaled_ofs_at(r: i64, c: i64) -> (o: i64)
    requires
        0 <= r as int <= 2 * COORD_LIMIT,
        -1000 <= c <= 1000,
    ensures
        o as int == scaled_ofs(r as int, c as int),
        -2 * COORD_LIMIT <= o as int <= 2 * COORD_LIMIT,
{
    if c >= 0 {
        proof {
            crate::geom::lemma_mul_bound(r as int, c as int, 2_000_000_000, 1000);
            assert(0 <= (r as int) * (c as int) <= 2_000_000_000_000) by (nonlinear_arith)
                requires
                    0 <= (r as int) <= 2_000_000_000,
                    0 <= (c as int) <= 1000,
            ;
            assert(0 <= (r as int) * (c as int) / 1000 <= 2_000_000_000) by (nonlinear_arith)
                requires
                    0 <= (r as int) * (c as int) <= 2_000_000_000_000,
            ;
        }
        r * c / 1000
    } else {
        proof {
            crate::geom::lemma_mul_bound(r as int, -(c as int), 2_000_000_000, 1000);
            assert(0 <= (r as int) * (-(c as int)) <= 2_000_000_000_000) by (nonlinear_arith)
                requires
                    0 <= (r as int) <= 2_000_000_000,
                    0 <= (-(c as int)) <= 1000,
            ;
            assert(0 <= (r as int) * (-(c as int)) / 1000 <= 2_000_000_000) by (nonlinear_arith)
                requires
                    0 <= (r as int) * (-(c as int)) <= 2_000_000_000_000,
            ;
        }
        -(r * (-c) / 1000)
    }
}

/// Truncating division by a positive divisor.
fn div_trunc_at(a: i64, b: i64) -> (r: i64)
    requires
        b > 0,
        -100_000_000_000 <= a as int <= 100_000_000_000,
    ensures
        r as int == div_trunc(a as int, b as int),
        -100_000_000_000 <= r as int <= 100_000_000_000,
{
    if a >= 0 {
        proof {
            assert(0 <= a as int / (b as int) <= a as int) by (nonlinear_arith)
                requires
                    (a as int) >= 0,
                    (b as int) > 0,
            ;
        }
        a / b
    } else {
        proof {
            assert(0 <= (-(a as int)) / (b as int) <= -(a as int)) by (nonlinear_arith)
                requires
                    (a as int) < 0,
                    (b as int) > 0,
            ;
        }
        -((-a) / b)
    }
}

/// Computes the element's segments.
pub fn segments_for(e: &DrawingElement) -> (r: Vec<Segment>)
    requires
        wf_elem(e@),
    ensures
        r@ == segments_spec(e@),
{
    let mut r: Vec<Segment> = Vec::new();
    match e {
        DrawingElement::Rectangle { start, end, .. } => {
            r.push(Segment { a: *start, b: Point { x: end.x, y: start.y } });
            r.push(Segment { a: Point { x: end.x, y: start.y }, b: *end });
            r.push(Segment { a: *end, b: Point { x: start.x, y: end.y } });
            r.push(Segment { a: Point { x: start.x, y: end.y }, b: *start });
            proof {
                assert(r@ =~= segments_spec(e@));
            }
        },
        DrawingElement::Ellipse { center, radius_x, radius_y, .. } => {
            let mut i: u32 = 0;
            while i < ELLIPSE_SEGMENTS
                invariant
                    0 <= i <= ELLIPSE_SEGMENTS,
                    wf_elem(e@),
                    e@ matches ElemV::Ellipse { center: c2, radius_x: rx2, radius_y: ry2, .. }
                        && c2 == *center && rx2 == *radius_x as int && ry2 == *radius_y as int,
                    point_ok(*center),
                    0 <= *radius_x as int <= 2 * COORD_LIMIT,
                    0 <= *radius_y as int <= 2 * COORD_LIMIT,
                    r@.len() == i,
                    forall|j: int| 0 <= j < i ==> r@[j] == segments_spec(e@)[j],
                decreases ELLIPSE_SEGMENTS - i,
            {
                let ca = cos_milli_at(i);
                let sa = sin_milli_at(i);
                let ni: u32 = if i == ELLIPSE_SEGMENTS - 1 {
                    0
                } else {
                    i + 1
                };
                let cb = cos_milli_at(ni);
                let sb = sin_milli_at(ni);
                let pa = Point {
                    x: center.x + scaled_ofs_at(*radius_x, ca),
                    y: center.y + scaled_ofs_at(*radius_y, sa),
                };
                let pb = Point {
                    x: center.x + scaled_ofs_at(*radius_x, cb),
                    y: center.y + scaled_ofs_at(*radius_y, sb),
                };
                r.push(Segment { a: pa, b: pb });
                i = i + 1;
            }
            proof {
                assert(r@ =~= segments_spec(e@));
            }
        },
        DrawingElement::Arrow { start, end, .. } => {
            r.push(Segment { a: *start, b: *end });
            let dx: i64 = end.x - start.x;
            let dy: i64 = end.y - start.y;
            proof {
                crate::geom::lemma_mul_bound(dx as int, dx as int, 2_000_000_000, 2_000_000_000);
                crate::geom::lemma_mul_bound(dy as int, dy as int, 2_000_000_000, 2_000_000_000);
                crate::geom::lemma_sq_nonneg(dx as int);
                crate::geom::lemma_sq_nonneg(dy as int);
            }
            let len2: i64 = dx * dx + dy * dy;
            if len2 > 1 {
                let len_u = isqrt_u64(len2 as u64);
                proof {
                    assert(is_isqrt(len2 as int, len_u as int));
                    assert(is_isqrt(len2 as int, sqrt_floor(len2 as int)));
                    lemma_isqrt_unique(len2 as int, len_u as int, sqrt_floor(len2 as int));
                    assert(len_u >= 1) by {
                        if len_u == 0 {
                            assert((0 + 1) * (0 + 1) == 1);
                        }
                    }
                }
                let len: i64 = len_u as i64;
                let p1 = Point {
                    x: end.x + div_trunc_at(-ARROW_HEAD_LEN * dx + ARROW_HEAD_WIDTH * dy, len),
                    y: end.y + div_trunc_at(-ARROW_HEAD_LEN * dy - ARROW_HEAD_WIDTH * dx, len),
                };
                let p2 = Point {
                    x: end.x + div_trunc_at(-ARROW_HEAD_LEN * dx - ARROW_HEAD_WIDTH * dy, len),
                    y: end.y + div_trunc_at(-ARROW_HEAD_LEN * dy + ARROW_HEAD_WIDTH * dx, len),
                };
                r.push(Segment { a: *end, b: p1 });
                r.push(Segment { a: *end, b: p2 });
            }
            proof {
                assert(r@ =~= segments_spec(e@));
            }
        },
        DrawingElement::Freehand { points, .. } => {
            if points.len() > 0 {
                let m = points.len() - 1;
                let mut i: usize = 0;
                while i < m
                    invariant
                        points@.len() > 0,
                        m == points@.len() - 1,
                        0 <= i <= m,
                        r@.len() == i,
                        forall|j: int|
                            0 <= j < i ==> r@[j] == (Segment {
                                a: points@[j],
                                b: points@[j + 1],
                            }),
                    decreases points@.len() - i,
                {
                    r.push(Segment { a: points[i], b: points[i + 1] });
                    i = i + 1;
                }
            }
            proof {
                assert(r@ =~= segments_spec(e@));
            }
        },
        DrawingElement::Text { .. } => {
            proof {
                assert(r@ =~= segments_spec(e@));
            }
        },
    }
    r
}

/// Copies a segment list.
pub fn clone_segments(v: &Vec<Segment>) -> (r: Vec<Segment>)
    ensures
        r@ == v@,
{
    let mut r: Vec<Segment> = Vec::new();
    let mut i: usize = 0;
    while i < v.len()
        invariant
            0 <= i <= v@.len(),
            r@ == v@.subrange(0, i as int),
        decreases v@.len() - i,
    {
        r.push(v[i]);
        i = i + 1;
    }
    proof {
        assert(v@.subrange(0, v@.len() as int) =~= v@);
    }
    r
}

/// Seed and multiplier of the fingerprint mix (the classic
/// Fowler-Noll-Vo parameters).
pub const FP_SEED: u64 = 0xcbf29ce484222325;

pub const FP_PRIME: u64 = 0x100000001b3;

/// One fingerprint mixing step.
pub open spec fn mix(h: u64, v: u64) -> u64 {
    (h ^ v).wrapping_mul(FP_PRIME)
}

/// Executable mixing step.
pub fn mix_at(h: u64, v: u64) -> (r: u64)
    ensures
        r == mix(h, v),
{
    (h ^ v).wrapping_mul(FP_PRIME)
}

/// Folds a point list into the fingerprint.
pub open spec fn fp_points(h: u64, s: Seq<Point>) -> u64
    decreases s.len(),
{
    if s.len() == 0 {
        h
    } else {
        fp_points(mix(mix(h, s[0].x as u64), s[0].y as u64), s.drop_first())
    }
}

/// Folds a character list into the fingerprint.
pub open spec fn fp_chars(h: u64, s: Seq<char>) -> u64
    decreases s.len(),
{
    if s.len() == 0 {
        h
    } else {
        fp_chars(mix(h, s[0] as u64), s.drop_first())
    }
}

/// The structural fingerprint of an element: a fold of its variant
/// tag and all its fields.
pub open spec fn fp_elem(e: ElemV) -> u64 {
    match e {
        ElemV::Rectangle { start, end, color, thickness } => mix(
            mix(
                mix(
                    mix(
                        mix(
                            mix(
                                mix(mix(FP_SEED, 1), start.x as u64),
                                start.y as u64,
                            ),
                            end.x as u64,
                        ),
                        end.y as u64,
                    ),
                    color.r as u64,
                ),
                color.g as u64,
            ),
            (color.b as u64) ^ ((thickness as u64) << 8),
        ),
        ElemV::Ellipse { center, radius_x, radius_y, color, thickness } => mix(
            mix(
                mix(
                    mix(
                        mix(
                            mix(
                                mix(mix(FP_SEED, 2), center.x as u64),
                                center.y as u64,
                            ),
                            radius_x as u64,
                        ),
                        radius_y as u64,
                    ),
                    color.r as u64,
                ),
                color.g as u64,
            ),
            (color.b as u64) ^ ((thickness as u64) << 8),
        ),
        ElemV::Arrow { start, end, color, thickness } => mix(
            mix(
                mix(
                    mix(
                        mix(
                            mix(
                                mix(mix(FP_SEED, 3), start.x as u64),
                                start.y as u64,
                            ),
                            end.x as u64,
                        ),
                        end.y as u64,
                    ),
                    color.r as u64,
                ),
                color.g as u64,
            ),
            (color.b as u64) ^ ((thickness as u64) << 8),
        ),
        ElemV::Freehand { points, color, thickness } => fp_points(
            mix(
                mix(mix(mix(FP_SEED, 4), color.r as u64), color.g as u64),
                (color.b as u64) ^ ((thickness as u64) << 8),
            ),
            points,
        ),
        ElemV::Text { position, content, font_size, is_editing, color } => fp_chars(
            mix(
                mix(
                    mix(
                        mix(
                            mix(
                                mix(mix(FP_SEED, 5), position.x as u64),
                                position.y as u64,
                            ),
                            font_size as u64,
                        ),
                        if is_editing {
                            1
                        } else {
                            0
                        },
                    ),
                    color.r as u64,
                ),
                (color.g as u64) ^ ((color.b as u64) << 8),
            ),
            content,
        ),
    }
}

/// Folds a point list into the fingerprint, executably.
fn fp_points_at(h0: u64, s: &Vec<Point>) -> (r: u64)
    ensures
        r == fp_points(h0, s@),
{
    let mut h = h0;
    let mut i: usize = 0;
    proof {
        assert(s@.skip(0) =~= s@);
    }
    while i < s.len()
        invariant
            0 <= i <= s@.len(),
            fp_points(h0, s@) == fp_points(h, s@.skip(i as int)),
        decreases s@.len() - i,
    {
        let p = s[i];
        proof {
            assert(s@.skip(i as int).drop_first() =~= s@.skip(i as int + 1));
            assert(s@.skip(i as int)[0] == s@[i as int]);
        }
        h = mix_at(mix_at(h, p.x as u64), p.y as u64);
        i = i + 1;
    }
    proof {
        assert(s@.skip(s@.len() as int).len() == 0);
    }
    h
}

/// Folds a character list into the fingerprint, executably.
fn fp_chars_at(h0: u64, s: &Vec<char>) -> (r: u64)
    ensures
        r == fp_chars(h0, s@),
{
    let mut h = h0;
    let mut i: usize = 0;
    proof {
        assert(s@.skip(0) =~= s@);
    }
    while i < s.len()
        invariant
            0 <= i <= s@.len(),
            fp_chars(h0, s@) == fp_chars(h, s@.skip(i as int)),
        decreases s@.len() - i,
    {
        let c = s[i];
        proof {
            assert(s@.skip(i as int).drop_first() =~= s@.skip(i as int + 1));
            assert(s@.skip(i as int)[0] == s@[i as int]);
        }
        h = mix_at(h, c as u64);
        i = i + 1;
    }
    proof {
        assert(s@.skip(s@.len() as int).len() == 0);
    }
    h
}

/// Computes the element's structural fingerprint.
pub fn fingerprint(e: &DrawingElement) -> (r: u64)
    ensures
        r == fp_elem(e@),
{
    match e {
        DrawingElement::Rectangle { start, end, color, thickness } => mix_at(
            mix_at(
                mix_at(
                    mix_at(
                        mix_at(
                            mix_at(
                                mix_at(mix_at(FP_SEED, 1), start.x as u64),
                                start.y as u64,
                            ),
                            end.x as u64,
                        ),
                        end.y as u64,
                    ),
                    color.r as u64,
                ),
                color.g as u64,
            ),
            (color.b as u64) ^ ((*thickness as u64) << 8u64),
        ),
        DrawingElement::Ellipse { center, radius_x, radius_y, color, thickness } => mix_at(
            mix_at(
                mix_at(
                    mix_at(
                        mix_at(
                            mix_at(
                                mix_at(mix_at(FP_SEED, 2), center.x as u64),
                                center.y as u64,
                            ),
                            *radius_x as u64,
                        ),
                        *radius_y as u64,
                    ),
                    color.r as u64,
                ),
                color.g as u64,
            ),
            (color.b as u64) ^ ((*thickness as u64) << 8u64),
        ),
        DrawingElement::Arrow { start, end, color, thickness } => mix_at(
            mix_at(
                mix_at(
                    mix_at(
                        mix_at(
                            mix_at(
                                mix_at(mix_at(FP_SEED, 3), start.x as u64),
                                start.y as u64,
                            ),
                            end.x as u64,
                        ),
                        end.y as u64,
                    ),
                    color.r as u64,
                ),
                color.g as u64,
            ),
            (color.b as u64) ^ ((*thickness as u64) << 8u64),
        ),
        DrawingElement::Freehand { points, color, thickness } => fp_points_at(
            mix_at(
                mix_at(mix_at(mix_at(FP_SEED, 4), color.r as u64), color.g as u64),
                (color.b as u64) ^ ((*thickness as u64) << 8u64),
            ),
            points,
        ),
        DrawingElement::Text { position, content, font_size, is_editing, color } => fp_chars_at(
            mix_at(
                mix_at(
                    mix_at(
                        mix_at(
                            mix_at(
                                mix_at(mix_at(FP_SEED, 5), position.x as u64),
                                position.y as u64,
                            ),
                            *font_size as u64,
                        ),
                        if *is_editing {
                            1
                        } else {
                            0
                        },
                    ),
                    color.r as u64,
                ),
                (color.g as u64) ^ ((color.b as u64) << 8u64),
            ),
            content,
        ),
    }
}

/// One cache slot: the fingerprint, the element content it was
/// computed for, its segments, and whether the slot is still valid.
pub struct CacheEntry {
    pub key: u64,
    pub valid: bool,
    pub element: DrawingElement,
    pub segments: Vec<Segment>,
}

/// Whether the entry's stored segments are the ones its element
/// tessellates to, and its key its element's fingerprint.
pub open spec fn entry_ok(c: CacheEntry) -> bool {
    (c.valid ==> c.segments@ == segments_spec(c.element@)) && c.key == fp_elem(c.element@)
}

/// All entries of the sequence are consistent.
pub open spec fn entries_ok(s: Seq<CacheEntry>) -> bool {
    forall|i: int| 0 <= i < s.len() ==> entry_ok(#[trigger] s[i])
}

/// Maps an element's content fingerprint to its segments; a lookup
/// on a mutated element misses (the fingerprint changed or the slot
/// was invalidated) and recomputes in place.
pub struct GeometryCache {
    pub entries: Vec<CacheEntry>,
}

impl GeometryCache {
    pub open spec fn wf(&self) -> bool {
        entries_ok(self.entries@)
    }

    /// An empty cache.
    pub fn new() -> (r: GeometryCache)
        ensures
            r.wf(),
            r.entries@.len() == 0,
    {
        GeometryCache { entries: Vec::new() }
    }

    /// The segments for `e`: served from a valid matching slot, or
    /// recomputed and stored.  Either way the result is exactly the
    /// element's tessellation.
    pub fn vertices_for(&mut self, e: &DrawingElement) -> (r: Vec<Segment>)
        requires
            old(self).wf(),
            wf_elem(e@),
        ensures
            final(self).wf(),
            r@ == segments_spec(e@),
    {
        let key = fingerprint(e);
        let mut i: usize = 0;
        while i < self.entries.len()
            invariant
                0 <= i <= self.entries@.len(),
                entries_ok(self.entries@),
                key == fp_elem(e@),
                wf_elem(e@),
            decreases self.entries@.len() - i,
        {
            let hit = {
                let entry = &self.entries[i];
                entry.valid && entry.key == key && elem_eq(&entry.element, e)
            };
            if hit {
                return clone_segments(&self.entries[i].segments);
            }
            i = i + 1;
        }
        let segs = segments_for(e);
        let entry = CacheEntry {
            key,
            valid: true,
            element: e.duplicate(),
            segments: clone_segments(&segs),
        };
        let mut j: usize = 0;
        let mut replaced = false;
        let n = self.entries.len();
        while j < n && !replaced
            invariant
                0 <= j <= n,
                n == self.entries@.len(),
                entries_ok(self.entries@),
                entry_ok(entry),
            decreases n - j + (if replaced {
                0int
            } else {
                1int
            }),
        {
            if self.entries[j].key == key {
                let e2 = CacheEntry {
                    key: entry.key,
                    valid: entry.valid,
                    element: entry.element.duplicate(),
                    segments: clone_segments(&entry.segments),
                };
                self.entries.set(j, e2);
                replaced = true;
            } else {
                j = j + 1;
            }
        }
        if !replaced {
            self.entries.push(entry);
        }
        segs
    }

    /// Marks the slot(s) carrying this element's fingerprint stale
    /// without evicting them; the next lookup recomputes.
    pub fn invalidate(&mut self, e: &DrawingElement)
        requires
            old(self).wf(),
        ensures
            final(self).wf(),
            final(self).entries@.len() == old(self).entries@.len(),
            forall|i: int|
                0 <= i < final(self).entries@.len() ==> (#[trigger] final(self).entries@[i]).key
                    == old(self).entries@[i].key && (final(self).entries@[i].key == fp_elem(e@)
                    ==> !final(self).entries@[i].valid) && (final(self).entries@[i].key != fp_elem(
                    e@,
                ) ==> final(self).entries@[i].valid == old(self).entries@[i].valid),
    {
        let key = fingerprint(e);
        let mut i: usize = 0;
        while i < self.entries.len()
            invariant
                0 <= i <= self.entries@.len(),
                self.entries@.len() == old(self).entries@.len(),
                entries_ok(self.entries@),
                key == fp_elem(e@),
                forall|k: int|
                    0 <= k < self.entries@.len() ==> (#[trigger] self.entries@[k]).key == old(
                        self,
                    ).entries@[k].key,
                forall|k: int|
                    0 <= k < i ==> ((#[trigger] self.entries@[k]).key == key ==> !self.entries@[k].valid),
                forall|k: int|
                    0 <= k < self.entries@.len() ==> ((#[trigger] self.entries@[k]).key != key
                        ==> self.entries@[k].valid == old(self).entries@[k].valid),
                forall|k: int|
                    i <= k < self.entries@.len() ==> (#[trigger] self.entries@[k]).valid == old(
                        self,
                    ).entries@[k].valid,
            decreases self.entries@.len() - i,
        {
            if self.entries[i].key == key {
                let old_entry = &self.entries[i];
                let e2 = CacheEntry {
                    key: old_entry.key,
                    valid: false,
                    element: old_entry.element.duplicate(),
                    segments: clone_segments(&old_entry.segments),
                };
                self.entries.set(i, e2);
            }
            i = i + 1;
        }
    }

    /// Marks every slot stale without evicting storage.
    pub fn invalidate_all(&mut self)
        requires
            old(self).wf(),
        ensures
            final(self).wf(),
            final(self).entries@.len() == old(self).entries@.len(),
            forall|i: int|
                0 <= i < final(self).entries@.len() ==> !(#[trigger] final(self).entries@[i]).valid,
    {
        let mut i: usize = 0;
        while i < self.entries.len()
            invariant
                0 <= i <= self.entries@.len(),
                self.entries@.len() == old(self).entries@.len(),
                entries_ok(self.entries@),
                forall|k: int| 0 <= k < i ==> !(#[trigger] self.entries@[k]).valid,
            decreases self.entries@.len() - i,
        {
            let old_entry = &self.entries[i];
            let e2 = CacheEntry {
                key: old_entry.key,
                valid: false,
                element: old_entry.element.duplicate(),
                segments: clone_segments(&old_entry.segments),
            };
            self.entries.set(i, e2);
            i = i + 1;
        }
    }
}

} // verus!
