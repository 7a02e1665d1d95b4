//! Selection handles, hit-testing and handle-driven transforms.

use vstd::prelude::*;

use crate::element::committed_elem;
use crate::element::text_box_size;
use crate::element::text_height_spec;
use crate::element::text_width_spec;
use crate::element::wf_elem;
use crate::element::DrawingElement;
use crate::element::ElemV;
use crate::geom::abs_diff;
use crate::geom::abs_spec;
use crate::geom::clamp_coord;
use crate::geom::clamp_coord_spec;
use crate::geom::ellipse_contains;
use crate::geom::ellipse_contains_spec;
use crate::geom::in_aabb_spec;
use crate::geom::max_i64;
use crate::geom::max_spec;
use crate::geom::min_i64;
use crate::geom::min_spec;
use crate::geom::point_in_aabb;
use crate::geom::point_ok;
use crate::geom::seg_within;
use crate::geom::seg_within_spec;
use crate::geom::within_dist;
use crate::geom::within_dist_spec;
use crate::geom::Point;
use crate::ARROW_HIT_DIST;
use crate::COORD_LIMIT;
use crate::FONT_MAX;
use crate::FONT_MIN;
use crate::HANDLE_SIZE;
use crate::MIN_ELLIPSE_RADIUS;
use crate::MIN_RECT_SIZE;
use crate::TEXT_PADDING;

verus! {

/// The kinds of manipulation handles: the eight box handles shared by
/// rectangles, ellipses and (four of them) texts, and the two arrow
/// endpoint handles.
#[derive(Clone, Copy, PartialEq, Eq, Structural, Debug)]
pub enum HandleKind {
    TopLeft,
    TopCenter,
    TopRight,
    MiddleLeft,
    MiddleRight,
    BottomLeft,
    BottomCenter,
    BottomRight,
    ArrowStart,
    ArrowEnd,
}

/// An ephemeral manipulation handle, regenerated on every selection
/// or geometry change.
#[derive(Clone, Copy, PartialEq, Eq, Structural, Debug)]
pub struct Handle {
    pub kind: HandleKind,
    pub position: Point,
    pub size: i64,
    pub owner_index: usize,
}

/// Handle positions stay within a slightly widened canvas (an
/// ellipse's box handles reach beyond its center by up to two canvas
/// bounds).
pub open spec fn handle_ok(h: Handle) -> bool {
    -4 * COORD_LIMIT <= h.position.x as int <= 4 * COORD_LIMIT && -4 * COORD_LIMIT
        <= h.position.y as int <= 4 * COORD_LIMIT && h.size == HANDLE_SIZE
}

/// Midpoint of an ordered pair, rounded down.
pub open spec fn mid_spec(lo: int, hi: int) -> int {
    lo + (hi - lo) / 2
}

/// The midpoint lies between its bounds.
pub proof fn lemma_mid_between(lo: int, hi: int)
    requires
        lo <= hi,
    ensures
        lo <= mid_spec(lo, hi) <= hi,
{
    assert(0 <= (hi - lo) / 2 <= hi - lo) by (nonlinear_arith)
        requires
            hi - lo >= 0,
    ;
}

/// The eight box handles of the box `[lo_x, hi_x] x [lo_y, hi_y]`,
/// in the fixed order: top-left, top-center, top-right, middle-left,
/// middle-right, bottom-left, bottom-center, bottom-right.
pub open spec fn box_handles_spec(lo_x: int, lo_y: int, hi_x: int, hi_y: int, idx: int) -> Seq<
    Handle,
> {
    let cx = mid_spec(lo_x, hi_x);
    let cy = mid_spec(lo_y, hi_y);
    seq![
        box_handle(HandleKind::TopLeft, lo_x, lo_y, idx),
        box_handle(HandleKind::TopCenter, cx, lo_y, idx),
        box_handle(HandleKind::TopRight, hi_x, lo_y, idx),
        box_handle(HandleKind::MiddleLeft, lo_x, cy, idx),
        box_handle(HandleKind::MiddleRight, hi_x, cy, idx),
        box_handle(HandleKind::BottomLeft, lo_x, hi_y, idx),
        box_handle(HandleKind::BottomCenter, cx, hi_y, idx),
        box_handle(HandleKind::BottomRight, hi_x, hi_y, idx),
    ]
}

/// One handle of the standard size at `(x, y)`.
pub open spec fn box_handle(kind: HandleKind, x: int, y: int, idx: int) -> Handle {
    Handle {
        kind,
        position: Point { x: x as i64, y: y as i64 },
        size: HANDLE_SIZE,
        owner_index: idx as usize,
    }
}

/// The bounding box corners of an element, for handle placement:
/// rectangles and arrows by their (unordered) corner pairs, ellipses
/// by center and radii, texts by their padded text box.  Freehand
/// strokes have none.
pub open spec fn elem_box_spec(e: ElemV) -> (int, int, int, int) {
    match e {
        ElemV::Rectangle { start, end, .. } => (
            min_spec(start.x as int, end.x as int),
            min_spec(start.y as int, end.y as int),
            max_spec(start.x as int, end.x as int),
            max_spec(start.y as int, end.y as int),
        ),
        ElemV::Ellipse { center, radius_x, radius_y, .. } => (
            center.x as int - radius_x,
            center.y as int - radius_y,
            center.x as int + radius_x,
            center.y as int + radius_y,
        ),
        ElemV::Arrow { start, end, .. } => (
            min_spec(start.x as int, end.x as int),
            min_spec(start.y as int, end.y as int),
            max_spec(start.x as int, end.x as int),
            max_spec(start.y as int, end.y as int),
        ),
        ElemV::Freehand { .. } => (0, 0, 0, 0),
        ElemV::Text { position, content, font_size, .. } => (
            position.x as int - TEXT_PADDING as int,
            position.y as int - TEXT_PADDING as int,
            position.x as int + text_width_spec(content, font_size) + TEXT_PADDING as int,
            position.y as int + text_height_spec(content, font_size) + TEXT_PADDING as int,
        ),
    }
}

/// The handles an element exposes: eight box handles for rectangles
/// and ellipses, the two endpoint handles for arrows, four corner
/// handles for texts, and none for freehand strokes.
pub open spec fn handles_spec(e: ElemV, idx: int) -> Seq<Handle> {
    let (lo_x, lo_y, hi_x, hi_y) = elem_box_spec(e);
    match e {
        ElemV::Rectangle { .. } => box_handles_spec(lo_x, lo_y, hi_x, hi_y, idx),
        ElemV::Ellipse { .. } => box_handles_spec(lo_x, lo_y, hi_x, hi_y, idx),
        ElemV::Arrow { start, end, .. } => seq![
            Handle {
                kind: HandleKind::ArrowStart,
                position: start,
                size: HANDLE_SIZE,
                owner_index: idx as usize,
            },
            Handle {
                kind: HandleKind::ArrowEnd,
                position: end,
                size: HANDLE_SIZE,
                owner_index: idx as usize,
            },
        ],
        ElemV::Freehand { .. } => Seq::empty(),
        ElemV::Text { .. } => seq![
            box_handle(HandleKind::TopLeft, lo_x, lo_y, idx),
            box_handle(HandleKind::TopRight, hi_x, lo_y, idx),
            box_handle(HandleKind::BottomLeft, lo_x, hi_y, idx),
            box_handle(HandleKind::BottomRight, hi_x, hi_y, idx),
        ],
    }
}

/// Generates the element's handles.
pub fn generate_handles(e: &DrawingElement, idx: usize) -> (r: Vec<Handle>)
    requires
        wf_elem(e@),
    ensures
        r@ == handles_spec(e@, idx as int),
        forall|i: int| 0 <= i < r@.len() ==> handle_ok(#[trigger] r@[i]),
{
    let mut r: Vec<Handle> = Vec::new();
    match e {
        DrawingElement::Rectangle { start, end, .. } => {
            let lo_x = min_i64(start.x, end.x);
            let lo_y = min_i64(start.y, end.y);
            let hi_x = max_i64(start.x, end.x);
            let hi_y = max_i64(start.y, end.y);
            push_box_handles(&mut r, lo_x, lo_y, hi_x, hi_y, idx);
            proof {
                assert(r@ =~= handles_spec(e@, idx as int));
            }
        },
        DrawingElement::Ellipse { center, radius_x, radius_y, .. } => {
            let lo_x = center.x - *radius_x;
            let lo_y = center.y - *radius_y;
            let hi_x = center.x + *radius_x;
            let hi_y = center.y + *radius_y;
            push_box_handles(&mut r, lo_x, lo_y, hi_x, hi_y, idx);
            proof {
                assert(r@ =~= handles_spec(e@, idx as int));
            }
        },
        DrawingElement::Arrow { start, end, .. } => {
            r.push(
                Handle {
                    kind: HandleKind::ArrowStart,
                    position: *start,
                    size: HANDLE_SIZE,
                    owner_index: idx,
                },
            );
            r.push(
                Handle {
                    kind: HandleKind::ArrowEnd,
                    position: *end,
                    size: HANDLE_SIZE,
                    owner_index: idx,
                },
            );
            proof {
                assert(r@ =~= handles_spec(e@, idx as int));
            }
        },
        DrawingElement::Freehand { .. } => {
            proof {
                assert(r@ =~= handles_spec(e@, idx as int));
            }
        },
        DrawingElement::Text { position, content, font_size, .. } => {
            let (w, h) = text_box_size(content, *font_size);
            let lo_x = position.x - TEXT_PADDING;
            let lo_y = position.y - TEXT_PADDING;
            let hi_x = position.x + w + TEXT_PADDING;
            let hi_y = position.y + h + TEXT_PADDING;
            r.push(
                Handle {
                    kind: HandleKind::TopLeft,
                    position: Point { x: lo_x, y: lo_y },
                    size: HANDLE_SIZE,
                    owner_index: idx,
                },
            );
            r.push(
                Handle {
                    kind: HandleKind::TopRight,
                    position: Point { x: hi_x, y: lo_y },
                    size: HANDLE_SIZE,
                    owner_index: idx,
                },
            );
            r.push(
                Handle {
                    kind: HandleKind::BottomLeft,
                    position: Point { x: lo_x, y: hi_y },
                    size: HANDLE_SIZE,
                    owner_index: idx,
                },
            );
            r.push(
                Handle {
                    kind: HandleKind::BottomRight,
                    position: Point { x: hi_x, y: hi_y },
                    size: HANDLE_SIZE,
                    owner_index: idx,
                },
            );
            proof {
                assert(r@ =~= handles_spec(e@, idx as int));
            }
        },
    }
    r
}

/// Pushes the eight box handles in their fixed order.
fn push_box_handles(r: &mut Vec<Handle>, lo_x: i64, lo_y: i64, hi_x: i64, hi_y: i64, idx: usize)
    requires
        old(r)@.len() == 0,
        -3 * COORD_LIMIT <= lo_x as int <= hi_x as int <= 3 * COORD_LIMIT,
        -3 * COORD_LIMIT <= lo_y as int <= hi_y as int <= 3 * COORD_LIMIT,
    ensures
        final(r)@ == box_handles_spec(lo_x as int, lo_y as int, hi_x as int, hi_y as int, idx as int),
        forall|i: int| 0 <= i < final(r)@.len() ==> handle_ok(#[trigger] final(r)@[i]),
{
    let cx = lo_x + (hi_x - lo_x) / 2;
    let cy = lo_y + (hi_y - lo_y) / 2;
    r.push(
        Handle {
            kind: HandleKind::TopLeft,
            position: Point { x: lo_x, y: lo_y },
            size: HANDLE_SIZE,
            owner_index: idx,
        },
    );
    r.push(
        Handle {
            kind: HandleKind::TopCenter,
            position: Point { x: cx, y: lo_y },
            size: HANDLE_SIZE,
            owner_index: idx,
        },
    );
    r.push(
        Handle {
            kind: HandleKind::TopRight,
            position: Point { x: hi_x, y: lo_y },
            size: HANDLE_SIZE,
            owner_index: idx,
        },
    );
    r.push(
        Handle {
            kind: HandleKind::MiddleLeft,
            position: Point { x: lo_x, y: cy },
            size: HANDLE_SIZE,
            owner_index: idx,
        },
    );
    r.push(
        Handle {
            kind: HandleKind::MiddleRight,
            position: Point { x: hi_x, y: cy },
            size: HANDLE_SIZE,
            owner_index: idx,
        },
    );
    r.push(
        Handle {
            kind: HandleKind::BottomLeft,
            position: Point { x: lo_x, y: hi_y },
            size: HANDLE_SIZE,
            owner_index: idx,
        },
    );
    r.push(
        Handle {
            kind: HandleKind::BottomCenter,
            position: Point { x: cx, y: hi_y },
            size: HANDLE_SIZE,
            owner_index: idx,
        },
    );
    r.push(
        Handle {
            kind: HandleKind::BottomRight,
            position: Point { x: hi_x, y: hi_y },
            size: HANDLE_SIZE,
            owner_index: idx,
        },
    );
    proof {
        assert(final(r)@ =~= box_handles_spec(
            lo_x as int,
            lo_y as int,
            hi_x as int,
            hi_y as int,
            idx as int,
        ));
    }
}

/// Whether the pointer hits the element: bounding-box containment for
/// rectangles, the exact ellipse inequality, distance to the shaft
/// for arrows, the text box for non-empty texts, and never for
/// freehand strokes.
pub open spec fn hits_elem_spec(p: Point, e: ElemV) -> bool {
    match e {
        ElemV::Rectangle { start, end, .. } => in_aabb_spec(
            p,
            min_spec(start.x as int, end.x as int),
            min_spec(start.y as int, end.y as int),
            max_spec(start.x as int, end.x as int),
            max_spec(start.y as int, end.y as int),
        ),
        ElemV::Ellipse { center, radius_x, radius_y, .. } => ellipse_contains_spec(
            p,
            center,
            radius_x,
            radius_y,
        ),
        ElemV::Arrow { start, end, .. } => seg_within_spec(p, start, end, ARROW_HIT_DIST as int),
        ElemV::Freehand { .. } => false,
        ElemV::Text { position, content, font_size, .. } => content.len() > 0 && in_aabb_spec(
            p,
            position.x as int - TEXT_PADDING as int,
            position.y as int - TEXT_PADDING as int,
            position.x as int + text_width_spec(content, font_size) + TEXT_PADDING as int,
            position.y as int + text_height_spec(content, font_size) + TEXT_PADDING as int,
        ),
    }
}

/// Exact hit test of a pointer against an element.
pub fn hit_test_element(p: Point, e: &DrawingElement) -> (r: bool)
    requires
        point_ok(p),
        wf_elem(e@),
    ensures
        r == hits_elem_spec(p, e@),
{
    match e {
        DrawingElement::Rectangle { start, end, .. } => point_in_aabb(
            p,
            min_i64(start.x, end.x),
            min_i64(start.y, end.y),
            max_i64(start.x, end.x),
            max_i64(start.y, end.y),
        ),
        DrawingElement::Ellipse { center, radius_x, radius_y, .. } => ellipse_contains(
            p,
            *center,
            *radius_x,
            *radius_y,
        ),
        DrawingElement::Arrow { start, end, .. } => seg_within(p, *start, *end, ARROW_HIT_DIST),
        DrawingElement::Freehand { .. } => false,
        DrawingElement::Text { position, content, font_size, .. } => {
            if content.len() == 0 {
                return false;
            }
            let (w, h) = text_box_size(content, *font_size);
            point_in_aabb(
                p,
                position.x - TEXT_PADDING,
                position.y - TEXT_PADDING,
                position.x + w + TEXT_PADDING,
                position.y + h + TEXT_PADDING,
            )
        },
    }
}

/// Whether the pointer grabs the handle: within half the handle size
/// of its position, by Euclidean distance.
pub open spec fn hits_handle_spec(p: Point, h: Handle) -> bool {
    within_dist_spec(p, h.position, h.size / 2)
}

/// Exact hit test of a pointer against a handle.
pub fn hit_test_handle(p: Point, h: &Handle) -> (r: bool)
    requires
        point_ok(p),
        handle_ok(*h),
    ensures
        r == hits_handle_spec(p, *h),
{
    within_dist(p, h.position, h.size / 2)
}

/// The corner a rectangle handle effectively acts as, recomputed from
/// the quadrant the pointer occupies relative to the rectangle's
/// center (compared exactly by doubling).  Edge handles keep their
/// kind.
pub open spec fn dynamic_kind_spec(kind: HandleKind, p: Point, start: Point, end: Point)
    -> HandleKind {
    match kind {
        HandleKind::TopLeft | HandleKind::TopRight | HandleKind::BottomLeft
            | HandleKind::BottomRight => {
            let is_left = (2 * p.x as int) < (start.x as int + end.x as int);
            let is_top = (2 * p.y as int) < (start.y as int + end.y as int);
            if is_left && is_top {
                HandleKind::TopLeft
            } else if !is_left && is_top {
                HandleKind::TopRight
            } else if is_left && !is_top {
                HandleKind::BottomLeft
            } else {
                HandleKind::BottomRight
            }
        },
        _ => kind,
    }
}

/// Recomputes a rectangle corner handle's effective kind from the
/// pointer's quadrant.
pub fn dynamic_handle_kind(kind: HandleKind, p: Point, start: Point, end: Point) -> (r: HandleKind)
    requires
        point_ok(p),
        point_ok(start),
        point_ok(end),
    ensures
        r == dynamic_kind_spec(kind, p, start, end),
{
    match kind {
        HandleKind::TopLeft | HandleKind::TopRight | HandleKind::BottomLeft
            | HandleKind::BottomRight => {
            let is_left = 2 * p.x < start.x + end.x;
            let is_top = 2 * p.y < start.y + end.y;
            if is_left && is_top {
                HandleKind::TopLeft
            } else if !is_left && is_top {
                HandleKind::TopRight
            } else if is_left && !is_top {
                HandleKind::BottomLeft
            } else {
                HandleKind::BottomRight
            }
        },
        _ => kind,
    }
}

/// The normalized form of a rectangle's corner pair: corners ordered,
/// each axis at least the interactive minimum (grown rightward and
/// downward from the kept corner), everything on the canvas.
pub open spec fn norm_rect_spec(s: Point, e: Point) -> (Point, Point) {
    let left = min_spec(
        min_spec(s.x as int, e.x as int),
        COORD_LIMIT as int - MIN_RECT_SIZE as int,
    );
    let top = min_spec(
        min_spec(s.y as int, e.y as int),
        COORD_LIMIT as int - MIN_RECT_SIZE as int,
    );
    let right = max_spec(max_spec(s.x as int, e.x as int), left + MIN_RECT_SIZE as int);
    let bottom = max_spec(max_spec(s.y as int, e.y as int), top + MIN_RECT_SIZE as int);
    (Point { x: left as i64, y: top as i64 }, Point { x: right as i64, y: bottom as i64 })
}

/// Normalizes a rectangle's corner pair.
pub fn normalize_rectangle(s: Point, e: Point) -> (r: (Point, Point))
    requires
        point_ok(s),
        point_ok(e),
    ensures
        r == norm_rect_spec(s, e),
        point_ok(r.0),
        point_ok(r.1),
        r.0.x as int + MIN_RECT_SIZE as int <= r.1.x as int,
        r.0.y as int + MIN_RECT_SIZE as int <= r.1.y as int,
{
    let left = min_i64(min_i64(s.x, e.x), COORD_LIMIT - MIN_RECT_SIZE);
    let top = min_i64(min_i64(s.y, e.y), COORD_LIMIT - MIN_RECT_SIZE);
    let right = max_i64(max_i64(s.x, e.x), left + MIN_RECT_SIZE);
    let bottom = max_i64(max_i64(s.y, e.y), top + MIN_RECT_SIZE);
    (Point { x: left, y: top }, Point { x: right, y: bottom })
}

/// What scaling a text element by a corner drag yields: the scale
/// factor is the smaller of the two axis ratios of how far the
/// dragged corner moved away from the opposite corner, kept as an
/// exact rational and clamped to `[1/10, 5]`; the font size follows
/// the factor within its absolute range, and the anchor shifts so the
/// opposite corner stays fixed (clamped to the canvas).
pub open spec fn scale_text_spec(
    pos: Point,
    font: int,
    content: Seq<char>,
    p: Point,
    kind: HandleKind,
) -> (Point, int) {
    let w = text_width_spec(content, font);
    let h = text_height_spec(content, font);
    let dx = if kind == HandleKind::TopLeft || kind == HandleKind::BottomLeft {
        pos.x as int - p.x as int
    } else {
        p.x as int - (pos.x as int + w)
    };
    let dy = if kind == HandleKind::TopLeft || kind == HandleKind::TopRight {
        pos.y as int - p.y as int
    } else {
        p.y as int - (pos.y as int + h)
    };
    let nx = (w + dx) * h;
    let ny = (h + dy) * w;
    let n0 = min_spec(nx, ny);
    let d0 = w * h;
    let num = if 10 * n0 < d0 {
        1int
    } else if n0 > 5 * d0 {
        5int
    } else {
        n0
    };
    let den = if 10 * n0 < d0 {
        10int
    } else if n0 > 5 * d0 {
        1int
    } else {
        d0
    };
    let nfont = crate::geom::clamp_spec(font * num / den, FONT_MIN as int, FONT_MAX as int);
    let nw = w * num / den;
    let nh = h * num / den;
    let nposx = if kind == HandleKind::TopLeft || kind == HandleKind::BottomLeft {
        clamp_coord_spec(pos.x as int + w - nw)
    } else {
        pos.x as int
    };
    let nposy = if kind == HandleKind::TopLeft || kind == HandleKind::TopRight {
        clamp_coord_spec(pos.y as int + h - nh)
    } else {
        pos.y as int
    };
    (Point { x: nposx as i64, y: nposy as i64 }, nfont)
}

/// Scales a text element by a corner drag.
pub fn scale_text(pos: Point, font: i64, content: &Vec<char>, p: Point, kind: HandleKind) -> (r: (
    Point,
    i64,
))
    requires
        point_ok(pos),
        point_ok(p),
        FONT_MIN as int <= font as int <= FONT_MAX as int,
        content@.len() <= crate::MAX_TEXT_LEN as int,
        kind == HandleKind::TopLeft || kind == HandleKind::TopRight || kind
            == HandleKind::BottomLeft || kind == HandleKind::BottomRight,
    ensures
        (r.0, r.1 as int) == scale_text_spec(pos, font as int, content@, p, kind),
        point_ok(r.0),
        FONT_MIN <= r.1 <= FONT_MAX,
{
    let (w, h) = text_box_size(content, font);
    let dx: i64 = if kind == HandleKind::TopLeft || kind == HandleKind::BottomLeft {
        pos.x - p.x
    } else {
        p.x - (pos.x + w)
    };
    let dy: i64 = if kind == HandleKind::TopLeft || kind == HandleKind::TopRight {
        pos.y - p.y
    } else {
        p.y - (pos.y + h)
    };
    let ww: i128 = w as i128;
    let hh: i128 = h as i128;
    proof {
        let bb = 3_000_000_000int;
        let cc = 25_000_000int;
        crate::geom::lemma_mul_bound(w as int + dx as int, h as int, bb, cc);
        crate::geom::lemma_mul_bound(h as int + dy as int, w as int, bb, cc);
        crate::geom::lemma_mul_bound(w as int, h as int, cc, cc);
    }
    let nx: i128 = (ww + dx as i128) * hh;
    let ny: i128 = (hh + dy as i128) * ww;
    let n0: i128 = if nx <= ny {
        nx
    } else {
        ny
    };
    let d0: i128 = ww * hh;
    let (num, den): (i128, i128) = if 10 * n0 < d0 {
        (1, 10)
    } else if n0 > 5 * d0 {
        (5, 1)
    } else {
        (n0, d0)
    };
    proof {
        let nn = 400_000_000_000_000_000int;
        crate::geom::lemma_mul_bound(font as int, num as int, 200, nn);
        crate::geom::lemma_mul_bound(w as int, num as int, 25_000_000, nn);
        crate::geom::lemma_mul_bound(h as int, num as int, 25_000_000, nn);
    }
    proof {
        assert(d0 as int > 0) by (nonlinear_arith)
            requires
                ww as int > 0,
                hh as int > 0,
                d0 as int == (ww as int) * (hh as int),
        ;
    }
    let nfont_raw: i128 = (font as i128) * num / den;
    let nfont: i64 = if nfont_raw < FONT_MIN as i128 {
        FONT_MIN
    } else if nfont_raw > FONT_MAX as i128 {
        FONT_MAX
    } else {
        nfont_raw as i64
    };
    let nw: i128 = ww * num / den;
    let nh: i128 = hh * num / den;
    proof {
        assert(0 <= nw as int <= 5 * ww as int) by (nonlinear_arith)
            requires
                ww as int > 0,
                num as int > 0,
                den as int > 0,
                num as int <= 5 * (den as int),
                nw as int == (ww as int) * (num as int) / (den as int),
        ;
        assert(0 <= nh as int <= 5 * hh as int) by (nonlinear_arith)
            requires
                hh as int > 0,
                num as int > 0,
                den as int > 0,
                num as int <= 5 * (den as int),
                nh as int == (hh as int) * (num as int) / (den as int),
        ;
    }
    let nposx: i64 = if kind == HandleKind::TopLeft || kind == HandleKind::BottomLeft {
        clamp_coord((w as i128 - nw + pos.x as i128) as i64)
    } else {
        pos.x
    };
    let nposy: i64 = if kind == HandleKind::TopLeft || kind == HandleKind::TopRight {
        clamp_coord((h as i128 - nh + pos.y as i128) as i64)
    } else {
        pos.y
    };
    (Point { x: nposx, y: nposy }, nfont)
}

/// What a handle drag to `p` does to an element: rectangles apply
/// the handle's coordinate updates and renormalize, ellipses take the
/// pointer offsets (floored) as radii, arrows move the dragged
/// endpoint, texts scale by corner handles, and freehand strokes
/// never change.  Handles a variant does not own leave it unchanged.
pub open spec fn drag_spec(e: ElemV, kind: HandleKind, p: Point) -> ElemV {
    match e {
        ElemV::Rectangle { start, end, color, thickness } => {
            let moved = rect_corners_after(start, end, kind, p);
            if kind == HandleKind::ArrowStart || kind == HandleKind::ArrowEnd {
                e
            } else {
                let norm = norm_rect_spec(moved.0, moved.1);
                ElemV::Rectangle { start: norm.0, end: norm.1, color, thickness }
            }
        },
        ElemV::Ellipse { center, radius_x, radius_y, color, thickness } => {
            let rx = max_spec(abs_spec(p.x as int - center.x as int), MIN_ELLIPSE_RADIUS as int);
            let ry = max_spec(abs_spec(p.y as int - center.y as int), MIN_ELLIPSE_RADIUS as int);
            match kind {
                HandleKind::TopLeft | HandleKind::TopRight | HandleKind::BottomLeft
                    | HandleKind::BottomRight => ElemV::Ellipse {
                    center,
                    radius_x: rx,
                    radius_y: ry,
                    color,
                    thickness,
                },
                HandleKind::TopCenter | HandleKind::BottomCenter => ElemV::Ellipse {
                    center,
                    radius_x,
                    radius_y: ry,
                    color,
                    thickness,
                },
                HandleKind::MiddleLeft | HandleKind::MiddleRight => ElemV::Ellipse {
                    center,
                    radius_x: rx,
                    radius_y,
                    color,
                    thickness,
                },
                _ => e,
            }
        },
        ElemV::Arrow { start, end, color, thickness } => match kind {
            HandleKind::ArrowStart => ElemV::Arrow { start: p, end, color, thickness },
            HandleKind::ArrowEnd => ElemV::Arrow { start, end: p, color, thickness },
            _ => e,
        },
        ElemV::Freehand { .. } => e,
        ElemV::Text { position, content, font_size, is_editing, color } => match kind {
            HandleKind::TopLeft | HandleKind::TopRight | HandleKind::BottomLeft
                | HandleKind::BottomRight => {
                let scaled = scale_text_spec(position, font_size, content, p, kind);
                ElemV::Text {
                    position: scaled.0,
                    content,
                    font_size: scaled.1,
                    is_editing,
                    color,
                }
            },
            _ => e,
        },
    }
}

/// The rectangle's corner pair after the handle's coordinate updates
/// and before normalization.
pub open spec fn rect_corners_after(start: Point, end: Point, kind: HandleKind, p: Point) -> (
    Point,
    Point,
) {
    match kind {
        HandleKind::TopLeft => (p, end),
        HandleKind::TopRight => (
            Point { x: start.x, y: p.y },
            Point { x: p.x, y: end.y },
        ),
        HandleKind::BottomLeft => (
            Point { x: p.x, y: start.y },
            Point { x: end.x, y: p.y },
        ),
        HandleKind::BottomRight => (start, p),
        HandleKind::TopCenter => (Point { x: start.x, y: p.y }, end),
        HandleKind::BottomCenter => (start, Point { x: end.x, y: p.y }),
        HandleKind::MiddleLeft => (Point { x: p.x, y: start.y }, end),
        HandleKind::MiddleRight => (start, Point { x: p.x, y: end.y }),
        _ => (start, end),
    }
}

/// Applies a handle drag to a committed element.
pub fn apply_handle_drag(e: &mut DrawingElement, kind: HandleKind, p: Point)
    requires
        committed_elem(old(e)@),
        point_ok(p),
    ensures
        final(e)@ == drag_spec(old(e)@, kind, p),
        committed_elem(final(e)@),
{
    match e {
        DrawingElement::Rectangle { start, end, .. } => {
            match kind {
                HandleKind::ArrowStart | HandleKind::ArrowEnd => {},
                _ => {
                    let moved = match kind {
                        HandleKind::TopLeft => (p, *end),
                        HandleKind::TopRight => (
                            Point { x: start.x, y: p.y },
                            Point { x: p.x, y: end.y },
                        ),
                        HandleKind::BottomLeft => (
                            Point { x: p.x, y: start.y },
                            Point { x: end.x, y: p.y },
                        ),
                        HandleKind::BottomRight => (*start, p),
                        HandleKind::TopCenter => (Point { x: start.x, y: p.y }, *end),
                        HandleKind::BottomCenter => (*start, Point { x: end.x, y: p.y }),
                        HandleKind::MiddleLeft => (Point { x: p.x, y: start.y }, *end),
                        HandleKind::MiddleRight => (*start, Point { x: p.x, y: end.y }),
                        _ => (*start, *end),
                    };
                    let norm = normalize_rectangle(moved.0, moved.1);
                    *start = norm.0;
                    *end = norm.1;
                },
            }
        },
        DrawingElement::Ellipse { center, radius_x, radius_y, .. } => {
            let rx = max_i64(abs_diff(p.x, center.x), MIN_ELLIPSE_RADIUS);
            let ry = max_i64(abs_diff(p.y, center.y), MIN_ELLIPSE_RADIUS);
            match kind {
                HandleKind::TopLeft | HandleKind::TopRight | HandleKind::BottomLeft
                    | HandleKind::BottomRight => {
                    *radius_x = rx;
                    *radius_y = ry;
                },
                HandleKind::TopCenter | HandleKind::BottomCenter => {
                    *radius_y = ry;
                },
                HandleKind::MiddleLeft | HandleKind::MiddleRight => {
                    *radius_x = rx;
                },
                _ => {},
            }
        },
        DrawingElement::Arrow { start, end, .. } => {
            match kind {
                HandleKind::ArrowStart => {
                    *start = p;
                },
                HandleKind::ArrowEnd => {
                    *end = p;
                },
                _ => {},
            }
        },
        DrawingElement::Freehand { .. } => {},
        DrawingElement::Text { position, content, font_size, .. } => {
            match kind {
                HandleKind::TopLeft | HandleKind::TopRight | HandleKind::BottomLeft
                    | HandleKind::BottomRight => {
                    let scaled = scale_text(*position, *font_size, content, p, kind);
                    *position = scaled.0;
                    *font_size = scaled.1;
                },
                _ => {},
            }
        },
    }
}

/// Ellipse radius floor: after any handle drag on a committed
/// ellipse, both radii stay strictly positive.
pub proof fn lemma_ellipse_radii_positive(e: ElemV, kind: HandleKind, p: Point)
    requires
        committed_elem(e),
        e is Ellipse,
    ensures
        drag_spec(e, kind, p) matches ElemV::Ellipse { radius_x, radius_y, .. }
            && radius_x > 0 && radius_y > 0,
{
}

/// Rectangle normalization: after any handle drag on a committed
/// rectangle, its corners stay ordered with both axes at least the
/// interactive minimum.
pub proof fn lemma_rect_stays_normalized(e: ElemV, kind: HandleKind, p: Point)
    requires
        committed_elem(e),
        e is Rectangle,
    ensures
        drag_spec(e, kind, p) matches ElemV::Rectangle { start, end, .. }
            && start.x as int + MIN_RECT_SIZE as int <= end.x as int
            && start.y as int + MIN_RECT_SIZE as int <= end.y as int,
{
}

/// The box a hit test confines the element to: for rectangles their
/// corner box, for ellipses the box the radii span, for texts the
/// text box.
pub open spec fn hit_box_spec(e: ElemV) -> (int, int, int, int) {
    match e {
        ElemV::Rectangle { start, end, .. } => (
            min_spec(start.x as int, end.x as int),
            min_spec(start.y as int, end.y as int),
            max_spec(start.x as int, end.x as int),
            max_spec(start.y as int, end.y as int),
        ),
        ElemV::Ellipse { center, radius_x, radius_y, .. } => (
            center.x as int - radius_x,
            center.y as int - radius_y,
            center.x as int + radius_x,
            center.y as int + radius_y,
        ),
        ElemV::Text { position, content, font_size, .. } => (
            position.x as int - TEXT_PADDING as int,
            position.y as int - TEXT_PADDING as int,
            position.x as int + text_width_spec(content, font_size) + TEXT_PADDING as int,
            position.y as int + text_height_spec(content, font_size) + TEXT_PADDING as int,
        ),
        _ => (0, 0, 0, 0),
    }
}

/// The geometric center of the element's hit box.
pub open spec fn center_of_spec(e: ElemV) -> Point {
    let (lo_x, lo_y, hi_x, hi_y) = hit_box_spec(e);
    Point { x: mid_spec(lo_x, hi_x) as i64, y: mid_spec(lo_y, hi_y) as i64 }
}

/// Hit-test/bounds consistency, first half: the center of a committed
/// rectangle, ellipse or text always hit-tests true.
pub proof fn lemma_center_hits(e: ElemV)
    requires
        committed_elem(e),
        e is Rectangle || e is Ellipse || e is Text,
    ensures
        hits_elem_spec(center_of_spec(e), e),
{
    match e {
        ElemV::Ellipse { center, radius_x, radius_y, .. } => {
            let cx = center.x as int;
            let cy = center.y as int;
            assert((2 * radius_x) / 2 == radius_x) by (nonlinear_arith);
            assert((2 * radius_y) / 2 == radius_y) by (nonlinear_arith);
            assert(mid_spec(cx - radius_x, cx + radius_x) == cx);
            assert(mid_spec(cy - radius_y, cy + radius_y) == cy);
            assert(center_of_spec(e) == center);
            let p = center_of_spec(e);
            let dx = p.x as int - center.x as int;
            let dy = p.y as int - center.y as int;
            assert(dx == 0 && dy == 0);
            assert(dx * dx * radius_y * radius_y + dy * dy * radius_x * radius_x <= radius_x
                * radius_x * radius_y * radius_y) by (nonlinear_arith)
                requires
                    dx == 0,
                    dy == 0,
                    radius_x > 0,
                    radius_y > 0,
            ;
            assert(ellipse_contains_spec(p, center, radius_x, radius_y));
            assert(hits_elem_spec(center_of_spec(e), e));
        },
        ElemV::Text { position, content, font_size, .. } => {
            assert(content.len() > 0);
            crate::element::lemma_text_counts(content);
            let w = text_width_spec(content, font_size);
            let h = text_height_spec(content, font_size);
            assert(h > 0) by (nonlinear_arith)
                requires
                    h == (font_size * 6 / 5) * crate::element::line_count_spec(content),
                    font_size * 6 / 5 >= 9,
                    crate::element::line_count_spec(content) >= 1,
            ;
            let mll = crate::element::max_line_len(content);
            let lc = crate::element::line_count_spec(content);
            crate::geom::lemma_mul_bound(mll, font_size, 100_000, 200);
            crate::geom::lemma_mul_bound(mll * font_size, 6, 20_000_000, 6);
            assert(0 <= mll * font_size * 6 / 10 <= mll * font_size * 6) by (nonlinear_arith)
                requires
                    mll * font_size * 6 >= 0,
            ;
            crate::geom::lemma_mul_bound(font_size * 6 / 5, lc, 240, 100_001);
            assert(0 <= w <= 120_000_000);
            assert(0 <= h <= 24_000_240);
            lemma_mid_between(
                position.x as int - TEXT_PADDING as int,
                position.x as int + w + TEXT_PADDING as int,
            );
            lemma_mid_between(
                position.y as int - TEXT_PADDING as int,
                position.y as int + h + TEXT_PADDING as int,
            );
            assert(hits_elem_spec(center_of_spec(e), e));
        },
        ElemV::Rectangle { start, end, .. } => {
            lemma_mid_between(start.x as int, end.x as int);
            lemma_mid_between(start.y as int, end.y as int);
            assert(hits_elem_spec(center_of_spec(e), e));
        },
        _ => {},
    }
}

/// Hit-test/bounds consistency, second half: a pointer strictly
/// outside the element's hit box never hit-tests true.
pub proof fn lemma_outside_box_misses(e: ElemV, p: Point)
    requires
        committed_elem(e),
        e is Rectangle || e is Ellipse || e is Text,
        !in_aabb_spec(
            p,
            hit_box_spec(e).0,
            hit_box_spec(e).1,
            hit_box_spec(e).2,
            hit_box_spec(e).3,
        ),
    ensures
        !hits_elem_spec(p, e),
{
    match e {
        ElemV::Ellipse { center, radius_x, radius_y, .. } => {
            let dx = p.x as int - center.x as int;
            let dy = p.y as int - center.y as int;
            if hits_elem_spec(p, e) {
                assert(abs_spec(dx) > radius_x || abs_spec(dy) > radius_y);
                if abs_spec(dx) > radius_x {
                    assert(dx * dx * (radius_y * radius_y) > radius_x * radius_x * (radius_y
                        * radius_y)) by (nonlinear_arith)
                        requires
                            abs_spec(dx) > radius_x > 0,
                            radius_y > 0,
                            abs_spec(dx) == if dx >= 0 { dx } else { -dx },
                    ;
                    assert(dy * dy * (radius_x * radius_x) >= 0) by (nonlinear_arith);
                    assert(dx * dx * radius_y * radius_y == dx * dx * (radius_y * radius_y))
                        by (nonlinear_arith);
                    assert(dy * dy * radius_x * radius_x == dy * dy * (radius_x * radius_x))
                        by (nonlinear_arith);
                    assert(radius_x * radius_x * radius_y * radius_y == radius_x * radius_x
                        * (radius_y * radius_y)) by (nonlinear_arith);
                } else {
                    assert(dy * dy * (radius_x * radius_x) > radius_y * radius_y * (radius_x
                        * radius_x)) by (nonlinear_arith)
                        requires
                            abs_spec(dy) > radius_y > 0,
                            radius_x > 0,
                            abs_spec(dy) == if dy >= 0 { dy } else { -dy },
                    ;
                    assert(dx * dx * (radius_y * radius_y) >= 0) by (nonlinear_arith);
                    assert(dx * dx * radius_y * radius_y == dx * dx * (radius_y * radius_y))
                        by (nonlinear_arith);
                    assert(dy * dy * radius_x * radius_x == dy * dy * (radius_x * radius_x))
                        by (nonlinear_arith);
                    assert(radius_x * radius_x * radius_y * radius_y == radius_y * radius_y
                        * (radius_x * radius_x)) by (nonlinear_arith);
                }
                assert(false);
            }
        },
        _ => {},
    }
}

} // verus!
