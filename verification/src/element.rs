//! The drawing elements: their data, their mathematical view, their
//! well-formedness invariants, and the whole-element operations
//! (duplication, structural equality, rigid translation, the
//! persistence-minimum rule, and the text box metrics).

use vstd::prelude::*;

use crate::geom::abs_diff;
use crate::geom::abs_spec;
use crate::geom::clamp_i64;
use crate::geom::clamp_spec;
use crate::geom::coord_ok;
use crate::geom::max_i64;
use crate::geom::max_spec;
use crate::geom::min_i64;
use crate::geom::min_spec;
use crate::geom::point_ok;
use crate::geom::Point;
use crate::COORD_LIMIT;
use crate::FONT_MAX;
use crate::FONT_MIN;
use crate::MAX_TEXT_LEN;
use crate::MIN_ARROW_LENGTH;
use crate::MIN_ELLIPSE_RADIUS;
use crate::MIN_RECT_SIZE;
use crate::MIN_SAVE_RADIUS;
use crate::MIN_SAVE_SIZE;
use crate::MIN_TEXT_WIDTH;

verus! {

/// An opaque RGB color carried along with each element.
#[derive(Clone, Copy, PartialEq, Eq, Structural, Debug)]
pub struct Color {
    pub r: u8,
    pub g: u8,
    pub b: u8,
}

/// The drawing tools a user can pick.
#[derive(Clone, Copy, PartialEq, Eq, Structural, Debug)]
pub enum Tool {
    NoTool,
    Rectangle,
    Ellipse,
    Arrow,
    Freehand,
    Text,
}

/// A committed or in-progress drawing element.
pub enum DrawingElement {
    Rectangle { start: Point, end: Point, color: Color, thickness: u32 },
    Ellipse { center: Point, radius_x: i64, radius_y: i64, color: Color, thickness: u32 },
    Arrow { start: Point, end: Point, color: Color, thickness: u32 },
    Freehand { points: Vec<Point>, color: Color, thickness: u32 },
    Text { position: Point, content: Vec<char>, font_size: i64, is_editing: bool, color: Color },
}

/// The mathematical view of a drawing element.
pub enum ElemV {
    Rectangle { start: Point, end: Point, color: Color, thickness: u32 },
    Ellipse { center: Point, radius_x: int, radius_y: int, color: Color, thickness: u32 },
    Arrow { start: Point, end: Point, color: Color, thickness: u32 },
    Freehand { points: Seq<Point>, color: Color, thickness: u32 },
    Text { position: Point, content: Seq<char>, font_size: int, is_editing: bool, color: Color },
}

impl View for DrawingElement {
    type V = ElemV;

    open spec fn view(&self) -> ElemV {
        match self {
            DrawingElement::Rectangle { start, end, color, thickness } => ElemV::Rectangle {
                start: *start,
                end: *end,
                color: *color,
                thickness: *thickness,
            },
            DrawingElement::Ellipse { center, radius_x, radius_y, color, thickness } => ElemV::Ellipse {
                center: *center,
                radius_x: *radius_x as int,
                radius_y: *radius_y as int,
                color: *color,
                thickness: *thickness,
            },
            DrawingElement::Arrow { start, end, color, thickness } => ElemV::Arrow {
                start: *start,
                end: *end,
                color: *color,
                thickness: *thickness,
            },
            DrawingElement::Freehand { points, color, thickness } => ElemV::Freehand {
                points: points@,
                color: *color,
                thickness: *thickness,
            },
            DrawingElement::Text { position, content, font_size, is_editing, color } => ElemV::Text {
                position: *position,
                content: content@,
                font_size: *font_size as int,
                is_editing: *is_editing,
                color: *color,
            },
        }
    }
}

/// Every coordinate-bearing field of the element stays on the canvas,
/// radii are bounded, the font size is inside its fixed range, and the
/// text content is below the length cap.  This holds for in-progress
/// elements as well as committed ones.
pub open spec fn wf_elem(e: ElemV) -> bool {
    match e {
        ElemV::Rectangle { start, end, .. } => point_ok(start) && point_ok(end),
        ElemV::Ellipse { center, radius_x, radius_y, .. } => point_ok(center)
            && 0 <= radius_x <= 2 * COORD_LIMIT
            && 0 <= radius_y <= 2 * COORD_LIMIT,
        ElemV::Arrow { start, end, .. } => point_ok(start) && point_ok(end),
        ElemV::Freehand { points, .. } => forall|i: int|
            0 <= i < points.len() ==> point_ok(#[trigger] points[i]),
        ElemV::Text { position, content, font_size, .. } => point_ok(position)
            && FONT_MIN as int <= font_size <= FONT_MAX as int
            && content.len() <= MAX_TEXT_LEN as int,
    }
}

/// The stronger invariant of committed elements: a rectangle is
/// normalized and at least the interactive minimum on both axes, an
/// ellipse keeps both radii at the positive floor, a freehand stroke
/// is non-empty, and a committed text is no longer being edited and
/// has visible content.
pub open spec fn committed_elem(e: ElemV) -> bool {
    wf_elem(e) && match e {
        ElemV::Rectangle { start, end, .. } => start.x as int + MIN_RECT_SIZE as int <= end.x as int
            && start.y as int + MIN_RECT_SIZE as int <= end.y as int,
        ElemV::Ellipse { radius_x, radius_y, .. } => radius_x >= MIN_ELLIPSE_RADIUS as int
            && radius_y >= MIN_ELLIPSE_RADIUS as int,
        ElemV::Arrow { .. } => true,
        ElemV::Freehand { points, .. } => points.len() >= 1,
        ElemV::Text { content, is_editing, .. } => !is_editing && has_visible_char(content),
    }
}

/// Whitespace for the purpose of deciding whether text content is
/// visible: blank, tab, and line separators.
pub open spec fn is_ws(c: char) -> bool {
    c == ' ' || c == '\t' || c == '\n' || c == '\r'
}

/// Whether the content holds at least one non-whitespace character
/// (what "trimmed content is non-empty" means here).
pub open spec fn has_visible_char(s: Seq<char>) -> bool {
    exists|i: int| 0 <= i < s.len() && !is_ws(#[trigger] s[i])
}

/// Executable test for `has_visible_char`.
pub fn content_has_visible_char(s: &Vec<char>) -> (r: bool)
    ensures
        r == has_visible_char(s@),
{
    let mut i: usize = 0;
    while i < s.len()
        invariant
            0 <= i <= s@.len(),
            forall|j: int| 0 <= j < i ==> is_ws(#[trigger] s@[j]),
        decreases s@.len() - i,
    {
        let c = s[i];
        if !(c == ' ' || c == '\t' || c == '\n' || c == '\r') {
            return true;
        }
        i = i + 1;
    }
    false
}

/// Copies a point list.
pub fn clone_points(v: &Vec<Point>) -> (r: Vec<Point>)
    ensures
        r@ == v@,
{
    let mut r: Vec<Point> = Vec::new();
    let mut i: usize = 0;
    while i < v.len()
        invariant
            0 <= i <= v@.len(),
            r@ == v@.subrange(0, i as int),
        decreases v@.len() - i,
    {
        r.push(v[i]);
        i = i + 1;
    }
    proof {
        assert(v@.subrange(0, v@.len() as int) =~= v@);
    }
    r
}

/// Copies a character list.
pub fn clone_chars(v: &Vec<char>) -> (r: Vec<char>)
    ensures
        r@ == v@,
{
    let mut r: Vec<char> = Vec::new();
    let mut i: usize = 0;
    while i < v.len()
        invariant
            0 <= i <= v@.len(),
            r@ == v@.subrange(0, i as int),
        decreases v@.len() - i,
    {
        r.push(v[i]);
        i = i + 1;
    }
    proof {
        assert(v@.subrange(0, v@.len() as int) =~= v@);
    }
    r
}

impl DrawingElement {
    /// A structural copy with the same view.
    pub fn duplicate(&self) -> (r: DrawingElement)
        ensures
            r@ == self@,
    {
        match self {
            DrawingElement::Rectangle { start, end, color, thickness } => DrawingElement::Rectangle {
                start: *start,
                end: *end,
                color: *color,
                thickness: *thickness,
            },
            DrawingElement::Ellipse { center, radius_x, radius_y, color, thickness } => DrawingElement::Ellipse {
                center: *center,
                radius_x: *radius_x,
                radius_y: *radius_y,
                color: *color,
                thickness: *thickness,
            },
            DrawingElement::Arrow { start, end, color, thickness } => DrawingElement::Arrow {
                start: *start,
                end: *end,
                color: *color,
                thickness: *thickness,
            },
            DrawingElement::Freehand { points, color, thickness } => DrawingElement::Freehand {
                points: clone_points(points),
                color: *color,
                thickness: *thickness,
            },
            DrawingElement::Text { position, content, font_size, is_editing, color } => DrawingElement::Text {
                position: *position,
                content: clone_chars(content),
                font_size: *font_size,
                is_editing: *is_editing,
                color: *color,
            },
        }
    }

    /// The tool that draws elements of this variant.
    pub fn tool(&self) -> (t: Tool)
        ensures
            t == tool_of(self@),
    {
        match self {
            DrawingElement::Rectangle { .. } => Tool::Rectangle,
            DrawingElement::Ellipse { .. } => Tool::Ellipse,
            DrawingElement::Arrow { .. } => Tool::Arrow,
            DrawingElement::Freehand { .. } => Tool::Freehand,
            DrawingElement::Text { .. } => Tool::Text,
        }
    }
}

/// The tool matching an element's variant.
pub open spec fn tool_of(e: ElemV) -> Tool {
    match e {
        ElemV::Rectangle { .. } => Tool::Rectangle,
        ElemV::Ellipse { .. } => Tool::Ellipse,
        ElemV::Arrow { .. } => Tool::Arrow,
        ElemV::Freehand { .. } => Tool::Freehand,
        ElemV::Text { .. } => Tool::Text,
    }
}

/// Whether the element passes the minimum-size-for-persistence rule:
/// a rectangle needs both axes at the save threshold, an ellipse both
/// radii, an arrow its endpoint distance (compared exactly via
/// squares), a freehand stroke at least one point, and a text some
/// visible content.
pub open spec fn large_enough_spec(e: ElemV) -> bool {
    match e {
        ElemV::Rectangle { start, end, .. } => abs_spec(end.x as int - start.x as int)
            >= MIN_SAVE_SIZE as int && abs_spec(end.y as int - start.y as int) >= MIN_SAVE_SIZE as int,
        ElemV::Ellipse { radius_x, radius_y, .. } => radius_x >= MIN_SAVE_RADIUS as int
            && radius_y >= MIN_SAVE_RADIUS as int,
        ElemV::Arrow { start, end, .. } => {
            let dx = end.x as int - start.x as int;
            let dy = end.y as int - start.y as int;
            dx * dx + dy * dy >= MIN_ARROW_LENGTH as int * MIN_ARROW_LENGTH as int
        },
        ElemV::Freehand { points, .. } => points.len() >= 1,
        ElemV::Text { content, .. } => has_visible_char(content),
    }
}

/// Executable persistence-minimum test.
pub fn is_large_enough(e: &DrawingElement) -> (r: bool)
    requires
        wf_elem(e@),
    ensures
        r == large_enough_spec(e@),
{
    match e {
        DrawingElement::Rectangle { start, end, .. } => {
            let w = abs_diff(end.x, start.x);
            let h = abs_diff(end.y, start.y);
            w >= MIN_SAVE_SIZE && h >= MIN_SAVE_SIZE
        },
        DrawingElement::Ellipse { radius_x, radius_y, .. } => {
            *radius_x >= MIN_SAVE_RADIUS && *radius_y >= MIN_SAVE_RADIUS
        },
        DrawingElement::Arrow { start, end, .. } => {
            let dx: i128 = end.x as i128 - start.x as i128;
            let dy: i128 = end.y as i128 - start.y as i128;
            proof {
                let l2 = 2_000_000_000int;
                crate::geom::lemma_mul_bound(dx as int, dx as int, l2, l2);
                crate::geom::lemma_mul_bound(dy as int, dy as int, l2, l2);
                crate::geom::lemma_mul_bound(MIN_ARROW_LENGTH as int, MIN_ARROW_LENGTH as int, 30, 30);
            }
            dx * dx + dy * dy >= (MIN_ARROW_LENGTH as i128) * (MIN_ARROW_LENGTH as i128)
        },
        DrawingElement::Freehand { points, .. } => points.len() >= 1,
        DrawingElement::Text { content, .. } => content_has_visible_char(content),
    }
}

/// Structural equality of two elements, decided executably.
pub fn elem_eq(a: &DrawingElement, b: &DrawingElement) -> (r: bool)
    ensures
        r == (a@ == b@),
{
    match (a, b) {
        (
            DrawingElement::Rectangle { start: s1, end: e1, color: c1, thickness: t1 },
            DrawingElement::Rectangle { start: s2, end: e2, color: c2, thickness: t2 },
        ) => *s1 == *s2 && *e1 == *e2 && *c1 == *c2 && *t1 == *t2,
        (
            DrawingElement::Ellipse { center: p1, radius_x: x1, radius_y: y1, color: c1, thickness: t1 },
            DrawingElement::Ellipse { center: p2, radius_x: x2, radius_y: y2, color: c2, thickness: t2 },
        ) => *p1 == *p2 && *x1 == *x2 && *y1 == *y2 && *c1 == *c2 && *t1 == *t2,
        (
            DrawingElement::Arrow { start: s1, end: e1, color: c1, thickness: t1 },
            DrawingElement::Arrow { start: s2, end: e2, color: c2, thickness: t2 },
        ) => *s1 == *s2 && *e1 == *e2 && *c1 == *c2 && *t1 == *t2,
        (
            DrawingElement::Freehand { points: p1, color: c1, thickness: t1 },
            DrawingElement::Freehand { points: p2, color: c2, thickness: t2 },
        ) => *c1 == *c2 && *t1 == *t2 && points_eq(p1, p2),
        (
            DrawingElement::Text {
                position: p1,
                content: n1,
                font_size: f1,
                is_editing: i1,
                color: c1,
            },
            DrawingElement::Text {
                position: p2,
                content: n2,
                font_size: f2,
                is_editing: i2,
                color: c2,
            },
        ) => *p1 == *p2 && *f1 == *f2 && *i1 == *i2 && *c1 == *c2 && chars_eq(n1, n2),
        _ => {
            proof {
                assert(a@ != b@);
            }
            false
        },
    }
}

/// Smallest x coordinate stored in a point list (0 for an empty one).
pub open spec fn pts_lo_x(s: Seq<Point>) -> int
    decreases s.len(),
{
    if s.len() == 0 {
        0
    } else if s.len() == 1 {
        s[0].x as int
    } else {
        min_spec(pts_lo_x(s.drop_last()), s.last().x as int)
    }
}

pub open spec fn pts_hi_x(s: Seq<Point>) -> int
    decreases s.len(),
{
    if s.len() == 0 {
        0
    } else if s.len() == 1 {
        s[0].x as int
    } else {
        max_spec(pts_hi_x(s.drop_last()), s.last().x as int)
    }
}

pub open spec fn pts_lo_y(s: Seq<Point>) -> int
    decreases s.len(),
{
    if s.len() == 0 {
        0
    } else if s.len() == 1 {
        s[0].y as int
    } else {
        min_spec(pts_lo_y(s.drop_last()), s.last().y as int)
    }
}

pub open spec fn pts_hi_y(s: Seq<Point>) -> int
    decreases s.len(),
{
    if s.len() == 0 {
        0
    } else if s.len() == 1 {
        s[0].y as int
    } else {
        max_spec(pts_hi_y(s.drop_last()), s.last().y as int)
    }
}

/// Every point of the list lies inside its coordinate extremes.
pub proof fn lemma_pts_bounds(s: Seq<Point>)
    ensures
        forall|i: int|
            0 <= i < s.len() ==> pts_lo_x(s) <= (#[trigger] s[i]).x as int <= pts_hi_x(s)
                && pts_lo_y(s) <= s[i].y as int <= pts_hi_y(s),
    decreases s.len(),
{
    if s.len() > 1 {
        lemma_pts_bounds(s.drop_last());
        assert forall|i: int| 0 <= i < s.len() implies pts_lo_x(s) <= (#[trigger] s[i]).x as int
            <= pts_hi_x(s) && pts_lo_y(s) <= s[i].y as int <= pts_hi_y(s) by {
            if i < s.len() - 1 {
                assert(s[i] == s.drop_last()[i]);
            } else {
                assert(s[i] == s.last());
            }
        }
    }
}

/// The x range the element's stored coordinates span: `[lo, hi]`.
/// Radii and box extents do not move under translation, so only the
/// stored anchor coordinates count.
pub open spec fn elem_lo_x(e: ElemV) -> int {
    match e {
        ElemV::Rectangle { start, end, .. } => min_spec(start.x as int, end.x as int),
        ElemV::Ellipse { center, .. } => center.x as int,
        ElemV::Arrow { start, end, .. } => min_spec(start.x as int, end.x as int),
        ElemV::Freehand { points, .. } => pts_lo_x(points),
        ElemV::Text { position, .. } => position.x as int,
    }
}

pub open spec fn elem_hi_x(e: ElemV) -> int {
    match e {
        ElemV::Rectangle { start, end, .. } => max_spec(start.x as int, end.x as int),
        ElemV::Ellipse { center, .. } => center.x as int,
        ElemV::Arrow { start, end, .. } => max_spec(start.x as int, end.x as int),
        ElemV::Freehand { points, .. } => pts_hi_x(points),
        ElemV::Text { position, .. } => position.x as int,
    }
}

pub open spec fn elem_lo_y(e: ElemV) -> int {
    match e {
        ElemV::Rectangle { start, end, .. } => min_spec(start.y as int, end.y as int),
        ElemV::Ellipse { center, .. } => center.y as int,
        ElemV::Arrow { start, end, .. } => min_spec(start.y as int, end.y as int),
        ElemV::Freehand { points, .. } => pts_lo_y(points),
        ElemV::Text { position, .. } => position.y as int,
    }
}

pub open spec fn elem_hi_y(e: ElemV) -> int {
    match e {
        ElemV::Rectangle { start, end, .. } => max_spec(start.y as int, end.y as int),
        ElemV::Ellipse { center, .. } => center.y as int,
        ElemV::Arrow { start, end, .. } => max_spec(start.y as int, end.y as int),
        ElemV::Freehand { points, .. } => pts_hi_y(points),
        ElemV::Text { position, .. } => position.y as int,
    }
}

/// The part of the requested x offset the canvas admits: the offset
/// is clamped so that every stored coordinate stays in range.
pub open spec fn eff_dx(e: ElemV, dx: int) -> int {
    clamp_spec(dx, -(COORD_LIMIT as int) - elem_lo_x(e), COORD_LIMIT as int - elem_hi_x(e))
}

pub open spec fn eff_dy(e: ElemV, dy: int) -> int {
    clamp_spec(dy, -(COORD_LIMIT as int) - elem_lo_y(e), COORD_LIMIT as int - elem_hi_y(e))
}

/// A point shifted by `(dx, dy)` (exact, the caller keeps it in
/// 64-bit range).
pub open spec fn moved_point(p: Point, dx: int, dy: int) -> Point {
    Point { x: (p.x as int + dx) as i64, y: (p.y as int + dy) as i64 }
}

/// The element rigidly shifted by `(dx, dy)`.
pub open spec fn translated_elem(e: ElemV, dx: int, dy: int) -> ElemV {
    match e {
        ElemV::Rectangle { start, end, color, thickness } => ElemV::Rectangle {
            start: moved_point(start, dx, dy),
            end: moved_point(end, dx, dy),
            color,
            thickness,
        },
        ElemV::Ellipse { center, radius_x, radius_y, color, thickness } => ElemV::Ellipse {
            center: moved_point(center, dx, dy),
            radius_x,
            radius_y,
            color,
            thickness,
        },
        ElemV::Arrow { start, end, color, thickness } => ElemV::Arrow {
            start: moved_point(start, dx, dy),
            end: moved_point(end, dx, dy),
            color,
            thickness,
        },
        ElemV::Freehand { points, color, thickness } => ElemV::Freehand {
            points: points.map(|i: int, p: Point| moved_point(p, dx, dy)),
            color,
            thickness,
        },
        ElemV::Text { position, content, font_size, is_editing, color } => ElemV::Text {
            position: moved_point(position, dx, dy),
            content,
            font_size,
            is_editing,
            color,
        },
    }
}

/// What moving an element by `(dx, dy)` yields: a rigid translation
/// by the admitted part of the offset.
pub open spec fn move_elem_spec(e: ElemV, dx: int, dy: int) -> ElemV {
    translated_elem(e, eff_dx(e, dx), eff_dy(e, dy))
}

/// Shifts every point of the list by `(dx, dy)`.
fn translate_points(v: &mut Vec<Point>, dx: i64, dy: i64)
    requires
        forall|i: int| 0 <= i < old(v)@.len() ==> point_ok(#[trigger] old(v)@[i]),
        -(COORD_LIMIT as int) - pts_lo_x(old(v)@) <= dx as int <= COORD_LIMIT as int - pts_hi_x(
            old(v)@,
        ),
        -(COORD_LIMIT as int) - pts_lo_y(old(v)@) <= dy as int <= COORD_LIMIT as int - pts_hi_y(
            old(v)@,
        ),
    ensures
        final(v)@ == old(v)@.map(|i: int, p: Point| moved_point(p, dx as int, dy as int)),
        forall|i: int| 0 <= i < final(v)@.len() ==> point_ok(#[trigger] final(v)@[i]),
{
    proof {
        lemma_pts_bounds(old(v)@);
    }
    let ghost target = old(v)@.map(|i: int, p: Point| moved_point(p, dx as int, dy as int));
    let mut r: Vec<Point> = Vec::new();
    let mut i: usize = 0;
    while i < v.len()
        invariant
            0 <= i <= v@.len(),
            v@ == old(v)@,
            target == old(v)@.map(|i: int, p: Point| moved_point(p, dx as int, dy as int)),
            r@ == target.subrange(0, i as int),
            forall|j: int| 0 <= j < old(v)@.len() ==> point_ok(#[trigger] old(v)@[j]),
            forall|j: int|
                0 <= j < old(v)@.len() ==> pts_lo_x(old(v)@) <= (#[trigger] old(v)@[j]).x as int
                    <= pts_hi_x(old(v)@) && pts_lo_y(old(v)@) <= old(v)@[j].y as int <= pts_hi_y(
                    old(v)@,
                ),
            -(COORD_LIMIT as int) - pts_lo_x(old(v)@) <= dx as int <= COORD_LIMIT as int
                - pts_hi_x(old(v)@),
            -(COORD_LIMIT as int) - pts_lo_y(old(v)@) <= dy as int <= COORD_LIMIT as int
                - pts_hi_y(old(v)@),
        decreases v@.len() - i,
    {
        let p = v[i];
        let q = Point { x: p.x + dx, y: p.y + dy };
        proof {
            assert(target[i as int] == moved_point(old(v)@[i as int], dx as int, dy as int));
        }
        r.push(q);
        i = i + 1;
    }
    proof {
        assert(r@ =~= target);
        assert(forall|j: int|
            0 <= j < target.len() ==> #[trigger] target[j] == moved_point(
                old(v)@[j],
                dx as int,
                dy as int,
            ));
    }
    *v = r;
}

/// Moves an element by the requested offset, clamped so that it
/// cannot leave the canvas; the translation is rigid, so shapes,
/// sizes and invariants are preserved.
pub fn move_element(e: &mut DrawingElement, dx: i64, dy: i64)
    requires
        wf_elem(old(e)@),
        -2 * COORD_LIMIT <= dx as int <= 2 * COORD_LIMIT,
        -2 * COORD_LIMIT <= dy as int <= 2 * COORD_LIMIT,
    ensures
        final(e)@ == move_elem_spec(old(e)@, dx as int, dy as int),
        wf_elem(final(e)@),
        committed_elem(old(e)@) ==> committed_elem(final(e)@),
        large_enough_spec(old(e)@) ==> large_enough_spec(final(e)@),
{
    let (lo_x, hi_x, lo_y, hi_y) = elem_extent(e);
    let ex = clamp_i64(dx, -COORD_LIMIT - lo_x, COORD_LIMIT - hi_x);
    let ey = clamp_i64(dy, -COORD_LIMIT - lo_y, COORD_LIMIT - hi_y);
    match e {
        DrawingElement::Rectangle { start, end, .. } => {
            start.x = start.x + ex;
            start.y = start.y + ey;
            end.x = end.x + ex;
            end.y = end.y + ey;
        },
        DrawingElement::Ellipse { center, .. } => {
            center.x = center.x + ex;
            center.y = center.y + ey;
        },
        DrawingElement::Arrow { start, end, .. } => {
            start.x = start.x + ex;
            start.y = start.y + ey;
            end.x = end.x + ex;
            end.y = end.y + ey;
        },
        DrawingElement::Freehand { points, .. } => {
            translate_points(points, ex, ey);
        },
        DrawingElement::Text { position, .. } => {
            position.x = position.x + ex;
            position.y = position.y + ey;
        },
    }
}

/// The coordinate extremes of the element's stored coordinates, as
/// 64-bit values.
fn elem_extent(e: &DrawingElement) -> (r: (i64, i64, i64, i64))
    requires
        wf_elem(e@),
    ensures
        r.0 as int == elem_lo_x(e@),
        r.1 as int == elem_hi_x(e@),
        r.2 as int == elem_lo_y(e@),
        r.3 as int == elem_hi_y(e@),
        r.0 <= r.1,
        r.2 <= r.3,
        coord_ok(r.0 as int),
        coord_ok(r.1 as int),
        coord_ok(r.2 as int),
        coord_ok(r.3 as int),
{
    match e {
        DrawingElement::Rectangle { start, end, .. } => (
            min_i64(start.x, end.x),
            max_i64(start.x, end.x),
            min_i64(start.y, end.y),
            max_i64(start.y, end.y),
        ),
        DrawingElement::Ellipse { center, .. } => (center.x, center.x, center.y, center.y),
        DrawingElement::Arrow { start, end, .. } => (
            min_i64(start.x, end.x),
            max_i64(start.x, end.x),
            min_i64(start.y, end.y),
            max_i64(start.y, end.y),
        ),
        DrawingElement::Freehand { points, .. } => {
            proof {
                assert(elem_lo_x(e@) == pts_lo_x(points@));
            }
            pts_extent(points)
        },
        DrawingElement::Text { position, .. } => (position.x, position.x, position.y, position.y),
    }
}

/// The coordinate extremes of a point list ((0, 0, 0, 0) when empty).
fn pts_extent(v: &Vec<Point>) -> (r: (i64, i64, i64, i64))
    requires
        forall|i: int| 0 <= i < v@.len() ==> point_ok(#[trigger] v@[i]),
    ensures
        r.0 as int == pts_lo_x(v@),
        r.1 as int == pts_hi_x(v@),
        r.2 as int == pts_lo_y(v@),
        r.3 as int == pts_hi_y(v@),
        r.0 <= r.1,
        r.2 <= r.3,
        coord_ok(r.0 as int),
        coord_ok(r.1 as int),
        coord_ok(r.2 as int),
        coord_ok(r.3 as int),
{
    if v.len() == 0 {
        return (0, 0, 0, 0);
    }
    let p0 = v[0];
    let mut lo_x: i64 = p0.x;
    let mut hi_x: i64 = p0.x;
    let mut lo_y: i64 = p0.y;
    let mut hi_y: i64 = p0.y;
    let mut i: usize = 1;
    while i < v.len()
        invariant
            1 <= i <= v@.len(),
            forall|j: int| 0 <= j < v@.len() ==> point_ok(#[trigger] v@[j]),
            lo_x as int == pts_lo_x(v@.subrange(0, i as int)),
            hi_x as int == pts_hi_x(v@.subrange(0, i as int)),
            lo_y as int == pts_lo_y(v@.subrange(0, i as int)),
            hi_y as int == pts_hi_y(v@.subrange(0, i as int)),
            lo_x <= hi_x,
            lo_y <= hi_y,
            coord_ok(lo_x as int),
            coord_ok(hi_x as int),
            coord_ok(lo_y as int),
            coord_ok(hi_y as int),
        decreases v@.len() - i,
    {
        let p = v[i];
        proof {
            assert(v@.subrange(0, i as int + 1).drop_last() =~= v@.subrange(0, i as int));
            assert(v@.subrange(0, i as int + 1).last() == v@[i as int]);
        }
        lo_x = min_i64(lo_x, p.x);
        hi_x = max_i64(hi_x, p.x);
        lo_y = min_i64(lo_y, p.y);
        hi_y = max_i64(hi_y, p.y);
        i = i + 1;
    }
    proof {
        assert(v@.subrange(0, v@.len() as int) =~= v@);
    }
    (lo_x, hi_x, lo_y, hi_y)
}

/// Number of line separators in the content.
pub open spec fn nl_count(s: Seq<char>) -> int
    decreases s.len(),
{
    if s.len() == 0 {
        0
    } else {
        nl_count(s.drop_last()) + if s.last() == '\n' {
            1int
        } else {
            0int
        }
    }
}

/// Number of lines the content renders as: separators plus one.
pub open spec fn line_count_spec(s: Seq<char>) -> int {
    nl_count(s) + 1
}

/// Length of the trailing line (the run after the last separator).
pub open spec fn cur_run(s: Seq<char>) -> int
    decreases s.len(),
{
    if s.len() == 0 {
        0
    } else if s.last() == '\n' {
        0
    } else {
        cur_run(s.drop_last()) + 1
    }
}

/// Length in characters of the longest line of the content.
pub open spec fn max_line_len(s: Seq<char>) -> int
    decreases s.len(),
{
    if s.len() == 0 {
        0
    } else if s.last() == '\n' {
        max_line_len(s.drop_last())
    } else {
        max_spec(max_line_len(s.drop_last()), cur_run(s))
    }
}

/// The counting functions stay within the content length.
pub proof fn lemma_text_counts(s: Seq<char>)
    ensures
        0 <= nl_count(s) <= s.len(),
        0 <= cur_run(s) <= s.len(),
        0 <= max_line_len(s) <= s.len(),
    decreases s.len(),
{
    if s.len() > 0 {
        lemma_text_counts(s.drop_last());
    }
}

/// Counts lines and measures the longest line in one pass.
pub fn measure_content(s: &Vec<char>) -> (r: (usize, usize))
    requires
        s@.len() <= MAX_TEXT_LEN as int,
    ensures
        r.0 as int == line_count_spec(s@),
        r.1 as int == max_line_len(s@),
        1 <= r.0 as int <= s@.len() + 1,
        0 <= r.1 as int <= s@.len(),
{
    let mut nl: usize = 0;
    let mut cur: usize = 0;
    let mut best: usize = 0;
    let mut i: usize = 0;
    while i < s.len()
        invariant
            0 <= i <= s@.len(),
            nl as int == nl_count(s@.subrange(0, i as int)),
            cur as int == cur_run(s@.subrange(0, i as int)),
            best as int == max_line_len(s@.subrange(0, i as int)),
            nl <= i,
            cur <= i,
            best <= i,
        decreases s@.len() - i,
    {
        let c = s[i];
        proof {
            assert(s@.subrange(0, i as int + 1).drop_last() =~= s@.subrange(0, i as int));
            assert(s@.subrange(0, i as int + 1).last() == s@[i as int]);
        }
        if c == '\n' {
            nl = nl + 1;
            cur = 0;
        } else {
            cur = cur + 1;
            if cur > best {
                best = cur;
            }
        }
        i = i + 1;
    }
    proof {
        assert(s@.subrange(0, s@.len() as int) =~= s@);
        lemma_text_counts(s@);
    }
    (nl + 1, best)
}

/// Width in pixels of the text's box: six tenths of the font size per
/// character of the longest line, floored at the minimum text width.
pub open spec fn text_width_spec(content: Seq<char>, font: int) -> int {
    max_spec((max_line_len(content) * font * 6) / 10, MIN_TEXT_WIDTH as int)
}

/// Height in pixels of the text's box: six fifths of the font size
/// per line.
pub open spec fn text_height_spec(content: Seq<char>, font: int) -> int {
    (font * 6 / 5) * line_count_spec(content)
}

/// Measures the text's box.
pub fn text_box_size(content: &Vec<char>, font: i64) -> (r: (i64, i64))
    requires
        FONT_MIN as int <= font as int <= FONT_MAX as int,
        content@.len() <= MAX_TEXT_LEN as int,
    ensures
        r.0 as int == text_width_spec(content@, font as int),
        r.1 as int == text_height_spec(content@, font as int),
        MIN_TEXT_WIDTH as int <= r.0 as int <= 12_000_000,
        0 < r.1 as int <= 24_000_240,
{
    let (lines, longest) = measure_content(content);
    proof {
        crate::geom::lemma_mul_bound(longest as int, font as int, 100_000, 200);
        crate::geom::lemma_mul_bound(longest as int * font as int, 6, 20_000_000, 6);
        crate::geom::lemma_mul_bound(font as int * 6 / 5, lines as int, 240, 100_001);
        assert((font as int * 6 / 5) * lines as int > 0) by (nonlinear_arith)
            requires
                font as int * 6 / 5 >= 9,
                lines as int >= 1,
        ;
    }
    let w_raw: i64 = (longest as i64) * font * 6 / 10;
    let w = max_i64(w_raw, MIN_TEXT_WIDTH);
    let h: i64 = (font * 6 / 5) * (lines as i64);
    proof {
        assert(w_raw >= 0) by {
            crate::geom::lemma_mul_bound(longest as int, font as int, 100_000, 200);
            assert(longest as int * font as int >= 0) by (nonlinear_arith)
                requires
                    longest as int >= 0,
                    font as int >= 0,
            ;
            assert(longest as int * font as int * 6 >= 0) by (nonlinear_arith)
                requires
                    longest as int * font as int >= 0,
            ;
        }
    }
    (w, h)
}

/// Element-wise equality of point lists.
pub fn points_eq(a: &Vec<Point>, b: &Vec<Point>) -> (r: bool)
    ensures
        r == (a@ == b@),
{
    if a.len() != b.len() {
        proof {
            assert(a@ != b@);
        }
        return false;
    }
    let mut i: usize = 0;
    while i < a.len()
        invariant
            a@.len() == b@.len(),
            0 <= i <= a@.len(),
            forall|j: int| 0 <= j < i ==> a@[j] == b@[j],
        decreases a@.len() - i,
    {
        if a[i] != b[i] {
            proof {
                assert(a@ != b@);
            }
            return false;
        }
        i = i + 1;
    }
    proof {
        assert(a@ =~= b@);
    }
    true
}

/// Element-wise equality of character lists.
pub fn chars_eq(a: &Vec<char>, b: &Vec<char>) -> (r: bool)
    ensures
        r == (a@ == b@),
{
    if a.len() != b.len() {
        proof {
            assert(a@ != b@);
        }
        return false;
    }
    let mut i: usize = 0;
    while i < a.len()
        invariant
            a@.len() == b@.len(),
            0 <= i <= a@.len(),
            forall|j: int| 0 <= j < i ==> a@[j] == b@[j],
        decreases a@.len() - i,
    {
        if a[i] != b[i] {
            proof {
                assert(a@ != b@);
            }
            return false;
        }
        i = i + 1;
    }
    proof {
        assert(a@ =~= b@);
    }
    true
}

} // verus!
