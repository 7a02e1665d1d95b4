//! The element store: the ordered collection of committed elements
//! plus at most one in-progress element, with the creation, update,
//! commit, discard and removal lifecycle.

use vstd::prelude::*;

use crate::element::clone_chars;
use crate::element::committed_elem;
use crate::element::is_large_enough;
use crate::element::large_enough_spec;
use crate::element::wf_elem;
use crate::element::Color;
use crate::element::DrawingElement;
use crate::element::ElemV;
use crate::element::Tool;
use crate::geom::abs_diff;
use crate::geom::max_i64;
use crate::geom::max_spec;
use crate::geom::min_i64;
use crate::geom::min_spec;
use crate::geom::point_ok;
use crate::geom::rect_contains_spec;
use crate::geom::Point;
use crate::geom::Rect;
use crate::element::move_element;
use crate::element::move_elem_spec;
use crate::selection::apply_handle_drag;
use crate::selection::drag_spec;
use crate::selection::dynamic_handle_kind;
use crate::selection::dynamic_kind_spec;
use crate::selection::generate_handles;
use crate::selection::handles_spec;
use crate::selection::Handle;
use crate::selection::HandleKind;
use crate::DEFAULT_FONT_SIZE;
use crate::DEFAULT_THICKNESS;
use crate::MIN_SAVE_SIZE;

verus! {

/// The color newly drawn elements get.
pub open spec fn default_color() -> Color {
    Color { r: 255, g: 0, b: 0 }
}

/// The in-progress element a tool starts at `p`: a point rectangle, a
/// zero-radius ellipse, a point arrow, a one-point stroke, or an
/// empty text in editing mode.  Drawing tools only.
pub open spec fn fresh_elem_spec(tool: Tool, p: Point) -> ElemV {
    match tool {
        Tool::Ellipse => ElemV::Ellipse {
            center: p,
            radius_x: 0,
            radius_y: 0,
            color: default_color(),
            thickness: DEFAULT_THICKNESS,
        },
        Tool::Arrow => ElemV::Arrow {
            start: p,
            end: p,
            color: default_color(),
            thickness: DEFAULT_THICKNESS,
        },
        Tool::Freehand => ElemV::Freehand {
            points: seq![p],
            color: default_color(),
            thickness: DEFAULT_THICKNESS,
        },
        Tool::Text => ElemV::Text {
            position: p,
            content: Seq::empty(),
            font_size: DEFAULT_FONT_SIZE as int,
            is_editing: true,
            color: default_color(),
        },
        _ => ElemV::Rectangle {
            start: p,
            end: p,
            color: default_color(),
            thickness: DEFAULT_THICKNESS,
        },
    }
}

/// How a pointer at `p` reshapes the in-progress element: a rectangle
/// or arrow tracks `p` with its end point, an ellipse takes the
/// pointer offsets from its center as radii, a freehand stroke
/// appends `p`, and a text ignores the drag.
pub open spec fn updated_elem_spec(e: ElemV, p: Point) -> ElemV {
    match e {
        ElemV::Rectangle { start, color, thickness, .. } => ElemV::Rectangle {
            start,
            end: p,
            color,
            thickness,
        },
        ElemV::Ellipse { center, color, thickness, .. } => ElemV::Ellipse {
            center,
            radius_x: crate::geom::abs_spec(p.x as int - center.x as int),
            radius_y: crate::geom::abs_spec(p.y as int - center.y as int),
            color,
            thickness,
        },
        ElemV::Arrow { start, color, thickness, .. } => ElemV::Arrow {
            start,
            end: p,
            color,
            thickness,
        },
        ElemV::Freehand { points, color, thickness } => ElemV::Freehand {
            points: points.push(p),
            color,
            thickness,
        },
        ElemV::Text { .. } => e,
    }
}

/// The form an element is committed in: a rectangle is normalized to
/// its corner-ordered form, a text leaves editing mode, the rest are
/// kept as they are.
pub open spec fn commit_form_spec(e: ElemV) -> ElemV {
    match e {
        ElemV::Rectangle { start, end, color, thickness } => ElemV::Rectangle {
            start: Point {
                x: min_spec(start.x as int, end.x as int) as i64,
                y: min_spec(start.y as int, end.y as int) as i64,
            },
            end: Point {
                x: max_spec(start.x as int, end.x as int) as i64,
                y: max_spec(start.y as int, end.y as int) as i64,
            },
            color,
            thickness,
        },
        ElemV::Text { position, content, font_size, color, .. } => ElemV::Text {
            position,
            content,
            font_size,
            is_editing: false,
            color,
        },
        _ => e,
    }
}

/// The handle kind a drag effectively acts as: rectangles retype
/// corner handles from the pointer's quadrant, other variants keep
/// the grabbed kind.
pub open spec fn effective_kind_spec(e: ElemV, kind: HandleKind, p: Point) -> HandleKind {
    match e {
        ElemV::Rectangle { start, end, .. } => dynamic_kind_spec(kind, p, start, end),
        _ => kind,
    }
}

/// The text element with its content replaced; other variants are
/// unchanged.
pub open spec fn with_text_content(e: ElemV, s: Seq<char>) -> ElemV {
    match e {
        ElemV::Text { position, font_size, is_editing, color, .. } => ElemV::Text {
            position,
            content: s,
            font_size,
            is_editing,
            color,
        },
        _ => e,
    }
}

/// Rectangle normalization at commit: whatever corner pair a drag
/// sequence left behind, a committed rectangle has ordered corners at
/// least the save threshold apart on both axes.
pub proof fn lemma_commit_rect_normalized(e: ElemV)
    requires
        e is Rectangle,
        large_enough_spec(e),
    ensures
        commit_form_spec(e) matches ElemV::Rectangle { start, end, .. }
            && start.x as int + MIN_SAVE_SIZE as int <= end.x as int
            && start.y as int + MIN_SAVE_SIZE as int <= end.y as int,
{
}

/// Every element of the sequence satisfies the committed invariant.
pub open spec fn all_committed(s: Seq<ElemV>) -> bool {
    forall|i: int| 0 <= i < s.len() ==> committed_elem(#[trigger] s[i])
}

/// The ordered collection of committed elements plus at most one
/// in-progress element.
pub struct ElementStore {
    pub committed: Vec<DrawingElement>,
    pub current: Option<DrawingElement>,
}

impl ElementStore {
    /// The committed collection as a sequence of element views.
    pub open spec fn elems(&self) -> Seq<ElemV> {
        self.committed@.map(|i: int, e: DrawingElement| e@)
    }

    /// The in-progress element's view, when one exists.
    pub open spec fn cur(&self) -> Option<ElemV> {
        match self.current {
            Option::Some(e) => Option::Some(e@),
            Option::None => Option::None,
        }
    }

    /// Every committed element satisfies the committed invariant and
    /// the in-progress one, when present, is well-formed.
    pub open spec fn wf(&self) -> bool {
        &&& all_committed(self.elems())
        &&& match self.cur() {
            Option::Some(e) => wf_elem(e),
            Option::None => true,
        }
    }

    /// An empty store.
    pub fn new() -> (r: ElementStore)
        ensures
            r.wf(),
            r.elems().len() == 0,
            r.cur() is None,
    {
        let r = ElementStore { committed: Vec::new(), current: Option::None };
        proof {
            assert(r.elems() =~= Seq::<ElemV>::empty());
        }
        r
    }

    /// Starts a new in-progress element typed by `tool` at `p`.
    /// A no-op when `p` lies outside the committed crop region (or
    /// there is none), or when no drawing tool is active.
    pub fn start(&mut self, tool: Tool, p: Point, region: Option<Rect>) -> (started: bool)
        requires
            old(self).wf(),
            point_ok(p),
        ensures
            final(self).wf(),
            final(self).elems() == old(self).elems(),
            started == (tool != Tool::NoTool && match region {
                Option::Some(r) => rect_contains_spec(r, p),
                Option::None => false,
            }),
            started ==> final(self).cur() == Option::Some(fresh_elem_spec(tool, p)),
            !started ==> final(self).cur() == old(self).cur(),
    {
        let inside = match region {
            Option::Some(r) => r.contains(p),
            Option::None => false,
        };
        if !inside {
            return false;
        }
        let color = Color { r: 255, g: 0, b: 0 };
        match tool {
            Tool::NoTool => false,
            Tool::Rectangle => {
                self.current = Option::Some(
                    DrawingElement::Rectangle {
                        start: p,
                        end: p,
                        color,
                        thickness: DEFAULT_THICKNESS,
                    },
                );
                true
            },
            Tool::Ellipse => {
                self.current = Option::Some(
                    DrawingElement::Ellipse {
                        center: p,
                        radius_x: 0,
                        radius_y: 0,
                        color,
                        thickness: DEFAULT_THICKNESS,
                    },
                );
                true
            },
            Tool::Arrow => {
                self.current = Option::Some(
                    DrawingElement::Arrow { start: p, end: p, color, thickness: DEFAULT_THICKNESS },
                );
                true
            },
            Tool::Freehand => {
                let mut points: Vec<Point> = Vec::new();
                points.push(p);
                proof {
                    assert(points@ =~= seq![p]);
                }
                self.current = Option::Some(
                    DrawingElement::Freehand { points, color, thickness: DEFAULT_THICKNESS },
                );
                true
            },
            Tool::Text => {
                self.current = Option::Some(
                    DrawingElement::Text {
                        position: p,
                        content: Vec::new(),
                        font_size: DEFAULT_FONT_SIZE,
                        is_editing: true,
                        color,
                    },
                );
                true
            },
        }
    }

    /// Reshapes the in-progress element after the pointer moved to
    /// `p`.  A no-op when there is none or when `p` lies outside the
    /// crop region.
    pub fn update_current(&mut self, p: Point, region: Option<Rect>)
        requires
            old(self).wf(),
            point_ok(p),
        ensures
            final(self).wf(),
            final(self).elems() == old(self).elems(),
            ({
                let inside = match region {
                    Option::Some(r) => rect_contains_spec(r, p),
                    Option::None => false,
                };
                match old(self).cur() {
                    Option::Some(e) => if inside {
                        final(self).cur() == Option::Some(updated_elem_spec(e, p))
                    } else {
                        final(self).cur() == old(self).cur()
                    },
                    Option::None => final(self).cur() == old(self).cur(),
                }
            }),
    {
        let inside = match region {
            Option::Some(r) => r.contains(p),
            Option::None => false,
        };
        if !inside {
            return ;
        }
        match &mut self.current {
            Option::None => {},
            Option::Some(e) => {
                match e {
                    DrawingElement::Rectangle { end, .. } => {
                        *end = p;
                    },
                    DrawingElement::Ellipse { center, radius_x, radius_y, .. } => {
                        *radius_x = abs_diff(p.x, center.x);
                        *radius_y = abs_diff(p.y, center.y);
                    },
                    DrawingElement::Arrow { end, .. } => {
                        *end = p;
                    },
                    DrawingElement::Freehand { points, .. } => {
                        points.push(p);
                    },
                    DrawingElement::Text { .. } => {},
                }
            },
        }
    }

    /// Whether the in-progress element would survive a commit.
    pub fn current_large_enough(&self) -> (r: bool)
        requires
            self.wf(),
        ensures
            r == match self.cur() {
                Option::Some(e) => large_enough_spec(e),
                Option::None => false,
            },
    {
        match &self.current {
            Option::Some(e) => is_large_enough(e),
            Option::None => false,
        }
    }

    /// Commits the in-progress element: when it meets the
    /// minimum-size-for-persistence rule it is appended (rectangles
    /// normalized, texts taken out of editing mode) and its new index
    /// returned; otherwise it is discarded.  A no-op without an
    /// in-progress element.
    pub fn commit(&mut self) -> (r: Option<usize>)
        requires
            old(self).wf(),
        ensures
            final(self).wf(),
            final(self).cur() is None,
            match old(self).cur() {
                Option::Some(e) => {
                    if large_enough_spec(e) {
                        &&& r == Option::Some(old(self).elems().len() as usize)
                        &&& final(self).elems() == old(self).elems().push(commit_form_spec(e))
                        &&& committed_elem(commit_form_spec(e))
                    } else {
                        r is None && final(self).elems() == old(self).elems()
                    }
                },
                Option::None => r is None && final(self).elems() == old(self).elems(),
            },
    {
        let cur = self.current.take();
        match cur {
            Option::None => Option::None,
            Option::Some(e) => {
                if !is_large_enough(&e) {
                    proof {
                        assert(self.elems() =~= old(self).elems());
                    }
                    return Option::None;
                }
                let idx = self.committed.len();
                let out = match e {
                    DrawingElement::Rectangle { start, end, color, thickness } => {
                        let nstart = Point {
                            x: min_i64(start.x, end.x),
                            y: min_i64(start.y, end.y),
                        };
                        let nend = Point { x: max_i64(start.x, end.x), y: max_i64(start.y, end.y) };
                        DrawingElement::Rectangle { start: nstart, end: nend, color, thickness }
                    },
                    DrawingElement::Text { position, content, font_size, color, .. } => {
                        DrawingElement::Text {
                            position,
                            content,
                            font_size,
                            is_editing: false,
                            color,
                        }
                    },
                    other => other,
                };
                self.committed.push(out);
                proof {
                    assert(self.elems() =~= old(self).elems().push(
                        commit_form_spec(old(self).cur()->Some_0),
                    ));
                }
                Option::Some(idx)
            },
        }
    }

    /// Drops the in-progress element without committing it.
    pub fn discard(&mut self)
        requires
            old(self).wf(),
        ensures
            final(self).wf(),
            final(self).cur() is None,
            final(self).elems() == old(self).elems(),
    {
        self.current = Option::None;
    }

    /// Deletes the committed element at `index`; a no-op when the
    /// index is out of range.
    pub fn remove(&mut self, index: usize) -> (removed: bool)
        requires
            old(self).wf(),
        ensures
            final(self).wf(),
            final(self).cur() == old(self).cur(),
            removed == (index < old(self).elems().len()),
            removed ==> final(self).elems() == old(self).elems().remove(index as int),
            !removed ==> final(self).elems() == old(self).elems(),
    {
        if index < self.committed.len() {
            self.committed.remove(index);
            proof {
                assert(self.elems() =~= old(self).elems().remove(index as int));
            }
            true
        } else {
            false
        }
    }

    /// Removes and returns the committed element at `index`.
    pub fn take(&mut self, index: usize) -> (r: DrawingElement)
        requires
            old(self).wf(),
            index < old(self).elems().len(),
        ensures
            final(self).wf(),
            final(self).cur() == old(self).cur(),
            r@ == old(self).elems()[index as int],
            final(self).elems() == old(self).elems().remove(index as int),
            committed_elem(r@),
    {
        proof {
            assert(committed_elem(old(self).elems()[index as int]));
        }
        let r = self.committed.remove(index);
        proof {
            assert(self.elems() =~= old(self).elems().remove(index as int));
        }
        r
    }

    /// Makes `e` the in-progress element.
    pub fn set_current(&mut self, e: DrawingElement)
        requires
            old(self).wf(),
            wf_elem(e@),
        ensures
            final(self).wf(),
            final(self).elems() == old(self).elems(),
            final(self).cur() == Option::Some(e@),
    {
        self.current = Option::Some(e);
    }

    /// Replaces the in-progress text element's content; a no-op when
    /// the in-progress element is not a text.
    pub fn set_text_content(&mut self, s: &Vec<char>)
        requires
            old(self).wf(),
            s@.len() <= crate::MAX_TEXT_LEN as int,
        ensures
            final(self).wf(),
            final(self).elems() == old(self).elems(),
            match old(self).cur() {
                Option::Some(e) => if e is Text {
                    final(self).cur() == Option::Some(with_text_content(e, s@))
                } else {
                    final(self).cur() == old(self).cur()
                },
                Option::None => final(self).cur() == old(self).cur(),
            },
    {
        match &mut self.current {
            Option::Some(e) => {
                match e {
                    DrawingElement::Text { content, .. } => {
                        *content = clone_chars(s);
                    },
                    _ => {},
                }
            },
            Option::None => {},
        }
    }

    /// Applies a handle drag to the committed element at `index`,
    /// retyping a rectangle's corner handle from the pointer's
    /// quadrant first; returns the effective handle kind.
    pub fn drag_committed(&mut self, index: usize, kind: HandleKind, p: Point) -> (eff: HandleKind)
        requires
            old(self).wf(),
            index < old(self).elems().len(),
            point_ok(p),
        ensures
            final(self).wf(),
            final(self).cur() == old(self).cur(),
            eff == effective_kind_spec(old(self).elems()[index as int], kind, p),
            final(self).elems() == old(self).elems().update(
                index as int,
                drag_spec(old(self).elems()[index as int], eff, p),
            ),
    {
        let eff = match &self.committed[index] {
            DrawingElement::Rectangle { start, end, .. } => dynamic_handle_kind(
                kind,
                p,
                *start,
                *end,
            ),
            _ => kind,
        };
        let e = &mut self.committed[index];
        apply_handle_drag(e, eff, p);
        proof {
            assert(self.elems() =~= old(self).elems().update(
                index as int,
                drag_spec(old(self).elems()[index as int], eff, p),
            ));
        }
        eff
    }

    /// Moves the committed element at `index` by the given offset
    /// (clamped to the canvas).
    pub fn move_committed(&mut self, index: usize, dx: i64, dy: i64)
        requires
            old(self).wf(),
            index < old(self).elems().len(),
            -2 * crate::COORD_LIMIT <= dx as int <= 2 * crate::COORD_LIMIT,
            -2 * crate::COORD_LIMIT <= dy as int <= 2 * crate::COORD_LIMIT,
        ensures
            final(self).wf(),
            final(self).cur() == old(self).cur(),
            final(self).elems() == old(self).elems().update(
                index as int,
                move_elem_spec(old(self).elems()[index as int], dx as int, dy as int),
            ),
    {
        let e = &mut self.committed[index];
        move_element(e, dx, dy);
        proof {
            assert(self.elems() =~= old(self).elems().update(
                index as int,
                move_elem_spec(old(self).elems()[index as int], dx as int, dy as int),
            ));
        }
    }

    /// The handles of the committed element at `index`.
    pub fn handles_for(&self, index: usize) -> (r: Vec<Handle>)
        requires
            self.wf(),
            index < self.elems().len(),
        ensures
            r@ == handles_spec(self.elems()[index as int], index as int),
            forall|i: int| 0 <= i < r@.len() ==> crate::selection::handle_ok(#[trigger] r@[i]),
    {
        proof {
            assert(committed_elem(self.elems()[index as int]));
        }
        generate_handles(&self.committed[index], index)
    }

    /// Replaces the committed collection wholesale (used when history
    /// is restored).
    pub fn replace_all(&mut self, elems: Vec<DrawingElement>)
        requires
            old(self).wf(),
            forall|i: int|
                0 <= i < elems@.len() ==> committed_elem(#[trigger] elems@[i]@),
        ensures
            final(self).wf(),
            final(self).cur() == old(self).cur(),
            final(self).elems() == elems@.map(|i: int, e: DrawingElement| e@),
    {
        self.committed = elems;
    }
}

} // verus!
