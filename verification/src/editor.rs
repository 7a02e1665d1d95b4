//! The editor facade: routes pointer and key events to the crop
//! controller, the element store, the selection machinery and the
//! history, keeps the geometry cache fresh, and raises the redraw
//! flag that the host's render step consumes.

use vstd::prelude::*;

use crate::cache::segments_spec;
use crate::cache::GeometryCache;
use crate::cache::Segment;
use crate::crop::CropMode;
use crate::crop::CropRegionController;
use crate::element::committed_elem;
use crate::element::has_visible_char;
use crate::element::tool_of;
use crate::element::DrawingElement;
use crate::element::ElemV;
use crate::element::Tool;
use crate::element::clone_chars;
use crate::geom::clamp_point;
use crate::geom::point_ok;
use crate::geom::Point;
use crate::geom::Rect;
use crate::history::redo_step;
use crate::history::snap_view;
use crate::history::undo_step;
use crate::history::HistoryManager;
use crate::history::HistV;
use crate::policy::double_click_spec;
use crate::selection::handle_ok;
use crate::selection::handles_spec;
use crate::selection::hit_test_element;
use crate::selection::hit_test_handle;
use crate::selection::hits_elem_spec;
use crate::selection::hits_handle_spec;
use crate::selection::Handle;
use crate::selection::HandleKind;
use crate::store::commit_form_spec;
use crate::store::effective_kind_spec;
use crate::store::fresh_elem_spec;
use crate::store::updated_elem_spec;
use crate::store::with_text_content;
use crate::store::ElementStore;
use crate::textedit::TextSession;
use crate::COORD_LIMIT;
use crate::MIN_BOX_SIZE;

verus! {

/// The top-level interaction phase.
#[derive(Clone, Copy, PartialEq, Eq, Structural, Debug)]
pub enum DrawingState {
    Idle,
    Drawing,
    Editing,
}

/// The keys the text-input sub-mode consumes.
#[derive(Clone, Copy, PartialEq, Eq, Structural, Debug)]
pub enum TextKey {
    Char(char),
    Newline,
    Finish,
    Cancel,
    Backspace,
    Left,
    Right,
    Up,
    Down,
}

/// The selection of one committed element: its index, its freshly
/// generated handles, and whether the whole element is being moved.
pub struct SelectedElement {
    pub index: usize,
    pub handles: Vec<Handle>,
    pub is_moving: bool,
    pub move_anchor: Point,
}

/// A text element put back into editing mode.
pub open spec fn editing_form(e: ElemV) -> ElemV {
    match e {
        ElemV::Text { position, content, font_size, color, .. } => ElemV::Text {
            position,
            content,
            font_size,
            is_editing: true,
            color,
        },
        _ => e,
    }
}

/// The interactive annotation editor: all components of the engine
/// behind one event-driven interface.
pub struct Editor {
    pub crop: CropRegionController,
    pub store: ElementStore,
    pub history: HistoryManager,
    pub cache: GeometryCache,
    pub selected: Option<SelectedElement>,
    pub dragging: Option<Handle>,
    pub tool: Tool,
    pub tool_active: bool,
    pub state: DrawingState,
    pub text: Option<TextSession>,
    pub last_click: Option<(u64, Point)>,
    pub needs_redraw: bool,
}

impl Editor {
    /// The committed collection, as element views.
    pub open spec fn elems(&self) -> Seq<ElemV> {
        self.store.elems()
    }

    /// The history state together with the live collection.
    pub open spec fn hist(&self) -> HistV {
        self.history.hist(self.elems())
    }

    /// The components' invariants, the selection indexing a committed
    /// element with its exact handles, and a drag only with a
    /// selection.
    pub open spec fn wf_core(&self) -> bool {
        &&& self.crop.wf()
        &&& self.store.wf()
        &&& self.history.wf()
        &&& self.cache.wf()
        &&& match self.selected {
            Option::Some(s) => (s.index as int) < self.elems().len() && s.handles@ == handles_spec(
                self.elems()[s.index as int],
                s.index as int,
            ) && point_ok(s.move_anchor) && (forall|i: int|
                0 <= i < s.handles@.len() ==> handle_ok(#[trigger] s.handles@[i])),
            Option::None => true,
        }
        &&& (self.dragging is Some ==> self.selected is Some)
        &&& match self.dragging {
            Option::Some(h) => handle_ok(h),
            Option::None => true,
        }
        &&& match self.text {
            Option::Some(ts) => ts.wf() && match self.store.cur() {
                Option::Some(e) => e matches ElemV::Text { is_editing, .. } && is_editing,
                Option::None => false,
            },
            Option::None => true,
        }
        &&& match self.last_click {
            Option::Some(lc) => point_ok(lc.1),
            Option::None => true,
        }
    }

    /// The editor invariant: the core invariant, and an active text
    /// session mirrored exactly by the in-progress text element.
    pub open spec fn wf(&self) -> bool {
        &&& self.wf_core()
        &&& match self.text {
            Option::Some(ts) => match self.store.cur() {
                Option::Some(e) => e matches ElemV::Text { content, .. } && content == ts.buffer@,
                Option::None => false,
            },
            Option::None => true,
        }
    }

    /// A fresh editor over the given viewport.
    pub fn new(view_w: i64, view_h: i64) -> (r: Editor)
        requires
            MIN_BOX_SIZE as int <= view_w as int <= COORD_LIMIT as int,
            MIN_BOX_SIZE as int <= view_h as int <= COORD_LIMIT as int,
        ensures
            r.wf(),
            r.elems().len() == 0,
            r.store.cur() is None,
            r.selected is None,
            r.text is None,
            r.tool == Tool::NoTool,
            !r.tool_active,
            r.state == DrawingState::Idle,
            r.crop.region is None,
            !r.crop.finalized,
            r.history.undo_stack@.len() == 0,
            r.history.redo_stack@.len() == 0,
    {
        Editor {
            crop: CropRegionController::new(view_w, view_h),
            store: ElementStore::new(),
            history: HistoryManager::new(),
            cache: GeometryCache::new(),
            selected: Option::None,
            dragging: Option::None,
            tool: Tool::NoTool,
            tool_active: false,
            state: DrawingState::Idle,
            text: Option::None,
            last_click: Option::None,
            needs_redraw: false,
        }
    }

    /// Picks the active tool; picking a drawing tool activates the
    /// tool mode.
    pub fn set_tool(&mut self, t: Tool)
        requires
            old(self).wf(),
        ensures
            final(self).wf(),
            final(self).tool == t,
            final(self).tool_active == (old(self).tool_active || t != Tool::NoTool),
            final(self).elems() == old(self).elems(),
            final(self).store.cur() == old(self).store.cur(),
            final(self).selected == old(self).selected,
            final(self).text == old(self).text,
            final(self).hist() == old(self).hist(),
    {
        self.tool = t;
        if !(t == Tool::NoTool) {
            self.tool_active = true;
        }
    }

    /// Selects the committed element at `index`: generates its
    /// handles and switches the tool indicator to the element's
    /// variant.  A no-op on an out-of-range index.
    pub fn select_element(&mut self, index: usize) -> (did: bool)
        requires
            old(self).wf(),
        ensures
            final(self).wf(),
            final(self).elems() == old(self).elems(),
            final(self).store.cur() == old(self).store.cur(),
            final(self).hist() == old(self).hist(),
            final(self).text == old(self).text,
            final(self).crop == old(self).crop,
            final(self).last_click == old(self).last_click,
            did == ((index as int) < old(self).elems().len()),
            did ==> match final(self).selected {
                Option::Some(s) => s.index == index && s.handles@ == handles_spec(
                    old(self).elems()[index as int],
                    index as int,
                ) && !s.is_moving,
                Option::None => false,
            } && final(self).tool == tool_of(old(self).elems()[index as int]) && final(self).state
                == DrawingState::Editing,
            !did ==> final(self).selected == old(self).selected && final(self).tool == old(self).tool && final(self).state == old(self).state,
    {
        if index < self.store.committed.len() {
            let handles = self.store.handles_for(index);
            proof {
                assert(committed_elem(self.elems()[index as int]));
            }
            let e = &self.store.committed[index];
            self.tool = e.tool();
            self.selected = Option::Some(
                SelectedElement {
                    index,
                    handles,
                    is_moving: false,
                    move_anchor: Point { x: 0, y: 0 },
                },
            );
            self.state = DrawingState::Editing;
            self.needs_redraw = true;
            true
        } else {
            false
        }
    }

    /// Clears the selection and any handle drag.
    pub fn deselect(&mut self)
        requires
            old(self).wf(),
        ensures
            final(self).wf(),
            final(self).elems() == old(self).elems(),
            final(self).store.cur() == old(self).store.cur(),
            final(self).hist() == old(self).hist(),
            final(self).text == old(self).text,
            final(self).crop == old(self).crop,
            final(self).tool == old(self).tool,
            final(self).last_click == old(self).last_click,
            final(self).selected is None,
            final(self).dragging is None,
            final(self).state == DrawingState::Idle,
    {
        self.selected = Option::None;
        self.dragging = Option::None;
        self.state = DrawingState::Idle;
        self.needs_redraw = true;
    }

    /// Whether an undo is available (to enable the control).
    pub fn can_undo(&self) -> (r: bool)
        ensures
            r == (self.hist().undo.len() > 0),
    {
        self.history.can_undo()
    }

    /// Whether a redo is available.
    pub fn can_redo(&self) -> (r: bool)
        ensures
            r == (self.hist().redo.len() > 0),
    {
        self.history.can_redo()
    }

    /// Undoes the last snapshot: the whole effect on the history
    /// state is one `undo_step`; a successful undo clears the
    /// selection and invalidates the geometry cache.
    pub fn undo(&mut self) -> (did: bool)
        requires
            old(self).wf(),
        ensures
            final(self).wf(),
            did == (old(self).hist().undo.len() > 0),
            final(self).hist() == undo_step(old(self).hist()),
            final(self).store.cur() == old(self).store.cur(),
            final(self).text == old(self).text,
            final(self).crop == old(self).crop,
            did ==> final(self).selected is None && final(self).dragging is None,
            !did ==> final(self).selected == old(self).selected,
    {
        proof {
            lemma_live_committed(&old(self).store);
            assert(old(self).store.elems() =~= crate::history::snap_view(old(self).store.committed@));
        }
        let did = self.history.undo(&mut self.store.committed);
        proof {
            assert(self.store.elems() =~= crate::history::snap_view(self.store.committed@));
            assert forall|i: int| 0 <= i < self.store.elems().len() implies committed_elem(
                #[trigger] self.store.elems()[i],
            ) by {
                assert(committed_elem(self.store.committed@[i]@));
            }
        }
        if did {
            self.selected = Option::None;
            self.dragging = Option::None;
            self.state = DrawingState::Idle;
            self.cache.invalidate_all();
            self.needs_redraw = true;
        }
        did
    }

    /// Redoes the last undone snapshot, symmetrically.
    pub fn redo(&mut self) -> (did: bool)
        requires
            old(self).wf(),
        ensures
            final(self).wf(),
            did == (old(self).hist().redo.len() > 0),
            final(self).hist() == redo_step(old(self).hist()),
            final(self).store.cur() == old(self).store.cur(),
            final(self).text == old(self).text,
            final(self).crop == old(self).crop,
            did ==> final(self).selected is None && final(self).dragging is None,
            !did ==> final(self).selected == old(self).selected,
    {
        proof {
            lemma_live_committed(&old(self).store);
            assert(old(self).store.elems() =~= crate::history::snap_view(old(self).store.committed@));
        }
        let did = self.history.redo(&mut self.store.committed);
        proof {
            assert(self.store.elems() =~= crate::history::snap_view(self.store.committed@));
            assert forall|i: int| 0 <= i < self.store.elems().len() implies committed_elem(
                #[trigger] self.store.elems()[i],
            ) by {
                assert(committed_elem(self.store.committed@[i]@));
            }
        }
        if did {
            self.selected = Option::None;
            self.dragging = Option::None;
            self.state = DrawingState::Idle;
            self.cache.invalidate_all();
            self.needs_redraw = true;
        }
        did
    }

    /// Finishes the text-input sub-mode: content with at least one
    /// visible character is committed (and the new element selected);
    /// blank content discards the element.  A no-op when no text
    /// session is active.
    pub fn finish_text_input(&mut self) -> (committed: Option<usize>)
        requires
            old(self).wf(),
        ensures
            final(self).wf(),
            final(self).text is None,
            final(self).crop == old(self).crop,
            match old(self).text {
                Option::None => committed is None && *final(self) == *old(self),
                Option::Some(ts) => {
                    let cur = old(self).store.cur()->Some_0;
                    &&& final(self).store.cur() is None
                    &&& if has_visible_char(ts.buffer@) {
                        &&& (committed matches Option::Some(ci) && ci as int == old(self).elems().len())
                        &&& final(self).elems() == old(self).elems().push(commit_form_spec(cur))
                        &&& final(self).hist().redo.len() == 0
                        &&& final(self).state == DrawingState::Editing
                        &&& match final(self).selected {
                            Option::Some(s) => s.index as int == old(self).elems().len(),
                            Option::None => false,
                        }
                    } else {
                        &&& committed is None
                        &&& final(self).elems() == old(self).elems()
                        &&& final(self).hist() == old(self).hist()
                        &&& final(self).state == DrawingState::Idle
                    }
                },
            },
    {
        if self.text.is_none() {
            return Option::None;
        }
        self.text = Option::None;
        let n = self.store.committed.len();
        proof {
            assert(old(self).elems().len() == n as int);
        }
        if self.store.current_large_enough() {
            proof {
                lemma_live_committed(&self.store);
            }
            self.history.snapshot(&self.store.committed);
            let idx_opt = self.store.commit();
            match idx_opt {
                Option::Some(idx) => {
                    self.select_element(idx);
                    self.needs_redraw = true;
                    Option::Some(idx)
                },
                Option::None => {
                    proof {
                        assert(false);
                    }
                    Option::None
                },
            }
        } else {
            self.store.discard();
            self.state = DrawingState::Idle;
            self.needs_redraw = true;
            Option::None
        }
    }

    /// Cancels the text-input sub-mode, discarding the in-progress
    /// element without committing or snapshotting.
    pub fn cancel_text_input(&mut self)
        requires
            old(self).wf(),
        ensures
            final(self).wf(),
            final(self).text is None,
            final(self).store.cur() is None,
            final(self).elems() == old(self).elems(),
            final(self).hist() == old(self).hist(),
            final(self).crop == old(self).crop,
            final(self).state == DrawingState::Idle,
    {
        self.text = Option::None;
        self.store.discard();
        self.state = DrawingState::Idle;
        self.needs_redraw = true;
    }

    /// Handles one key of the text-input sub-mode: characters and
    /// line breaks insert at the cursor (dropped at the length cap),
    /// backspace deletes before it, the arrows move it (up and down
    /// by whole lines, keeping the column), finish commits and cancel
    /// discards.  A no-op when no text session is active.
    pub fn on_text_key(&mut self, k: TextKey) -> (committed: Option<usize>)
        requires
            old(self).wf(),
        ensures
            final(self).wf(),
            final(self).crop == old(self).crop,
            match old(self).text {
                Option::None => committed is None && *final(self) == *old(self),
                Option::Some(ts) => match k {
                    TextKey::Finish => final(self).text is None,
                    TextKey::Cancel => final(self).text is None && final(self).store.cur() is None
                        && final(self).elems() == old(self).elems() && committed is None,
                    TextKey::Char(c) => committed is None && final(self).elems() == old(self).elems() && final(self).hist() == old(self).hist() && match final(self).text {
                        Option::Some(ts2) => if ts.buffer@.len() < crate::MAX_TEXT_LEN as int {
                            ts2.buffer@ == ts.buffer@.insert(ts.cursor as int, c) && ts2.cursor
                                == ts.cursor + 1
                        } else {
                            ts2 == ts
                        },
                        Option::None => false,
                    },
                    TextKey::Newline => committed is None && final(self).elems() == old(self).elems() && final(self).hist() == old(self).hist() && match final(self).text {
                        Option::Some(ts2) => if ts.buffer@.len() < crate::MAX_TEXT_LEN as int {
                            ts2.buffer@ == ts.buffer@.insert(ts.cursor as int, '\n') && ts2.cursor
                                == ts.cursor + 1
                        } else {
                            ts2 == ts
                        },
                        Option::None => false,
                    },
                    TextKey::Backspace => committed is None && final(self).elems() == old(self).elems() && final(self).hist() == old(self).hist() && match final(self).text {
                        Option::Some(ts2) => if ts.cursor > 0 {
                            ts2.buffer@ == ts.buffer@.remove(ts.cursor as int - 1) && ts2.cursor
                                == ts.cursor - 1
                        } else {
                            ts2 == ts
                        },
                        Option::None => false,
                    },
                    TextKey::Left => committed is None && final(self).elems() == old(self).elems()
                        && final(self).store.cur() == old(self).store.cur() && match final(self).text {
                        Option::Some(ts2) => ts2.buffer@ == ts.buffer@ && ts2.cursor as int
                            == crate::geom::max_spec(0, ts.cursor as int - 1),
                        Option::None => false,
                    },
                    TextKey::Right => committed is None && final(self).elems() == old(self).elems()
                        && final(self).store.cur() == old(self).store.cur() && match final(self).text {
                        Option::Some(ts2) => ts2.buffer@ == ts.buffer@ && ts2.cursor as int
                            == crate::geom::min_spec(ts.buffer@.len() as int, ts.cursor as int + 1),
                        Option::None => false,
                    },
                    TextKey::Up => committed is None && final(self).elems() == old(self).elems()
                        && final(self).store.cur() == old(self).store.cur() && match final(self).text {
                        Option::Some(ts2) => ts2.buffer@ == ts.buffer@ && ts2.cursor as int
                            == crate::textedit::cursor_up_spec(ts.buffer@, ts.cursor as int),
                        Option::None => false,
                    },
                    TextKey::Down => committed is None && final(self).elems() == old(self).elems()
                        && final(self).store.cur() == old(self).store.cur() && match final(self).text {
                        Option::Some(ts2) => ts2.buffer@ == ts.buffer@ && ts2.cursor as int
                            == crate::textedit::cursor_down_spec(ts.buffer@, ts.cursor as int),
                        Option::None => false,
                    },
                },
            },
    {
        if self.text.is_none() {
            return Option::None;
        }
        match k {
            TextKey::Finish => {
                return self.finish_text_input();
            },
            TextKey::Cancel => {
                self.cancel_text_input();
                return Option::None;
            },
            TextKey::Char(c) => {
                match &mut self.text {
                    Option::Some(ts) => {
                        ts.insert_char(c);
                    },
                    Option::None => {},
                }
                self.sync_text();
            },
            TextKey::Newline => {
                match &mut self.text {
                    Option::Some(ts) => {
                        ts.insert_char('\n');
                    },
                    Option::None => {},
                }
                self.sync_text();
            },
            TextKey::Backspace => {
                match &mut self.text {
                    Option::Some(ts) => {
                        ts.backspace();
                    },
                    Option::None => {},
                }
                self.sync_text();
            },
            TextKey::Left => {
                match &mut self.text {
                    Option::Some(ts) => {
                        ts.cursor_left();
                    },
                    Option::None => {},
                }
            },
            TextKey::Right => {
                match &mut self.text {
                    Option::Some(ts) => {
                        ts.cursor_right();
                    },
                    Option::None => {},
                }
            },
            TextKey::Up => {
                match &mut self.text {
                    Option::Some(ts) => {
                        ts.cursor_up();
                    },
                    Option::None => {},
                }
            },
            TextKey::Down => {
                match &mut self.text {
                    Option::Some(ts) => {
                        ts.cursor_down();
                    },
                    Option::None => {},
                }
            },
        }
        self.needs_redraw = true;
        Option::None
    }

    /// Copies the session buffer into the in-progress text element.
    fn sync_text(&mut self)
        requires
            old(self).wf_core(),
            old(self).text is Some,
        ensures
            final(self).wf(),
            final(self).text == old(self).text,
            final(self).elems() == old(self).elems(),
            final(self).hist() == old(self).hist(),
            final(self).crop == old(self).crop,
            final(self).selected == old(self).selected,
            final(self).tool == old(self).tool,
            final(self).state == old(self).state,
            final(self).store.cur() == Option::Some(
                with_text_content(
                    old(self).store.cur()->Some_0,
                    old(self).text->Some_0.buffer@,
                ),
            ),
    {
        let buffer = match &self.text {
            Option::Some(ts) => clone_chars(&ts.buffer),
            Option::None => Vec::new(),
        };
        self.store.set_text_content(&buffer);
    }

    /// The render-ready segments of the committed element at `index`,
    /// served through the geometry cache.
    pub fn vertices_for(&mut self, index: usize) -> (r: Option<Vec<Segment>>)
        requires
            old(self).wf(),
        ensures
            final(self).wf(),
            final(self).elems() == old(self).elems(),
            final(self).store.cur() == old(self).store.cur(),
            final(self).hist() == old(self).hist(),
            final(self).selected == old(self).selected,
            final(self).text == old(self).text,
            final(self).crop == old(self).crop,
            (index as int) < old(self).elems().len() ==> match r {
                Option::Some(v) => v@ == segments_spec(old(self).elems()[index as int]),
                Option::None => false,
            },
            (index as int) >= old(self).elems().len() ==> r is None,
    {
        if index < self.store.committed.len() {
            proof {
                assert(committed_elem(self.elems()[index as int]));
            }
            let v = self.cache.vertices_for(&self.store.committed[index]);
            Option::Some(v)
        } else {
            Option::None
        }
    }

    /// The render-ready segments of the in-progress element, served
    /// through the geometry cache.
    pub fn current_vertices(&mut self) -> (r: Option<Vec<Segment>>)
        requires
            old(self).wf(),
        ensures
            final(self).wf(),
            final(self).elems() == old(self).elems(),
            final(self).store.cur() == old(self).store.cur(),
            final(self).hist() == old(self).hist(),
            final(self).selected == old(self).selected,
            final(self).text == old(self).text,
            final(self).crop == old(self).crop,
            match old(self).store.cur() {
                Option::Some(e) => match r {
                    Option::Some(v) => v@ == segments_spec(e),
                    Option::None => false,
                },
                Option::None => r is None,
            },
    {
        let seg = match &self.store.current {
            Option::Some(e) => Option::Some(self.cache.vertices_for(e)),
            Option::None => Option::None,
        };
        seg
    }

    /// Consumes the redraw flag.
    pub fn take_redraw(&mut self) -> (r: bool)
        requires
            old(self).wf(),
        ensures
            final(self).wf(),
            r == old(self).needs_redraw,
            !final(self).needs_redraw,
            final(self).elems() == old(self).elems(),
            final(self).store.cur() == old(self).store.cur(),
            final(self).hist() == old(self).hist(),
            final(self).selected == old(self).selected,
            final(self).text == old(self).text,
            final(self).crop == old(self).crop,
    {
        let r = self.needs_redraw;
        self.needs_redraw = false;
        r
    }

    /// Moves the selected element by `(dx, dy)` (snapshotting
    /// first): every coordinate-bearing field is translated, clamped
    /// to the canvas.  A no-op without a selection.
    pub fn move_selected(&mut self, dx: i64, dy: i64) -> (did: bool)
        requires
            old(self).wf(),
            -2 * COORD_LIMIT <= dx as int <= 2 * COORD_LIMIT,
            -2 * COORD_LIMIT <= dy as int <= 2 * COORD_LIMIT,
        ensures
            final(self).wf(),
            did == (old(self).selected is Some),
            final(self).store.cur() == old(self).store.cur(),
            final(self).text == old(self).text,
            final(self).crop == old(self).crop,
            did ==> ({
                let sel = old(self).selected->Some_0;
                let ne = crate::element::move_elem_spec(
                    old(self).elems()[sel.index as int],
                    dx as int,
                    dy as int,
                );
                &&& final(self).elems() == old(self).elems().update(sel.index as int, ne)
                &&& final(self).hist().undo == crate::history::snapshot_step(old(self).hist()).undo
                &&& final(self).hist().redo.len() == 0
                &&& match final(self).selected {
                    Option::Some(s2) => s2.index == sel.index && s2.handles@ == handles_spec(
                        ne,
                        sel.index as int,
                    ),
                    Option::None => false,
                }
            }),
            !did ==> *final(self) == *old(self),
    {
        let idx = match &self.selected {
            Option::Some(sel) => sel.index,
            Option::None => {
                return false;
            },
        };
        proof {
            lemma_live_committed(&self.store);
        }
        self.history.snapshot(&self.store.committed);
        self.cache.invalidate(&self.store.committed[idx]);
        self.store.move_committed(idx, dx, dy);
        let handles = self.store.handles_for(idx);
        match &mut self.selected {
            Option::Some(sel) => {
                sel.handles = handles;
            },
            Option::None => {},
        }
        self.needs_redraw = true;
        true
    }

    /// Deletes the committed element at `index` (snapshotting first);
    /// a no-op on an out-of-range index.
    pub fn remove_element(&mut self, index: usize) -> (did: bool)
        requires
            old(self).wf(),
        ensures
            final(self).wf(),
            did == ((index as int) < old(self).elems().len()),
            did ==> final(self).elems() == old(self).elems().remove(index as int) && final(self).selected is None && final(self).hist().redo.len() == 0,
            !did ==> final(self).elems() == old(self).elems() && final(self).hist() == old(self).hist(),
            final(self).store.cur() == old(self).store.cur(),
            final(self).text == old(self).text,
            final(self).crop == old(self).crop,
    {
        if index < self.store.committed.len() {
            proof {
                lemma_live_committed(&self.store);
            }
            self.history.snapshot(&self.store.committed);
            self.store.remove(index);
            self.selected = Option::None;
            self.dragging = Option::None;
            self.state = DrawingState::Idle;
            self.cache.invalidate_all();
            self.needs_redraw = true;
            true
        } else {
            false
        }
    }

    /// Clears the crop region and leaves tool mode (the reset
    /// command).
    pub fn reset_region(&mut self)
        requires
            old(self).wf(),
        ensures
            final(self).wf(),
            final(self).crop.region is None,
            !final(self).crop.finalized,
            final(self).tool == Tool::NoTool,
            !final(self).tool_active,
            final(self).selected is None,
            final(self).elems() == old(self).elems(),
            final(self).store.cur() == old(self).store.cur(),
            final(self).hist() == old(self).hist(),
            final(self).text == old(self).text,
    {
        self.crop.reset();
        self.tool = Tool::NoTool;
        self.tool_active = false;
        self.selected = Option::None;
        self.dragging = Option::None;
        self.state = DrawingState::Idle;
        self.needs_redraw = true;
    }

    /// Opens an existing committed text element for editing: it is
    /// taken out of the collection, becomes the in-progress element
    /// in editing mode, and a text session over its content starts
    /// with the cursor at the end.  A no-op when `index` is out of
    /// range or the element is not a text.
    pub fn start_edit_text(&mut self, index: usize) -> (did: bool)
        requires
            old(self).wf(),
        ensures
            final(self).wf(),
            final(self).crop == old(self).crop,
            final(self).hist().undo == old(self).hist().undo,
            final(self).hist().redo == old(self).hist().redo,
            final(self).last_click == old(self).last_click,
            did == ((index as int) < old(self).elems().len() && old(self).elems()[index as int]
                is Text),
            did ==> ({
                &&& final(self).elems() == old(self).elems().remove(index as int)
                &&& final(self).store.cur() == Option::Some(
                    editing_form(old(self).elems()[index as int]),
                )
                &&& (old(self).elems()[index as int] matches ElemV::Text { content: oc, .. }
                    && match final(self).text {
                    Option::Some(ts) => ts.buffer@ == oc && ts.cursor as int == oc.len(),
                    Option::None => false,
                })
                &&& final(self).selected is None
                &&& final(self).state == DrawingState::Drawing
            }),
            !did ==> *final(self) == *old(self),
    {
        if index >= self.store.committed.len() {
            return false;
        }
        let is_text = match &self.store.committed[index] {
            DrawingElement::Text { .. } => true,
            _ => false,
        };
        if !is_text {
            return false;
        }
        let taken = self.store.take(index);
        match taken {
            DrawingElement::Text { position, content, font_size, color, .. } => {
                let buffer = clone_chars(&content);
                proof {
                    assert(committed_elem(old(self).elems()[index as int]));
                }
                self.store.set_current(
                    DrawingElement::Text {
                        position,
                        content,
                        font_size,
                        is_editing: true,
                        color,
                    },
                );
                self.text = Option::Some(TextSession::from_content(buffer));
                self.selected = Option::None;
                self.dragging = Option::None;
                self.state = DrawingState::Drawing;
                self.needs_redraw = true;
                true
            },
            _ => {
                proof {
                    assert(false);
                }
                false
            },
        }
    }
}

/// Whether `j` is the first handle of the list the pointer grabs.
pub open spec fn handle_hit_at(hs: Seq<Handle>, p: Point, j: int) -> bool {
    &&& 0 <= j < hs.len()
    &&& hits_handle_spec(p, hs[j])
    &&& forall|k: int| 0 <= k < j ==> !hits_handle_spec(p, #[trigger] hs[k])
}

/// Whether the pointer grabs any handle of the list.
pub open spec fn some_handle_hit(hs: Seq<Handle>, p: Point) -> bool {
    exists|j: int| handle_hit_at(hs, p, j)
}

/// Whether `i` is the topmost committed element the pointer hits.
pub open spec fn elem_hit_at(es: Seq<ElemV>, p: Point, i: int) -> bool {
    &&& 0 <= i < es.len()
    &&& hits_elem_spec(p, es[i])
    &&& forall|k: int| i < k < es.len() ==> !hits_elem_spec(p, #[trigger] es[k])
}

/// Whether the pointer hits any committed element.
pub open spec fn some_elem_hit(es: Seq<ElemV>, p: Point) -> bool {
    exists|i: int| elem_hit_at(es, p, i)
}

/// The raw pointer position clamped onto the canvas.
pub open spec fn clamped(p: Point) -> Point {
    Point {
        x: crate::geom::clamp_coord_spec(p.x as int) as i64,
        y: crate::geom::clamp_coord_spec(p.y as int) as i64,
    }
}

/// What a press did.
#[derive(Clone, Copy, PartialEq, Eq, Structural, Debug)]
pub enum Press {
    TextFinished(Option<usize>),
    HandleDragStarted(usize),
    TextEditStarted(usize),
    ElementGrabbed(usize),
    DrawStarted,
    DrawBlocked,
    CropPressed,
}

/// What a release did.
#[derive(Clone, Copy, PartialEq, Eq, Structural, Debug)]
pub enum Release {
    DrawFinished(Option<usize>),
    DragEnded,
    MoveEnded,
    CropReleased(bool),
}

/// Finds the first handle of the list the pointer grabs.
fn find_hit_handle(hs: &Vec<Handle>, p: Point) -> (r: Option<usize>)
    requires
        point_ok(p),
        forall|i: int| 0 <= i < hs@.len() ==> handle_ok(#[trigger] hs@[i]),
    ensures
        match r {
            Option::Some(j) => handle_hit_at(hs@, p, j as int),
            Option::None => !some_handle_hit(hs@, p),
        },
{
    let mut i: usize = 0;
    while i < hs.len()
        invariant
            0 <= i <= hs@.len(),
            point_ok(p),
            forall|k: int| 0 <= k < hs@.len() ==> handle_ok(#[trigger] hs@[k]),
            forall|k: int| 0 <= k < i ==> !hits_handle_spec(p, #[trigger] hs@[k]),
        decreases hs@.len() - i,
    {
        if hit_test_handle(p, &hs[i]) {
            return Option::Some(i);
        }
        i = i + 1;
    }
    proof {
        assert forall|j: int| !handle_hit_at(hs@, p, j) by {
            if 0 <= j < hs@.len() {
                assert(!hits_handle_spec(p, hs@[j]));
            }
        }
    }
    Option::None
}

impl Editor {
    /// Finds the topmost committed element the pointer hits.
    fn find_topmost_hit(&self, p: Point) -> (r: Option<usize>)
        requires
            self.store.wf(),
            point_ok(p),
        ensures
            match r {
                Option::Some(i) => elem_hit_at(self.elems(), p, i as int),
                Option::None => !some_elem_hit(self.elems(), p),
            },
    {
        let mut i: usize = self.store.committed.len();
        while i > 0
            invariant
                0 <= i <= self.elems().len(),
                self.store.wf(),
                point_ok(p),
                forall|k: int|
                    i <= k < self.elems().len() ==> !hits_elem_spec(p, #[trigger] self.elems()[k]),
            decreases i,
        {
            i = i - 1;
            proof {
                assert(committed_elem(self.elems()[i as int]));
            }
            if hit_test_element(p, &self.store.committed[i]) {
                return Option::Some(i);
            }
        }
        proof {
            assert forall|j: int| !elem_hit_at(self.elems(), p, j) by {
                if 0 <= j < self.elems().len() {
                    assert(!hits_elem_spec(p, self.elems()[j]));
                }
            }
        }
        Option::None
    }

    /// Commits or discards the in-progress element on release: one
    /// meeting the minimum-size-for-persistence rule is appended
    /// (after a snapshot) and immediately selected; a smaller one is
    /// discarded without snapshotting.  A no-op without an
    /// in-progress element.
    pub fn finish_drawing(&mut self) -> (committed: Option<usize>)
        requires
            old(self).wf(),
            old(self).text is None,
        ensures
            final(self).wf(),
            final(self).text is None,
            final(self).crop == old(self).crop,
            final(self).store.cur() is None,
            match old(self).store.cur() {
                Option::None => committed is None && final(self).elems() == old(self).elems()
                    && final(self).hist() == old(self).hist() && final(self).state
                    == DrawingState::Idle,
                Option::Some(cur) => if crate::element::large_enough_spec(cur) {
                    &&& (committed matches Option::Some(ci) && ci as int == old(self).elems().len())
                    &&& final(self).elems() == old(self).elems().push(commit_form_spec(cur))
                    &&& final(self).hist().undo == crate::history::snapshot_step(
                        old(self).hist(),
                    ).undo
                    &&& final(self).hist().redo.len() == 0
                    &&& final(self).state == DrawingState::Editing
                    &&& final(self).tool == tool_of(commit_form_spec(cur))
                    &&& match final(self).selected {
                        Option::Some(s) => s.index as int == old(self).elems().len()
                            && s.handles@ == handles_spec(
                            commit_form_spec(cur),
                            old(self).elems().len() as int,
                        ) && !s.is_moving,
                        Option::None => false,
                    }
                } else {
                    &&& committed is None
                    &&& final(self).elems() == old(self).elems()
                    &&& final(self).hist() == old(self).hist()
                    &&& final(self).state == DrawingState::Idle
                },
            },
    {
        match &self.store.current {
            Option::None => {
                self.state = DrawingState::Idle;
                self.needs_redraw = true;
                return Option::None;
            },
            Option::Some(_) => {},
        }
        let n = self.store.committed.len();
        proof {
            assert(old(self).elems().len() == n as int);
        }
        if self.store.current_large_enough() {
            proof {
                lemma_live_committed(&self.store);
                assert(old(self).elems() =~= snap_view(old(self).store.committed@));
            }
            self.history.snapshot(&self.store.committed);
            proof {
                assert(self.store.elems() =~= snap_view(self.store.committed@));
            }
            let idx_opt = self.store.commit();
            match idx_opt {
                Option::Some(idx) => {
                    self.select_element(idx);
                    self.needs_redraw = true;
                    Option::Some(idx)
                },
                Option::None => {
                    proof {
                        assert(false);
                    }
                    Option::None
                },
            }
        } else {
            self.store.discard();
            self.state = DrawingState::Idle;
            self.needs_redraw = true;
            Option::None
        }
    }

    /// Routes a pointer press: an active text session is committed
    /// first; then, in order, a grabbed selection handle starts a
    /// handle drag (after a snapshot), the topmost hit element is
    /// selected and starts moving (a double click on a text opens it
    /// for editing instead), an active tool starts drawing inside the
    /// crop region, and otherwise the press goes to the crop region
    /// controller.
    pub fn pointer_pressed(&mut self, p_raw: Point, now_ms: u64) -> (r: Press)
        requires
            old(self).wf(),
        ensures
            final(self).wf(),
            ({
                let p = clamped(p_raw);
                let es = old(self).elems();
                match r {
                    Press::TextFinished(c) => {
                        &&& old(self).text is Some
                        &&& final(self).text is None
                        &&& final(self).store.cur() is None
                        &&& final(self).crop == old(self).crop
                        &&& (c is Some <==> has_visible_char(old(self).text->Some_0.buffer@))
                        &&& if has_visible_char(old(self).text->Some_0.buffer@) {
                            final(self).elems() == es.push(
                                commit_form_spec(old(self).store.cur()->Some_0),
                            )
                        } else {
                            final(self).elems() == es
                        }
                    },
                    Press::HandleDragStarted(j) => {
                        &&& old(self).text is None
                        &&& old(self).selected is Some
                        &&& handle_hit_at(old(self).selected->Some_0.handles@, p, j as int)
                        &&& final(self).dragging == Option::Some(
                            old(self).selected->Some_0.handles@[j as int],
                        )
                        &&& final(self).elems() == es
                        &&& final(self).store.cur() == old(self).store.cur()
                        &&& final(self).hist() == crate::history::snapshot_step(old(self).hist())
                        &&& final(self).tool == tool_of(
                            es[old(self).selected->Some_0.index as int],
                        )
                        &&& final(self).crop == old(self).crop
                    },
                    Press::TextEditStarted(i) => {
                        &&& old(self).text is None
                        &&& !(old(self).selected is Some && some_handle_hit(
                            old(self).selected->Some_0.handles@,
                            p,
                        ))
                        &&& elem_hit_at(es, p, i as int)
                        &&& es[i as int] is Text
                        &&& double_click_spec(now_ms, p, old(self).last_click)
                        &&& final(self).elems() == es.remove(i as int)
                        &&& final(self).store.cur() == Option::Some(editing_form(es[i as int]))
                        &&& (es[i as int] matches ElemV::Text { content: oc, .. } && match final(self).text {
                            Option::Some(ts) => ts.buffer@ == oc,
                            Option::None => false,
                        })
                        &&& final(self).selected is None
                        &&& final(self).state == DrawingState::Drawing
                        &&& final(self).last_click == Option::Some((now_ms, p))
                        &&& final(self).crop == old(self).crop
                    },
                    Press::ElementGrabbed(i) => {
                        &&& old(self).text is None
                        &&& !(old(self).selected is Some && some_handle_hit(
                            old(self).selected->Some_0.handles@,
                            p,
                        ))
                        &&& elem_hit_at(es, p, i as int)
                        &&& !(es[i as int] is Text && double_click_spec(
                            now_ms,
                            p,
                            old(self).last_click,
                        ))
                        &&& final(self).elems() == es
                        &&& final(self).store.cur() == old(self).store.cur()
                        &&& match final(self).selected {
                            Option::Some(s) => s.index == i && s.handles@ == handles_spec(
                                es[i as int],
                                i as int,
                            ) && s.is_moving && s.move_anchor == p,
                            Option::None => false,
                        }
                        &&& final(self).tool == tool_of(es[i as int])
                        &&& final(self).hist() == crate::history::snapshot_step(old(self).hist())
                        &&& final(self).state == DrawingState::Editing
                        &&& final(self).last_click == (if es[i as int] is Text {
                            Option::Some((now_ms, p))
                        } else {
                            old(self).last_click
                        })
                        &&& final(self).crop == old(self).crop
                    },
                    Press::DrawStarted => {
                        &&& old(self).text is None
                        &&& !(old(self).selected is Some && some_handle_hit(
                            old(self).selected->Some_0.handles@,
                            p,
                        ))
                        &&& !some_elem_hit(es, p)
                        &&& old(self).tool_active
                        &&& old(self).tool != Tool::NoTool
                        &&& match old(self).crop.active_region() {
                            Option::Some(reg) => crate::geom::rect_contains_spec(reg, p),
                            Option::None => false,
                        }
                        &&& final(self).elems() == es
                        &&& final(self).store.cur() == Option::Some(
                            fresh_elem_spec(old(self).tool, p),
                        )
                        &&& final(self).state == DrawingState::Drawing
                        &&& final(self).selected is None
                        &&& (final(self).text is Some <==> old(self).tool == Tool::Text)
                        &&& final(self).hist() == old(self).hist()
                        &&& final(self).crop == old(self).crop
                    },
                    Press::DrawBlocked => {
                        &&& old(self).text is None
                        &&& !(old(self).selected is Some && some_handle_hit(
                            old(self).selected->Some_0.handles@,
                            p,
                        ))
                        &&& !some_elem_hit(es, p)
                        &&& old(self).tool_active
                        &&& !(old(self).tool != Tool::NoTool && match old(
                            self,
                        ).crop.active_region() {
                            Option::Some(reg) => crate::geom::rect_contains_spec(reg, p),
                            Option::None => false,
                        })
                        &&& final(self).elems() == es
                        &&& final(self).store.cur() == old(self).store.cur()
                        &&& final(self).selected is None
                        &&& final(self).hist() == old(self).hist()
                        &&& final(self).crop == old(self).crop
                    },
                    Press::CropPressed => {
                        &&& old(self).text is None
                        &&& !(old(self).selected is Some && some_handle_hit(
                            old(self).selected->Some_0.handles@,
                            p,
                        ))
                        &&& !some_elem_hit(es, p)
                        &&& !old(self).tool_active
                        &&& final(self).elems() == es
                        &&& final(self).store.cur() == old(self).store.cur()
                        &&& final(self).selected is None
                        &&& final(self).hist() == old(self).hist()
                        &&& final(self).crop.region == old(self).crop.region
                        &&& final(self).crop.finalized == old(self).crop.finalized
                        &&& (!old(self).crop.finalized ==> final(self).crop.mode
                            == CropMode::Creating)
                        &&& (old(self).crop.finalized ==> ({
                            let reg = old(self).crop.region->Some_0;
                            match crate::crop::handle_at_spec(reg, p) {
                                Option::Some(h) => final(self).crop.mode == CropMode::Resizing(h),
                                Option::None => if crate::geom::rect_contains_spec(reg, p) {
                                    final(self).crop.mode == CropMode::Moving
                                } else {
                                    final(self).crop.mode == CropMode::Idle
                                },
                            }
                        }))
                    },
                }
            }),
    {
        let p = clamp_point(p_raw);
        if self.text.is_some() {
            let c = self.finish_text_input();
            return Press::TextFinished(c);
        }
        let hit_j = match &self.selected {
            Option::Some(sel) => find_hit_handle(&sel.handles, p),
            Option::None => Option::None,
        };
        match hit_j {
            Option::Some(j) => {
                proof {
                    lemma_live_committed(&self.store);
                    assert(self.elems() =~= snap_view(self.store.committed@));
                }
                self.history.snapshot(&self.store.committed);
                let sel_index = match &self.selected {
                    Option::Some(sel) => sel.index,
                    Option::None => 0,
                };
                let e = &self.store.committed[sel_index];
                self.tool = e.tool();
                let h = match &self.selected {
                    Option::Some(sel) => sel.handles[j],
                    Option::None => Handle {
                        kind: HandleKind::TopLeft,
                        position: Point { x: 0, y: 0 },
                        size: crate::HANDLE_SIZE,
                        owner_index: 0,
                    },
                };
                self.dragging = Option::Some(h);
                self.needs_redraw = true;
                proof {
                    assert(self.hist().redo =~= Seq::<Seq<ElemV>>::empty());
                    assert(self.hist() == crate::history::snapshot_step(old(self).hist()));
                }
                return Press::HandleDragStarted(j);
            },
            Option::None => {},
        }
        let hit_i = self.find_topmost_hit(p);
        match hit_i {
            Option::Some(i) => {
                let is_text = match &self.store.committed[i] {
                    DrawingElement::Text { .. } => true,
                    _ => false,
                };
                if is_text {
                    let dbl = crate::policy::is_double_click(now_ms, p, self.last_click);
                    self.last_click = Option::Some((now_ms, p));
                    if dbl {
                        self.start_edit_text(i);
                        return Press::TextEditStarted(i);
                    }
                }
                self.select_element(i);
                proof {
                    lemma_live_committed(&self.store);
                    assert(self.elems() =~= snap_view(self.store.committed@));
                }
                self.history.snapshot(&self.store.committed);
                match &mut self.selected {
                    Option::Some(sel) => {
                        sel.is_moving = true;
                        sel.move_anchor = p;
                    },
                    Option::None => {},
                }
                self.needs_redraw = true;
                proof {
                    assert(self.hist().redo =~= Seq::<Seq<ElemV>>::empty());
                    assert(self.hist() == crate::history::snapshot_step(old(self).hist()));
                }
                return Press::ElementGrabbed(i);
            },
            Option::None => {},
        }
        if self.tool_active {
            self.deselect();
            let region = self.crop.committed_region();
            let started = self.store.start(self.tool, p, region);
            if started {
                self.state = DrawingState::Drawing;
                if self.tool == Tool::Text {
                    self.text = Option::Some(TextSession::new());
                    proof {
                        match &self.text {
                            Option::Some(ts) => {
                                assert(ts.buffer@ =~= Seq::<char>::empty());
                            },
                            Option::None => {},
                        }
                    }
                }
                self.needs_redraw = true;
                Press::DrawStarted
            } else {
                Press::DrawBlocked
            }
        } else {
            self.deselect();
            self.crop.press(p);
            self.needs_redraw = true;
            Press::CropPressed
        }
    }

    /// Routes a pointer move: a handle drag reshapes the selected
    /// element (retyping rectangle corners from the pointer's
    /// quadrant), a body drag moves it, an in-progress drawing tracks
    /// the pointer, and before a tool is active the crop region
    /// tracks its own drag.  Every mutation invalidates the element's
    /// cache entry and regenerates the live handles.
    pub fn pointer_moved(&mut self, p_raw: Point)
        requires
            old(self).wf(),
        ensures
            final(self).wf(),
            final(self).text == old(self).text,
            final(self).hist().undo == old(self).hist().undo,
            final(self).hist().redo == old(self).hist().redo,
            ({
                let p = clamped(p_raw);
                let es = old(self).elems();
                if old(self).dragging is Some {
                    let h = old(self).dragging->Some_0;
                    let sel = old(self).selected->Some_0;
                    let eff = effective_kind_spec(es[sel.index as int], h.kind, p);
                    let ne = crate::selection::drag_spec(es[sel.index as int], eff, p);
                    &&& final(self).elems() == es.update(sel.index as int, ne)
                    &&& final(self).dragging matches Option::Some(h2) && h2.kind == eff
                        && h2.position == h.position
                    &&& match final(self).selected {
                        Option::Some(s2) => s2.index == sel.index && s2.handles@ == handles_spec(
                            ne,
                            sel.index as int,
                        ) && s2.is_moving == sel.is_moving,
                        Option::None => false,
                    }
                    &&& final(self).store.cur() == old(self).store.cur()
                    &&& final(self).crop == old(self).crop
                } else if old(self).selected is Some && old(self).selected->Some_0.is_moving {
                    let sel = old(self).selected->Some_0;
                    let dx = p.x as int - sel.move_anchor.x as int;
                    let dy = p.y as int - sel.move_anchor.y as int;
                    let ne = crate::element::move_elem_spec(es[sel.index as int], dx, dy);
                    &&& final(self).elems() == es.update(sel.index as int, ne)
                    &&& match final(self).selected {
                        Option::Some(s2) => s2.index == sel.index && s2.handles@ == handles_spec(
                            ne,
                            sel.index as int,
                        ) && s2.is_moving && s2.move_anchor == p,
                        Option::None => false,
                    }
                    &&& final(self).store.cur() == old(self).store.cur()
                    &&& final(self).crop == old(self).crop
                } else if old(self).state == DrawingState::Drawing {
                    let inside = match old(self).crop.active_region() {
                        Option::Some(reg) => crate::geom::rect_contains_spec(reg, p),
                        Option::None => false,
                    };
                    &&& final(self).elems() == es
                    &&& match old(self).store.cur() {
                        Option::Some(cur) => if inside {
                            final(self).store.cur() == Option::Some(updated_elem_spec(cur, p))
                        } else {
                            final(self).store.cur() == old(self).store.cur()
                        },
                        Option::None => final(self).store.cur() == old(self).store.cur(),
                    }
                    &&& final(self).selected == old(self).selected
                    &&& final(self).crop == old(self).crop
                } else if !old(self).tool_active {
                    &&& final(self).elems() == es
                    &&& final(self).store.cur() == old(self).store.cur()
                    &&& final(self).selected == old(self).selected
                    &&& final(self).crop == CropRegionController::update_spec(old(self).crop, p_raw)
                } else {
                    *final(self) == *old(self)
                }
            }),
    {
        let p = clamp_point(p_raw);
        match self.dragging {
            Option::Some(h) => {
                let idx = match &self.selected {
                    Option::Some(sel) => sel.index,
                    Option::None => 0,
                };
                self.cache.invalidate(&self.store.committed[idx]);
                let eff = self.store.drag_committed(idx, h.kind, p);
                self.dragging = Option::Some(
                    Handle {
                        kind: eff,
                        position: h.position,
                        size: h.size,
                        owner_index: h.owner_index,
                    },
                );
                let handles = self.store.handles_for(idx);
                match &mut self.selected {
                    Option::Some(sel) => {
                        sel.handles = handles;
                    },
                    Option::None => {},
                }
                self.needs_redraw = true;
                return ;
            },
            Option::None => {},
        }
        let moving = match &self.selected {
            Option::Some(sel) => sel.is_moving,
            Option::None => false,
        };
        if moving {
            let (idx, anchor) = match &self.selected {
                Option::Some(sel) => (sel.index, sel.move_anchor),
                Option::None => (0, Point { x: 0, y: 0 }),
            };
            let dx = p.x - anchor.x;
            let dy = p.y - anchor.y;
            self.cache.invalidate(&self.store.committed[idx]);
            self.store.move_committed(idx, dx, dy);
            let handles = self.store.handles_for(idx);
            match &mut self.selected {
                Option::Some(sel) => {
                    sel.handles = handles;
                    sel.move_anchor = p;
                },
                Option::None => {},
            }
            self.needs_redraw = true;
            return ;
        }
        if self.state == DrawingState::Drawing {
            match &self.store.current {
                Option::Some(e) => {
                    self.cache.invalidate(e);
                },
                Option::None => {},
            }
            let region = self.crop.committed_region();
            self.store.update_current(p, region);
            self.needs_redraw = true;
            return ;
        }
        if !self.tool_active {
            self.crop.update(p_raw);
            self.needs_redraw = true;
        }
    }

    /// Routes a pointer release: an in-progress drawing (other than
    /// an open text input) is committed or discarded, a handle drag
    /// or element move ends, and otherwise the release goes to the
    /// crop region controller (finalizing a created region).
    pub fn pointer_released(&mut self) -> (r: Release)
        requires
            old(self).wf(),
        ensures
            final(self).wf(),
            final(self).text == old(self).text,
            match r {
                Release::DrawFinished(c) => {
                    &&& old(self).state == DrawingState::Drawing
                    &&& old(self).text is None
                    &&& final(self).store.cur() is None
                    &&& match old(self).store.cur() {
                        Option::None => c is None && final(self).elems() == old(self).elems(),
                        Option::Some(cur) => if crate::element::large_enough_spec(cur) {
                            (c matches Option::Some(ci) && ci as int == old(self).elems().len())
                                && final(self).elems() == old(self).elems().push(
                                commit_form_spec(cur),
                            ) && final(self).hist().undo == crate::history::snapshot_step(
                                old(self).hist(),
                            ).undo && final(self).hist().redo.len() == 0
                        } else {
                            c is None && final(self).elems() == old(self).elems() && final(self).hist() == old(self).hist()
                        },
                    }
                    &&& final(self).crop == old(self).crop
                },
                Release::DragEnded => {
                    &&& !(old(self).state == DrawingState::Drawing && old(self).text is None)
                    &&& old(self).dragging is Some
                    &&& final(self).dragging is None
                    &&& final(self).elems() == old(self).elems()
                    &&& final(self).selected == old(self).selected
                    &&& final(self).store.cur() == old(self).store.cur()
                    &&& final(self).hist() == old(self).hist()
                    &&& final(self).crop == old(self).crop
                },
                Release::MoveEnded => {
                    &&& !(old(self).state == DrawingState::Drawing && old(self).text is None)
                    &&& old(self).dragging is None
                    &&& old(self).selected matches Option::Some(sel) && sel.is_moving
                    &&& match final(self).selected {
                        Option::Some(s2) => !s2.is_moving && s2.index == old(self).selected->Some_0.index && s2.handles == old(self).selected->Some_0.handles,
                        Option::None => false,
                    }
                    &&& final(self).elems() == old(self).elems()
                    &&& final(self).store.cur() == old(self).store.cur()
                    &&& final(self).hist() == old(self).hist()
                    &&& final(self).crop == old(self).crop
                },
                Release::CropReleased(became) => {
                    &&& !(old(self).state == DrawingState::Drawing && old(self).text is None)
                    &&& old(self).dragging is None
                    &&& !(old(self).selected is Some && old(self).selected->Some_0.is_moving)
                    &&& final(self).elems() == old(self).elems()
                    &&& final(self).store.cur() == old(self).store.cur()
                    &&& final(self).hist() == old(self).hist()
                    &&& final(self).selected == old(self).selected
                    &&& became == (old(self).crop.mode == CropMode::Creating && old(self).crop.region is Some)
                    &&& final(self).crop.mode == CropMode::Idle
                    &&& final(self).crop.region == old(self).crop.region
                    &&& (became ==> final(self).crop.finalized)
                    &&& (!became ==> final(self).crop.finalized == old(self).crop.finalized)
                },
            },
    {
        if self.state == DrawingState::Drawing && self.text.is_none() {
            let c = self.finish_drawing();
            return Release::DrawFinished(c);
        }
        if self.dragging.is_some() {
            self.dragging = Option::None;
            self.needs_redraw = true;
            return Release::DragEnded;
        }
        let moving = match &self.selected {
            Option::Some(sel) => sel.is_moving,
            Option::None => false,
        };
        if moving {
            match &mut self.selected {
                Option::Some(sel) => {
                    sel.is_moving = false;
                },
                Option::None => {},
            }
            self.needs_redraw = true;
            return Release::MoveEnded;
        }
        let became = self.crop.release();
        if became {
            self.needs_redraw = true;
        }
        Release::CropReleased(became)
    }
}

/// Every element of a well-formed store's committed vector satisfies
/// the committed invariant (stated over the vector directly, for the
/// history calls).
pub proof fn lemma_live_committed(s: &ElementStore)
    requires
        s.wf(),
    ensures
        forall|i: int| 0 <= i < s.committed@.len() ==> committed_elem(#[trigger] s.committed@[i]@),
{
    assert forall|i: int| 0 <= i < s.committed@.len() implies committed_elem(
        #[trigger] s.committed@[i]@,
    ) by {
        assert(committed_elem(s.elems()[i]));
    }
}

} // verus!
