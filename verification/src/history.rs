//! Undo/redo history: capped stacks of whole-collection snapshots.

use vstd::prelude::*;

use crate::element::committed_elem;
use crate::element::DrawingElement;
use crate::element::ElemV;
use crate::MAX_UNDO_STEPS;

verus! {

/// The view of a snapshot: the committed collection it captured.
pub open spec fn snap_view(s: Seq<DrawingElement>) -> Seq<ElemV> {
    s.map(|i: int, e: DrawingElement| e@)
}

/// The view of a stack of snapshots.
pub open spec fn stack_view(v: Seq<Vec<DrawingElement>>) -> Seq<Seq<ElemV>> {
    v.map(|i: int, s: Vec<DrawingElement>| snap_view(s@))
}

/// The mathematical state history operates on: both stacks and the
/// live committed collection.
pub struct HistV {
    pub undo: Seq<Seq<ElemV>>,
    pub redo: Seq<Seq<ElemV>>,
    pub live: Seq<ElemV>,
}

/// What one undo does: with a non-empty undo stack, the live
/// collection moves onto the redo stack and the top undo snapshot
/// becomes live; otherwise nothing changes.
pub open spec fn undo_step(h: HistV) -> HistV {
    if h.undo.len() == 0 {
        h
    } else {
        HistV { undo: h.undo.drop_last(), redo: h.redo.push(h.live), live: h.undo.last() }
    }
}

/// What taking a snapshot does: the live collection is pushed onto
/// the undo stack (dropping the oldest entry at the cap) and the
/// redo stack empties.
pub open spec fn snapshot_step(h: HistV) -> HistV {
    HistV {
        undo: (if h.undo.len() < crate::MAX_UNDO_STEPS as int {
            h.undo
        } else {
            h.undo.drop_first()
        }).push(h.live),
        redo: Seq::empty(),
        live: h.live,
    }
}

/// History cap: taking a snapshot never grows the undo stack past
/// the configured depth.
pub proof fn lemma_snapshot_cap(h: HistV)
    requires
        h.undo.len() <= crate::MAX_UNDO_STEPS as int,
    ensures
        snapshot_step(h).undo.len() <= crate::MAX_UNDO_STEPS as int,
{
}

/// What one redo does, symmetrically.
pub open spec fn redo_step(h: HistV) -> HistV {
    if h.redo.len() == 0 {
        h
    } else {
        HistV { undo: h.undo.push(h.live), redo: h.redo.drop_last(), live: h.redo.last() }
    }
}

/// Undo then redo restores the whole history state: the live
/// collection, the undo stack and the redo stack all return to what
/// they were before the undo.
pub proof fn lemma_undo_redo_round_trip(h: HistV)
    requires
        h.undo.len() > 0,
    ensures
        redo_step(undo_step(h)).live == h.live,
        redo_step(undo_step(h)).undo =~~= h.undo,
        redo_step(undo_step(h)).redo =~~= h.redo,
{
    let u = undo_step(h);
    assert(u.redo.len() > 0);
    assert(redo_step(u).undo =~~= h.undo);
    assert(redo_step(u).redo =~~= h.redo);
}

/// Redo then undo restores the whole history state as well.
pub proof fn lemma_redo_undo_round_trip(h: HistV)
    requires
        h.redo.len() > 0,
    ensures
        undo_step(redo_step(h)).live == h.live,
        undo_step(redo_step(h)).undo =~~= h.undo,
        undo_step(redo_step(h)).redo =~~= h.redo,
{
    let r = redo_step(h);
    assert(r.undo.len() > 0);
    assert(undo_step(r).undo =~~= h.undo);
    assert(undo_step(r).redo =~~= h.redo);
}

/// Copies a committed collection, element by element.
pub fn clone_elements(v: &Vec<DrawingElement>) -> (r: Vec<DrawingElement>)
    ensures
        snap_view(r@) == snap_view(v@),
        r@.len() == v@.len(),
        forall|i: int| 0 <= i < r@.len() ==> #[trigger] r@[i]@ == v@[i]@,
{
    let mut r: Vec<DrawingElement> = Vec::new();
    let mut i: usize = 0;
    while i < v.len()
        invariant
            0 <= i <= v@.len(),
            r@.len() == i,
            forall|j: int| 0 <= j < i ==> #[trigger] r@[j]@ == v@[j]@,
        decreases v@.len() - i,
    {
        let e = &v[i];
        r.push(e.duplicate());
        i = i + 1;
    }
    proof {
        assert(snap_view(r@) =~= snap_view(v@));
    }
    r
}

/// Owns the undo and redo stacks of full snapshots of the committed
/// element collection.
pub struct HistoryManager {
    pub undo_stack: Vec<Vec<DrawingElement>>,
    pub redo_stack: Vec<Vec<DrawingElement>>,
}

impl HistoryManager {
    /// The history state seen together with the live collection `live`.
    pub open spec fn hist(&self, live: Seq<ElemV>) -> HistV {
        HistV {
            undo: stack_view(self.undo_stack@),
            redo: stack_view(self.redo_stack@),
            live,
        }
    }

    /// Every snapshot on either stack holds committed elements only.
    pub open spec fn wf(&self) -> bool {
        &&& forall|i: int, j: int|
            0 <= i < self.undo_stack@.len() && 0 <= j < self.undo_stack@[i]@.len()
                ==> committed_elem(#[trigger] self.undo_stack@[i]@[j]@)
        &&& forall|i: int, j: int|
            0 <= i < self.redo_stack@.len() && 0 <= j < self.redo_stack@[i]@.len()
                ==> committed_elem(#[trigger] self.redo_stack@[i]@[j]@)
        &&& self.undo_stack@.len() + self.redo_stack@.len() <= MAX_UNDO_STEPS as int
    }

    /// Empty history.
    pub fn new() -> (r: HistoryManager)
        ensures
            r.wf(),
            r.undo_stack@.len() == 0,
            r.redo_stack@.len() == 0,
    {
        HistoryManager { undo_stack: Vec::new(), redo_stack: Vec::new() }
    }

    /// Whether an undo would change anything.
    pub fn can_undo(&self) -> (r: bool)
        ensures
            r == (self.undo_stack@.len() > 0),
    {
        self.undo_stack.len() > 0
    }

    /// Whether a redo would change anything.
    pub fn can_redo(&self) -> (r: bool)
        ensures
            r == (self.redo_stack@.len() > 0),
    {
        self.redo_stack.len() > 0
    }

    /// Takes a snapshot of `live` before a mutation: pushes a full
    /// clone onto the undo stack (dropping the oldest entry when the
    /// stack is at its cap) and clears the redo stack.  The stack
    /// never grows beyond the cap.
    pub fn snapshot(&mut self, live: &Vec<DrawingElement>)
        requires
            old(self).wf(),
            forall|i: int| 0 <= i < live@.len() ==> committed_elem(#[trigger] live@[i]@),
        ensures
            final(self).wf(),
            final(self).redo_stack@.len() == 0,
            stack_view(final(self).undo_stack@) == (if old(self).undo_stack@.len() < MAX_UNDO_STEPS as int {
                stack_view(old(self).undo_stack@)
            } else {
                stack_view(old(self).undo_stack@).drop_first()
            }).push(snap_view(live@)),
            final(self).undo_stack@.len() <= MAX_UNDO_STEPS as int,
    {
        if self.undo_stack.len() >= MAX_UNDO_STEPS {
            self.undo_stack.remove(0);
            proof {
                assert(stack_view(self.undo_stack@) =~= stack_view(old(self).undo_stack@)
                    .drop_first());
            }
        }
        let ghost mid = stack_view(self.undo_stack@);
        self.undo_stack.push(clone_elements(live));
        self.redo_stack.clear();
        proof {
            assert(stack_view(self.undo_stack@) =~= mid.push(snap_view(live@)));
        }
    }

    /// Performs an undo on the live collection: a no-op on an empty
    /// undo stack, otherwise the current collection moves to the redo
    /// stack and the popped snapshot becomes live.  The whole effect
    /// is `undo_step` on the history state.
    pub fn undo(&mut self, live: &mut Vec<DrawingElement>) -> (did: bool)
        requires
            old(self).wf(),
            forall|i: int| 0 <= i < old(live)@.len() ==> committed_elem(#[trigger] old(live)@[i]@),
        ensures
            final(self).wf(),
            forall|i: int| 0 <= i < final(live)@.len() ==> committed_elem(#[trigger] final(live)@[i]@),
            did == (old(self).undo_stack@.len() > 0),
            final(self).hist(snap_view(final(live)@)) == undo_step(old(self).hist(snap_view(old(live)@))),
    {
        let popped = self.undo_stack.pop();
        match popped {
            Option::None => {
                proof {
                    assert(self.hist(snap_view(live@)) == old(self).hist(snap_view(live@)));
                }
                false
            },
            Option::Some(prev) => {
                let snap = clone_elements(live);
                self.redo_stack.push(snap);
                *live = prev;
                proof {
                    let oldh = old(self).hist(snap_view(old(live)@));
                    assert(stack_view(self.undo_stack@) =~= oldh.undo.drop_last());
                    assert(stack_view(self.redo_stack@) =~= oldh.redo.push(oldh.live));
                    assert(snap_view(live@) == oldh.undo.last());
                }
                true
            },
        }
    }

    /// Performs a redo, symmetrically: the whole effect is
    /// `redo_step` on the history state.
    pub fn redo(&mut self, live: &mut Vec<DrawingElement>) -> (did: bool)
        requires
            old(self).wf(),
            forall|i: int| 0 <= i < old(live)@.len() ==> committed_elem(#[trigger] old(live)@[i]@),
        ensures
            final(self).wf(),
            forall|i: int| 0 <= i < final(live)@.len() ==> committed_elem(#[trigger] final(live)@[i]@),
            did == (old(self).redo_stack@.len() > 0),
            final(self).hist(snap_view(final(live)@)) == redo_step(old(self).hist(snap_view(old(live)@))),
    {
        let popped = self.redo_stack.pop();
        match popped {
            Option::None => {
                proof {
                    assert(self.hist(snap_view(live@)) == old(self).hist(snap_view(live@)));
                }
                false
            },
            Option::Some(next) => {
                let snap = clone_elements(live);
                self.undo_stack.push(snap);
                *live = next;
                proof {
                    let oldh = old(self).hist(snap_view(old(live)@));
                    assert(stack_view(self.redo_stack@) =~= oldh.redo.drop_last());
                    assert(stack_view(self.undo_stack@) =~= oldh.undo.push(oldh.live));
                    assert(snap_view(live@) == oldh.redo.last());
                }
                true
            },
        }
    }
}

} // verus!
