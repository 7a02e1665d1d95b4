//! The crop region controller: the single capture rectangle with its
//! own eight handles, created by a first drag, then movable and
//! resizable, always clamped to the viewport and never below the
//! minimum box size.

use vstd::prelude::*;

use crate::geom::clamp_i64;
use crate::geom::clamp_spec;
use crate::geom::max_i64;
use crate::geom::max_spec;
use crate::geom::min_i64;
use crate::geom::min_spec;
use crate::geom::point_ok;
use crate::geom::rect_contains_spec;
use crate::geom::Point;
use crate::geom::Rect;
use crate::COORD_LIMIT;
use crate::HANDLE_SIZE;
use crate::MIN_BOX_SIZE;

verus! {

/// The eight crop-region handles, in the order they are probed.
#[derive(Clone, Copy, PartialEq, Eq, Structural, Debug)]
pub enum CropHandle {
    TopLeft,
    TopCenter,
    TopRight,
    MiddleRight,
    BottomRight,
    BottomCenter,
    BottomLeft,
    MiddleLeft,
}

/// The drag mode of the crop controller.
#[derive(Clone, Copy, PartialEq, Eq, Structural, Debug)]
pub enum CropMode {
    Idle,
    Creating,
    Moving,
    Resizing(CropHandle),
}

/// Whether the handle owns the low x edge.
pub open spec fn owns_lo_x(h: CropHandle) -> bool {
    h == CropHandle::TopLeft || h == CropHandle::MiddleLeft || h == CropHandle::BottomLeft
}

pub open spec fn owns_hi_x(h: CropHandle) -> bool {
    h == CropHandle::TopRight || h == CropHandle::MiddleRight || h == CropHandle::BottomRight
}

pub open spec fn owns_lo_y(h: CropHandle) -> bool {
    h == CropHandle::TopLeft || h == CropHandle::TopCenter || h == CropHandle::TopRight
}

pub open spec fn owns_hi_y(h: CropHandle) -> bool {
    h == CropHandle::BottomLeft || h == CropHandle::BottomCenter || h == CropHandle::BottomRight
}

/// A region that fits the viewport and meets the minimum size.
pub open spec fn region_ok(r: Rect, vw: int, vh: int) -> bool {
    &&& 0 <= r.min.x as int
    &&& 0 <= r.min.y as int
    &&& r.max.x as int <= vw
    &&& r.max.y as int <= vh
    &&& r.min.x as int + MIN_BOX_SIZE as int <= r.max.x as int
    &&& r.min.y as int + MIN_BOX_SIZE as int <= r.max.y as int
}

/// Whether doubled coordinate `px2` lies within half a handle size of
/// doubled center `cx2` (doubling keeps edge-midpoint centers exact).
pub open spec fn near_doubled(px2: int, cx2: int) -> bool {
    cx2 - HANDLE_SIZE as int <= px2 <= cx2 + HANDLE_SIZE as int
}

/// Whether `p` grabs the handle `h` of region `r`: a square test
/// against the handle's center, done on doubled coordinates.
pub open spec fn on_handle_spec(r: Rect, p: Point, h: CropHandle) -> bool {
    let lo_x2 = 2 * r.min.x as int;
    let hi_x2 = 2 * r.max.x as int;
    let cx2 = r.min.x as int + r.max.x as int;
    let lo_y2 = 2 * r.min.y as int;
    let hi_y2 = 2 * r.max.y as int;
    let cy2 = r.min.y as int + r.max.y as int;
    let px2 = 2 * p.x as int;
    let py2 = 2 * p.y as int;
    match h {
        CropHandle::TopLeft => near_doubled(px2, lo_x2) && near_doubled(py2, lo_y2),
        CropHandle::TopCenter => near_doubled(px2, cx2) && near_doubled(py2, lo_y2),
        CropHandle::TopRight => near_doubled(px2, hi_x2) && near_doubled(py2, lo_y2),
        CropHandle::MiddleRight => near_doubled(px2, hi_x2) && near_doubled(py2, cy2),
        CropHandle::BottomRight => near_doubled(px2, hi_x2) && near_doubled(py2, hi_y2),
        CropHandle::BottomCenter => near_doubled(px2, cx2) && near_doubled(py2, hi_y2),
        CropHandle::BottomLeft => near_doubled(px2, lo_x2) && near_doubled(py2, hi_y2),
        CropHandle::MiddleLeft => near_doubled(px2, lo_x2) && near_doubled(py2, cy2),
    }
}

/// The first handle of the region that `p` grabs, probed in the fixed
/// order.
pub open spec fn handle_at_spec(r: Rect, p: Point) -> Option<CropHandle> {
    if on_handle_spec(r, p, CropHandle::TopLeft) {
        Option::Some(CropHandle::TopLeft)
    } else if on_handle_spec(r, p, CropHandle::TopCenter) {
        Option::Some(CropHandle::TopCenter)
    } else if on_handle_spec(r, p, CropHandle::TopRight) {
        Option::Some(CropHandle::TopRight)
    } else if on_handle_spec(r, p, CropHandle::MiddleRight) {
        Option::Some(CropHandle::MiddleRight)
    } else if on_handle_spec(r, p, CropHandle::BottomRight) {
        Option::Some(CropHandle::BottomRight)
    } else if on_handle_spec(r, p, CropHandle::BottomCenter) {
        Option::Some(CropHandle::BottomCenter)
    } else if on_handle_spec(r, p, CropHandle::BottomLeft) {
        Option::Some(CropHandle::BottomLeft)
    } else if on_handle_spec(r, p, CropHandle::MiddleLeft) {
        Option::Some(CropHandle::MiddleLeft)
    } else {
        Option::None
    }
}

/// Whether `p` lies in the region's body: inside it but on none of
/// its handles.
pub open spec fn in_body_spec(r: Rect, p: Point) -> bool {
    rect_contains_spec(r, p) && handle_at_spec(r, p) is None
}

/// Executable probe for a single handle.
fn on_handle(r: &Rect, p: Point, h: CropHandle) -> (res: bool)
    requires
        point_ok(r.min),
        point_ok(r.max),
        point_ok(p),
    ensures
        res == on_handle_spec(*r, p, h),
{
    let lo_x2: i64 = 2 * r.min.x;
    let hi_x2: i64 = 2 * r.max.x;
    let cx2: i64 = r.min.x + r.max.x;
    let lo_y2: i64 = 2 * r.min.y;
    let hi_y2: i64 = 2 * r.max.y;
    let cy2: i64 = r.min.y + r.max.y;
    let px2: i64 = 2 * p.x;
    let py2: i64 = 2 * p.y;
    let (cx, cy): (i64, i64) = match h {
        CropHandle::TopLeft => (lo_x2, lo_y2),
        CropHandle::TopCenter => (cx2, lo_y2),
        CropHandle::TopRight => (hi_x2, lo_y2),
        CropHandle::MiddleRight => (hi_x2, cy2),
        CropHandle::BottomRight => (hi_x2, hi_y2),
        CropHandle::BottomCenter => (cx2, hi_y2),
        CropHandle::BottomLeft => (lo_x2, hi_y2),
        CropHandle::MiddleLeft => (lo_x2, cy2),
    };
    cx - HANDLE_SIZE <= px2 && px2 <= cx + HANDLE_SIZE && cy - HANDLE_SIZE <= py2 && py2 <= cy
        + HANDLE_SIZE
}

/// Finds the handle of the region that `p` grabs, if any.
pub fn handle_at(r: &Rect, p: Point) -> (res: Option<CropHandle>)
    requires
        point_ok(r.min),
        point_ok(r.max),
        point_ok(p),
    ensures
        res == handle_at_spec(*r, p),
{
    if on_handle(r, p, CropHandle::TopLeft) {
        Option::Some(CropHandle::TopLeft)
    } else if on_handle(r, p, CropHandle::TopCenter) {
        Option::Some(CropHandle::TopCenter)
    } else if on_handle(r, p, CropHandle::TopRight) {
        Option::Some(CropHandle::TopRight)
    } else if on_handle(r, p, CropHandle::MiddleRight) {
        Option::Some(CropHandle::MiddleRight)
    } else if on_handle(r, p, CropHandle::BottomRight) {
        Option::Some(CropHandle::BottomRight)
    } else if on_handle(r, p, CropHandle::BottomCenter) {
        Option::Some(CropHandle::BottomCenter)
    } else if on_handle(r, p, CropHandle::BottomLeft) {
        Option::Some(CropHandle::BottomLeft)
    } else if on_handle(r, p, CropHandle::MiddleLeft) {
        Option::Some(CropHandle::MiddleLeft)
    } else {
        Option::None
    }
}

/// One axis of a slide-move: the interval keeps its size; an edge
/// pushed past the viewport pins the interval to that boundary.
pub open spec fn slide_axis_spec(lo: int, hi: int, d: int, limit: int) -> (int, int) {
    let size = hi - lo;
    let nlo = lo + d;
    let nhi = hi + d;
    if min_spec(nhi, limit) == limit {
        (limit - size, limit)
    } else if max_spec(nlo, 0) == 0 {
        (0, size)
    } else {
        (nlo, nhi)
    }
}

/// One axis of a resize: the dragged edge takes the pointer
/// coordinate, edges swap when the drag crosses over, and the edge on
/// the handle's side is pushed outward (sliding at the viewport
/// boundary) to keep the minimum size.
pub open spec fn resize_axis_spec(
    lo0: int,
    hi0: int,
    qv: int,
    limit: int,
    has_lo: bool,
    has_hi: bool,
) -> (int, int) {
    let a = if has_lo {
        qv
    } else {
        lo0
    };
    let b = if has_hi {
        qv
    } else {
        hi0
    };
    let lo1 = min_spec(a, b);
    let hi1 = max_spec(a, b);
    if hi1 - lo1 >= MIN_BOX_SIZE as int {
        (lo1, hi1)
    } else if has_lo {
        if (hi1 - MIN_BOX_SIZE as int) < 0 {
            (0, MIN_BOX_SIZE as int)
        } else {
            ((hi1 - MIN_BOX_SIZE as int), hi1)
        }
    } else if has_hi {
        if (lo1 + MIN_BOX_SIZE as int) > limit {
            ((limit - MIN_BOX_SIZE as int), limit)
        } else {
            (lo1, (lo1 + MIN_BOX_SIZE as int))
        }
    } else {
        (lo0, hi0)
    }
}

/// Executable slide-move of one axis.
fn slide_axis(lo: i64, hi: i64, d: i64, limit: i64) -> (r: (i64, i64))
    requires
        0 <= lo as int,
        lo as int + MIN_BOX_SIZE as int <= hi as int,
        hi as int <= limit as int,
        limit as int <= COORD_LIMIT as int,
        -2 * COORD_LIMIT <= d as int <= 2 * COORD_LIMIT,
    ensures
        (r.0 as int, r.1 as int) == slide_axis_spec(lo as int, hi as int, d as int, limit as int),
        0 <= r.0 as int,
        r.0 as int + MIN_BOX_SIZE as int <= r.1 as int,
        r.1 as int <= limit as int,
        r.1 as int - r.0 as int == hi as int - lo as int,
{
    let size = hi - lo;
    let nlo = lo + d;
    let nhi = hi + d;
    if min_i64(nhi, limit) == limit {
        (limit - size, limit)
    } else if max_i64(nlo, 0) == 0 {
        (0, size)
    } else {
        (nlo, nhi)
    }
}

/// Executable resize of one axis.
fn resize_axis(lo0: i64, hi0: i64, qv: i64, limit: i64, has_lo: bool, has_hi: bool) -> (r: (
    i64,
    i64,
))
    requires
        0 <= lo0 as int,
        lo0 as int + MIN_BOX_SIZE as int <= hi0 as int,
        hi0 as int <= limit as int,
        MIN_BOX_SIZE as int <= limit as int <= COORD_LIMIT as int,
        0 <= qv as int <= limit as int,
    ensures
        (r.0 as int, r.1 as int) == resize_axis_spec(
            lo0 as int,
            hi0 as int,
            qv as int,
            limit as int,
            has_lo,
            has_hi,
        ),
        0 <= r.0 as int,
        r.0 as int + MIN_BOX_SIZE as int <= r.1 as int,
        r.1 as int <= limit as int,
{
    let a = if has_lo {
        qv
    } else {
        lo0
    };
    let b = if has_hi {
        qv
    } else {
        hi0
    };
    let lo1 = min_i64(a, b);
    let hi1 = max_i64(a, b);
    if hi1 - lo1 >= MIN_BOX_SIZE {
        (lo1, hi1)
    } else if has_lo {
        if hi1 - MIN_BOX_SIZE < 0 {
            (0, MIN_BOX_SIZE)
        } else {
            (hi1 - MIN_BOX_SIZE, hi1)
        }
    } else if has_hi {
        if lo1 + MIN_BOX_SIZE > limit {
            (limit - MIN_BOX_SIZE, limit)
        } else {
            (lo1, lo1 + MIN_BOX_SIZE)
        }
    } else {
        (lo0, hi0)
    }
}

/// Manages the single capture rectangle: creation by a first drag,
/// then whole-region moves and handle-driven resizes, with an
/// explicit reset.
pub struct CropRegionController {
    pub region: Option<Rect>,
    pub finalized: bool,
    pub mode: CropMode,
    pub anchor: Point,
    pub view_w: i64,
    pub view_h: i64,
}

impl CropRegionController {
    /// The controller's invariant: a sane viewport, a valid region
    /// when one is set, and drag modes consistent with the lifecycle
    /// (moves and resizes only on a finalized region, creation only
    /// before).
    pub open spec fn wf(&self) -> bool {
        &&& MIN_BOX_SIZE as int <= self.view_w as int <= COORD_LIMIT as int
        &&& MIN_BOX_SIZE as int <= self.view_h as int <= COORD_LIMIT as int
        &&& match self.region {
            Option::Some(r) => region_ok(r, self.view_w as int, self.view_h as int),
            Option::None => true,
        }
        &&& (self.finalized ==> self.region is Some)
        &&& ((self.mode == CropMode::Moving || self.mode matches CropMode::Resizing(_))
            ==> self.finalized)
        &&& (self.mode == CropMode::Creating ==> !self.finalized)
        &&& point_ok(self.anchor)
        &&& 0 <= self.anchor.x as int <= self.view_w as int
        &&& 0 <= self.anchor.y as int <= self.view_h as int
    }

    /// A fresh controller over the given viewport: no region, idle.
    pub fn new(view_w: i64, view_h: i64) -> (r: CropRegionController)
        requires
            MIN_BOX_SIZE as int <= view_w as int <= COORD_LIMIT as int,
            MIN_BOX_SIZE as int <= view_h as int <= COORD_LIMIT as int,
        ensures
            r.wf(),
            r.region is None,
            !r.finalized,
            r.mode == CropMode::Idle,
            r.view_w == view_w,
            r.view_h == view_h,
    {
        CropRegionController {
            region: Option::None,
            finalized: false,
            mode: CropMode::Idle,
            anchor: Point { x: 0, y: 0 },
            view_w,
            view_h,
        }
    }

    /// The pointer clamped to the viewport.
    pub fn clamp_to_view(&self, p: Point) -> (q: Point)
        requires
            self.wf(),
        ensures
            q.x as int == clamp_spec(p.x as int, 0, self.view_w as int),
            q.y as int == clamp_spec(p.y as int, 0, self.view_h as int),
            0 <= q.x as int <= self.view_w as int,
            0 <= q.y as int <= self.view_h as int,
            point_ok(q),
    {
        Point {
            x: clamp_i64(p.x, 0, self.view_w),
            y: clamp_i64(p.y, 0, self.view_h),
        }
    }

    /// The committed region: the one drawing is allowed in.  None
    /// until the region is finalized.
    pub open spec fn active_region(&self) -> Option<Rect> {
        if self.finalized {
            self.region
        } else {
            Option::None
        }
    }

    /// Executable accessor for the committed region.
    pub fn committed_region(&self) -> (r: Option<Rect>)
        ensures
            r == self.active_region(),
    {
        if self.finalized {
            self.region
        } else {
            Option::None
        }
    }

    /// Starts region creation at `p` (clamped to the viewport); a
    /// no-op once the region is finalized.
    pub fn begin(&mut self, p: Point)
        requires
            old(self).wf(),
        ensures
            final(self).wf(),
            final(self).region == old(self).region,
            final(self).finalized == old(self).finalized,
            final(self).view_w == old(self).view_w,
            final(self).view_h == old(self).view_h,
            old(self).finalized ==> *final(self) == *old(self),
            !old(self).finalized ==> final(self).mode == CropMode::Creating
                && final(self).anchor.x as int == clamp_spec(p.x as int, 0, old(self).view_w as int)
                && final(self).anchor.y as int == clamp_spec(p.y as int, 0, old(self).view_h as int),
    {
        if self.finalized {
            return ;
        }
        let q = self.clamp_to_view(p);
        self.mode = CropMode::Creating;
        self.anchor = q;
    }

    /// On a press over a finalized region: enters resize mode when a
    /// handle is grabbed, move mode when the body is grabbed, and
    /// stays idle otherwise.  Before finalization it begins creation.
    pub fn press(&mut self, p: Point)
        requires
            old(self).wf(),
            point_ok(p),
        ensures
            final(self).wf(),
            final(self).region == old(self).region,
            final(self).finalized == old(self).finalized,
            final(self).view_w == old(self).view_w,
            final(self).view_h == old(self).view_h,
            !old(self).finalized ==> final(self).mode == CropMode::Creating,
            old(self).finalized ==> ({
                let r = old(self).region->Some_0;
                match handle_at_spec(r, p) {
                    Option::Some(h) => final(self).mode == CropMode::Resizing(h),
                    Option::None => if rect_contains_spec(r, p) {
                        final(self).mode == CropMode::Moving
                    } else {
                        final(self).mode == CropMode::Idle
                    },
                }
            }),
    {
        if !self.finalized {
            self.begin(p);
            return ;
        }
        let q = self.clamp_to_view(p);
        let r = match self.region {
            Option::Some(r) => r,
            Option::None => {
                return ;
            },
        };
        match handle_at(&r, p) {
            Option::Some(h) => {
                self.mode = CropMode::Resizing(h);
                self.anchor = q;
            },
            Option::None => {
                if r.contains(p) {
                    self.mode = CropMode::Moving;
                    self.anchor = q;
                } else {
                    self.mode = CropMode::Idle;
                }
            },
        }
    }

    /// Translates the finalized region by `(dx, dy)`, sliding along
    /// the viewport boundary instead of shrinking; a no-op without a
    /// finalized region.
    pub fn move_by(&mut self, dx: i64, dy: i64)
        requires
            old(self).wf(),
            -2 * COORD_LIMIT <= dx as int <= 2 * COORD_LIMIT,
            -2 * COORD_LIMIT <= dy as int <= 2 * COORD_LIMIT,
        ensures
            final(self).wf(),
            final(self).finalized == old(self).finalized,
            final(self).mode == old(self).mode,
            final(self).anchor == old(self).anchor,
            final(self).view_w == old(self).view_w,
            final(self).view_h == old(self).view_h,
            !old(self).finalized ==> *final(self) == *old(self),
            old(self).finalized ==> ({
                let r = old(self).region->Some_0;
                let nx = slide_axis_spec(r.min.x as int, r.max.x as int, dx as int, old(self).view_w as int);
                let ny = slide_axis_spec(r.min.y as int, r.max.y as int, dy as int, old(self).view_h as int);
                final(self).region == Option::Some(
                    Rect {
                        min: Point { x: nx.0 as i64, y: ny.0 as i64 },
                        max: Point { x: nx.1 as i64, y: ny.1 as i64 },
                    },
                )
            }),
    {
        if !self.finalized {
            return ;
        }
        let r = match self.region {
            Option::Some(r) => r,
            Option::None => {
                return ;
            },
        };
        let nx = slide_axis(r.min.x, r.max.x, dx, self.view_w);
        let ny = slide_axis(r.min.y, r.max.y, dy, self.view_h);
        self.region = Option::Some(
            Rect {
                min: Point { x: nx.0, y: ny.0 },
                max: Point { x: nx.1, y: ny.1 },
            },
        );
    }

    /// Resizes the finalized region by handle `h` towards pointer
    /// `p` (clamped to the viewport): the handle's edges take the
    /// pointer, edges swap when the drag crosses over, and the
    /// minimum size is restored by pushing the handle's edge.
    pub fn resize(&mut self, h: CropHandle, p: Point)
        requires
            old(self).wf(),
        ensures
            final(self).wf(),
            final(self).finalized == old(self).finalized,
            final(self).mode == old(self).mode,
            final(self).anchor == old(self).anchor,
            final(self).view_w == old(self).view_w,
            final(self).view_h == old(self).view_h,
            !old(self).finalized ==> *final(self) == *old(self),
            old(self).finalized ==> ({
                let r = old(self).region->Some_0;
                let qx = clamp_spec(p.x as int, 0, old(self).view_w as int);
                let qy = clamp_spec(p.y as int, 0, old(self).view_h as int);
                let nx = resize_axis_spec(
                    r.min.x as int,
                    r.max.x as int,
                    qx,
                    old(self).view_w as int,
                    owns_lo_x(h),
                    owns_hi_x(h),
                );
                let ny = resize_axis_spec(
                    r.min.y as int,
                    r.max.y as int,
                    qy,
                    old(self).view_h as int,
                    owns_lo_y(h),
                    owns_hi_y(h),
                );
                final(self).region == Option::Some(
                    Rect {
                        min: Point { x: nx.0 as i64, y: ny.0 as i64 },
                        max: Point { x: nx.1 as i64, y: ny.1 as i64 },
                    },
                )
            }),
    {
        if !self.finalized {
            return ;
        }
        let r = match self.region {
            Option::Some(r) => r,
            Option::None => {
                return ;
            },
        };
        let q = self.clamp_to_view(p);
        let has_lo_x = match h {
            CropHandle::TopLeft | CropHandle::MiddleLeft | CropHandle::BottomLeft => true,
            _ => false,
        };
        let has_hi_x = match h {
            CropHandle::TopRight | CropHandle::MiddleRight | CropHandle::BottomRight => true,
            _ => false,
        };
        let has_lo_y = match h {
            CropHandle::TopLeft | CropHandle::TopCenter | CropHandle::TopRight => true,
            _ => false,
        };
        let has_hi_y = match h {
            CropHandle::BottomLeft | CropHandle::BottomCenter | CropHandle::BottomRight => true,
            _ => false,
        };
        let nx = resize_axis(r.min.x, r.max.x, q.x, self.view_w, has_lo_x, has_hi_x);
        let ny = resize_axis(r.min.y, r.max.y, q.y, self.view_h, has_lo_y, has_hi_y);
        self.region = Option::Some(
            Rect {
                min: Point { x: nx.0, y: ny.0 },
                max: Point { x: nx.1, y: ny.1 },
            },
        );
    }

    /// The whole effect of tracking the pointer during a drag, as a
    /// function: while creating, the candidate region is recomputed
    /// from the anchor (kept only when both axes meet the minimum);
    /// while moving, the region slides by the pointer delta and the
    /// anchor follows; while resizing, the grabbed handle's edges
    /// follow the pointer.
    pub open spec fn update_spec(c: CropRegionController, p: Point) -> CropRegionController {
        let qx = clamp_spec(p.x as int, 0, c.view_w as int);
        let qy = clamp_spec(p.y as int, 0, c.view_h as int);
        let q = Point { x: qx as i64, y: qy as i64 };
        match c.mode {
            CropMode::Idle => c,
            CropMode::Creating => {
                let lo_x = min_spec(c.anchor.x as int, qx);
                let hi_x = max_spec(c.anchor.x as int, qx);
                let lo_y = min_spec(c.anchor.y as int, qy);
                let hi_y = max_spec(c.anchor.y as int, qy);
                if hi_x - lo_x >= MIN_BOX_SIZE as int && hi_y - lo_y >= MIN_BOX_SIZE as int {
                    CropRegionController {
                        region: Option::Some(
                            Rect {
                                min: Point { x: lo_x as i64, y: lo_y as i64 },
                                max: Point { x: hi_x as i64, y: hi_y as i64 },
                            },
                        ),
                        ..c
                    }
                } else {
                    c
                }
            },
            CropMode::Moving => {
                let moved = if c.finalized && c.region is Some {
                    let r = c.region->Some_0;
                    let nx = slide_axis_spec(
                        r.min.x as int,
                        r.max.x as int,
                        qx - c.anchor.x as int,
                        c.view_w as int,
                    );
                    let ny = slide_axis_spec(
                        r.min.y as int,
                        r.max.y as int,
                        qy - c.anchor.y as int,
                        c.view_h as int,
                    );
                    Option::Some(
                        Rect {
                            min: Point { x: nx.0 as i64, y: ny.0 as i64 },
                            max: Point { x: nx.1 as i64, y: ny.1 as i64 },
                        },
                    )
                } else {
                    c.region
                };
                CropRegionController { region: moved, anchor: q, ..c }
            },
            CropMode::Resizing(h) => {
                if c.finalized && c.region is Some {
                    let r = c.region->Some_0;
                    let nx = resize_axis_spec(
                        r.min.x as int,
                        r.max.x as int,
                        qx,
                        c.view_w as int,
                        owns_lo_x(h),
                        owns_hi_x(h),
                    );
                    let ny = resize_axis_spec(
                        r.min.y as int,
                        r.max.y as int,
                        qy,
                        c.view_h as int,
                        owns_lo_y(h),
                        owns_hi_y(h),
                    );
                    CropRegionController {
                        region: Option::Some(
                            Rect {
                                min: Point { x: nx.0 as i64, y: ny.0 as i64 },
                                max: Point { x: nx.1 as i64, y: ny.1 as i64 },
                            },
                        ),
                        ..c
                    }
                } else {
                    c
                }
            },
        }
    }

    /// Tracks the pointer during a drag: while creating it recomputes
    /// the candidate region from the anchor (kept only when both axes
    /// meet the minimum), while moving it translates by the pointer
    /// delta and re-anchors, while resizing it applies the handle.
    pub fn update(&mut self, p: Point)
        requires
            old(self).wf(),
        ensures
            final(self).wf(),
            *final(self) == CropRegionController::update_spec(*old(self), p),
    {
        match self.mode {
            CropMode::Idle => {},
            CropMode::Creating => {
                let q = self.clamp_to_view(p);
                let lo_x = min_i64(self.anchor.x, q.x);
                let hi_x = max_i64(self.anchor.x, q.x);
                let lo_y = min_i64(self.anchor.y, q.y);
                let hi_y = max_i64(self.anchor.y, q.y);
                if hi_x - lo_x >= MIN_BOX_SIZE && hi_y - lo_y >= MIN_BOX_SIZE {
                    self.region = Option::Some(
                        Rect {
                            min: Point { x: lo_x, y: lo_y },
                            max: Point { x: hi_x, y: hi_y },
                        },
                    );
                }
            },
            CropMode::Moving => {
                let q = self.clamp_to_view(p);
                let dx = q.x - self.anchor.x;
                let dy = q.y - self.anchor.y;
                self.move_by(dx, dy);
                self.anchor = q;
            },
            CropMode::Resizing(h) => {
                self.resize(h, p);
            },
        }
    }

    /// Ends the current drag.  While creating, the region is
    /// finalized when a candidate of at least the minimum size was
    /// formed and discarded otherwise; other drags simply stop.
    /// Returns whether the region became finalized by this call.
    pub fn release(&mut self) -> (became: bool)
        requires
            old(self).wf(),
        ensures
            final(self).wf(),
            final(self).mode == CropMode::Idle,
            final(self).view_w == old(self).view_w,
            final(self).view_h == old(self).view_h,
            became == (old(self).mode == CropMode::Creating && old(self).region is Some),
            became ==> final(self).finalized && final(self).region == old(self).region,
            !became ==> final(self).finalized == old(self).finalized && final(self).region == old(
                self,
            ).region,
    {
        let became = match self.mode {
            CropMode::Creating => {
                match self.region {
                    Option::Some(_) => {
                        self.finalized = true;
                        true
                    },
                    Option::None => false,
                }
            },
            _ => false,
        };
        self.mode = CropMode::Idle;
        became
    }

    /// Clears the region and leaves editing.
    pub fn reset(&mut self)
        requires
            old(self).wf(),
        ensures
            final(self).wf(),
            final(self).region is None,
            !final(self).finalized,
            final(self).mode == CropMode::Idle,
            final(self).view_w == old(self).view_w,
            final(self).view_h == old(self).view_h,
    {
        self.region = Option::None;
        self.finalized = false;
        self.mode = CropMode::Idle;
    }
}

} // verus!
