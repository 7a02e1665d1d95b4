//! Presentation-layer timing policies: the redraw-frequency throttle
//! and the double-click test.  Pure functions of timestamps handed in
//! by the host, so they can be checked independent of real time.

use vstd::prelude::*;

use crate::geom::within_dist;
use crate::geom::within_dist_spec;
use crate::geom::point_ok;
use crate::geom::Point;
use crate::DOUBLE_CLICK_DIST;
use crate::DOUBLE_CLICK_MS;
use crate::FRAME_LIMIT_DRAG_MS;
use crate::FRAME_LIMIT_IDLE_MS;

verus! {

/// Milliseconds elapsed between two timestamps, never negative.
pub open spec fn elapsed_spec(now_ms: u64, last_ms: u64) -> int {
    if now_ms >= last_ms {
        now_ms - last_ms
    } else {
        0
    }
}

/// Whether a pointer-move at `now_ms` should flush a redraw, given
/// the last flush time: at most one flush per frame-limit interval,
/// with a tighter interval while dragging.  This throttles the visual
/// flush only; state mutations are never dropped.
pub open spec fn should_flush_spec(now_ms: u64, last_flush_ms: u64, dragging: bool) -> bool {
    elapsed_spec(now_ms, last_flush_ms) >= if dragging {
        FRAME_LIMIT_DRAG_MS as int
    } else {
        FRAME_LIMIT_IDLE_MS as int
    }
}

/// Executable flush policy.
pub fn should_flush(now_ms: u64, last_flush_ms: u64, dragging: bool) -> (r: bool)
    ensures
        r == should_flush_spec(now_ms, last_flush_ms, dragging),
{
    let elapsed: u64 = if now_ms >= last_flush_ms {
        now_ms - last_flush_ms
    } else {
        0
    };
    let limit: u64 = if dragging {
        FRAME_LIMIT_DRAG_MS
    } else {
        FRAME_LIMIT_IDLE_MS
    };
    elapsed >= limit
}

/// Whether a click at `p` and `now_ms` makes a double click with the
/// previous click: within the time threshold and within the distance
/// threshold of the previous position.
pub open spec fn double_click_spec(
    now_ms: u64,
    p: Point,
    last: Option<(u64, Point)>,
) -> bool {
    match last {
        Option::Some(lc) => elapsed_spec(now_ms, lc.0) <= DOUBLE_CLICK_MS as int
            && within_dist_spec(p, lc.1, DOUBLE_CLICK_DIST as int),
        Option::None => false,
    }
}

/// Executable double-click test.
pub fn is_double_click(now_ms: u64, p: Point, last: Option<(u64, Point)>) -> (r: bool)
    requires
        point_ok(p),
        match last {
            Option::Some(lc) => point_ok(lc.1),
            Option::None => true,
        },
    ensures
        r == double_click_spec(now_ms, p, last),
{
    match last {
        Option::Some(lc) => {
            let elapsed: u64 = if now_ms >= lc.0 {
                now_ms - lc.0
            } else {
                0
            };
            elapsed <= DOUBLE_CLICK_MS && within_dist(p, lc.1, DOUBLE_CLICK_DIST)
        },
        Option::None => false,
    }
}

} // verus!
