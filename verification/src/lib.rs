//! Interactive annotation editing engine for a screen-overlay editor.
//!
//! The crate models the state of an annotation session over a captured
//! screen image: a crop region selected first, then vector elements
//! (rectangles, ellipses, arrows, freehand strokes, text) drawn on top of
//! it, with selection handles, undo/redo history and a geometry cache
//! that turns elements into line segments for a renderer.
//!
//! All coordinates are whole screen pixels, kept inside a large bounded
//! canvas so that every geometric computation is exact integer
//! arithmetic.

use vstd::prelude::*;

pub mod cache;
pub mod coords;
pub mod crop;
pub mod editor;
pub mod element;
pub mod geom;
pub mod history;
pub mod policy;
pub mod selection;
pub mod store;
pub mod textedit;

verus! {

/// Every stored coordinate stays within this bound (a huge virtual
/// canvas); pointer input is clamped to it on entry.
pub const COORD_LIMIT: i64 = 1_000_000_000;

/// Width and height a rectangle keeps at minimum while being edited.
pub const MIN_RECT_SIZE: i64 = 5;

/// Floor for both ellipse radii while being edited.
pub const MIN_ELLIPSE_RADIUS: i64 = 5;

/// Minimum width and height for a rectangle to be kept at commit.
pub const MIN_SAVE_SIZE: i64 = 20;

/// Minimum radius (both axes) for an ellipse to be kept at commit.
pub const MIN_SAVE_RADIUS: i64 = 10;

/// Minimum endpoint distance for an arrow to be kept at commit.
pub const MIN_ARROW_LENGTH: i64 = 30;

/// Minimum width and height of the crop region.
pub const MIN_BOX_SIZE: i64 = 20;

/// Side length of a square selection handle.
pub const HANDLE_SIZE: i64 = 16;

/// Distance threshold for hitting an arrow shaft.
pub const ARROW_HIT_DIST: i64 = 10;

/// Padding around a text element's box for handles and hit-testing.
pub const TEXT_PADDING: i64 = 8;

/// Bounds for a text element's font size.
pub const FONT_MIN: i64 = 8;

pub const FONT_MAX: i64 = 200;

/// Font size a freshly started text element gets.
pub const DEFAULT_FONT_SIZE: i64 = 24;

/// Line thickness a freshly drawn element gets.
pub const DEFAULT_THICKNESS: u32 = 2;

/// Width floor of a text element's box.
pub const MIN_TEXT_WIDTH: i64 = 100;

/// Cap on the number of characters a text element holds.
pub const MAX_TEXT_LEN: usize = 100_000;

/// Cap on the depth of the undo stack.
pub const MAX_UNDO_STEPS: usize = 50;

/// Milliseconds between visual flushes while dragging.
pub const FRAME_LIMIT_DRAG_MS: u64 = 14;

/// Milliseconds between visual flushes while idle.
pub const FRAME_LIMIT_IDLE_MS: u64 = 33;

/// Two clicks at most this many milliseconds apart may count as a
/// double click.
pub const DOUBLE_CLICK_MS: u64 = 500;

/// Two clicks at most this far apart (in pixels, per axis metric used
/// by the click test) may count as a double click.
pub const DOUBLE_CLICK_DIST: i64 = 10;

/// Length of an arrow head flank along the shaft.
pub const ARROW_HEAD_LEN: i64 = 15;

/// Half-width of an arrow head across the shaft.
pub const ARROW_HEAD_WIDTH: i64 = 8;

/// Number of segments in the polygon approximating an ellipse.
pub const ELLIPSE_SEGMENTS: u32 = 32;

} // verus!
