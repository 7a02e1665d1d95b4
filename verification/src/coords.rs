//! Conversion between screen-pixel coordinates and the render
//! target's normalized space, at a fixed milli-unit precision: the
//! normalized range `[-1, 1]` is represented as `[-1000, 1000]`.
//! Pure functions of the viewport size, read on every call.

use vstd::prelude::*;

verus! {

/// The normalized x of pixel `v` in a viewport `size` wide, in
/// milli-units: `(v / size) * 2 - 1`, rounded down.
pub open spec fn ndc_x_milli_spec(v: int, size: int) -> int {
    2000 * v / size - 1000
}

/// The normalized y of pixel `v` in a viewport `size` tall, in
/// milli-units, with the axis flipped: `1 - (v / size) * 2`.
pub open spec fn ndc_y_milli_spec(v: int, size: int) -> int {
    1000 - 2000 * v / size
}

/// Converts a pixel x coordinate to milli-normalized space.
pub fn px_to_ndc_x_milli(v: i64, size: i64) -> (r: i64)
    requires
        0 < size <= crate::COORD_LIMIT,
        0 <= v <= size,
    ensures
        r as int == ndc_x_milli_spec(v as int, size as int),
        -1000 <= r <= 1000,
{
    proof {
        crate::geom::lemma_mul_bound(2000, v as int, 2000, crate::COORD_LIMIT as int);
        assert(0 <= 2000 * (v as int) / (size as int) <= 2000) by (nonlinear_arith)
            requires
                0 < size as int,
                0 <= v as int <= size as int,
        ;
    }
    let scaled: i64 = 2000 * v / size;
    scaled - 1000
}

/// Converts a pixel y coordinate to milli-normalized space.
pub fn px_to_ndc_y_milli(v: i64, size: i64) -> (r: i64)
    requires
        0 < size <= crate::COORD_LIMIT,
        0 <= v <= size,
    ensures
        r as int == ndc_y_milli_spec(v as int, size as int),
        -1000 <= r <= 1000,
{
    proof {
        crate::geom::lemma_mul_bound(2000, v as int, 2000, crate::COORD_LIMIT as int);
        assert(0 <= 2000 * (v as int) / (size as int) <= 2000) by (nonlinear_arith)
            requires
                0 < size as int,
                0 <= v as int <= size as int,
        ;
    }
    let scaled: i64 = 2000 * v / size;
    1000 - scaled
}

} // verus!
