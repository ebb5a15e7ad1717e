//! 16.16 fixed-point distances.
//!
//! Pen positions accumulate glyph advances, which FreeType reports in 16.16
//! fixed point, and kerning adjustments, which it reports in 26.6.  Both are
//! brought to 16.16 so that sums stay exact.

use vstd::prelude::*;

verus! {

/// Units per pixel in 16.16 fixed point.
pub const UNITS_PER_PIXEL: i128 = 65536;

/// 16.16 units per 26.6 unit.
pub const UNITS_PER_KERNING_UNIT: i128 = 1024;

/// A whole number of pixels as a 16.16 distance.
pub open spec fn px(pixels: int) -> int {
    pixels * 65536
}

/// A 26.6 distance as a 16.16 distance.
pub open spec fn kerning_units(v: int) -> int {
    v * 1024
}

/// The least whole number of pixels that is not less than the 16.16
/// distance `v`.
pub open spec fn ceil_px(v: int) -> int {
    (v + 65535) / 65536
}

/// `ceil_px(v)` is the only whole number of pixels `p` with
/// `px(p - 1) < v <= px(p)`.
pub proof fn lemma_ceil_px_is_least_cover(v: int, p: int)
    ensures
        px(ceil_px(v) - 1) < v <= px(ceil_px(v)),
        px(p - 1) < v <= px(p) ==> p == ceil_px(v),
{
}

pub fn from_pixels(pixels: i64) -> (r: i128)
    ensures
        r == px(pixels as int),
{
    (pixels as i128) * UNITS_PER_PIXEL
}

pub fn from_kerning(v: i32) -> (r: i128)
    ensures
        r == kerning_units(v as int),
{
    (v as i128) * UNITS_PER_KERNING_UNIT
}

pub fn ceil_pixels(v: i128) -> (r: i128)
    ensures
        r == ceil_px(v as int),
{
    let q: i128 = v / UNITS_PER_PIXEL;
    if v > 0 && v % UNITS_PER_PIXEL != 0 {
        q + 1
    } else {
        q
    }
}

} // verus!
