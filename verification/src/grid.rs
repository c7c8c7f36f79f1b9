//! Pixel-grid bookkeeping: recentering pixel indices around the image
//! center, and row-major addressing into the raster.
//!
//! A pixel column `x` of an image `extent` pixels wide is recentered to the
//! signed offset `x - extent / 2`, so that the middle of the image sits at
//! offset zero; rows are recentered the same way against the height.  The
//! caller divides the signed offset by the half extent to reach the complex
//! plane; that division is floating-point work and happens outside.

use vstd::prelude::*;

verus! {

/// The signed offset of pixel `index` from the center of a dimension
/// `extent` pixels long: `index - extent / 2`, computed without overflow.
pub fn centered_offset(index: u32, extent: u32) -> (offset: i64)
    ensures
        offset == index - extent / 2,
{
    (index as i64) - ((extent / 2) as i64)
}

/// The row-major position of pixel `(x, y)` in a raster `width` pixels wide:
/// `y * width + x`.
pub fn row_major_index(x: u32, y: u32, width: u32) -> (i: usize)
    requires
        x < width,
        y * width + x <= usize::MAX,
    ensures
        i == y * width + x,
{
    (y as usize) * (width as usize) + (x as usize)
}

} // verus!
