//! Points and rectangles on the half-pixel grid.
//!
//! Every position and every length that this crate computes is a whole number
//! of half pixels. On that grid the middle of the window, and the corner of
//! anything centred in it, is a whole number whatever the size of the thing.

use vstd::prelude::*;

verus! {

/// The number of half pixels in `pixels` pixels.
pub open spec fn half_pixels(pixels: int) -> int {
    2 * pixels
}

/// The coordinate, in half pixels, at which something `size` pixels long
/// lies centred in a span of `span` pixels: `(span - size) / 2` pixels.
pub open spec fn centred(span: int, size: int) -> int {
    span - size
}

/// A point or a displacement, in half pixels.
#[derive(Clone, Copy, Debug, PartialEq, Eq, Structural)]
pub struct Vec2 {
    pub x: i64,
    pub y: i64,
}

/// An axis-aligned rectangle given by its top-left corner, its width and its
/// height, in half pixels.
#[derive(Clone, Copy, Debug, PartialEq, Eq, Structural)]
pub struct Rectangle {
    pub x: i64,
    pub y: i64,
    pub width: i64,
    pub height: i64,
}

} // verus!
