//! Value types for positions and rectangles in source-image pixel
//! coordinates. Coordinates are 16-bit: wide enough for any realistic
//! screen or image dimension, and used consistently across the crate.

use vstd::prelude::*;

verus! {

/// A point in source-image pixel coordinates.
#[derive(Clone, Copy, PartialEq, Eq, Structural, Debug)]
pub struct SrcPos {
    pub x: u16,
    pub y: u16,
}

/// A rectangle in source-image pixel coordinates. The type itself does not
/// force `x + w` or `y + h` to stay within any image's bounds; the crop
/// engine checks that against the image it is given.
#[derive(Clone, Copy, PartialEq, Eq, Structural, Debug)]
pub struct SrcRect {
    pub x: u16,
    pub y: u16,
    pub w: u16,
    pub h: u16,
}

} // verus!
