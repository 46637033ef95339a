//! Geometry of a thumbnail: the square cut out of the source and the side
//! length of the result.

use vstd::prelude::*;

verus! {

/// Smallest side length, in pixels, that a caller may ask for. The bound itself
/// is allowed.
pub const MIN_SIDE: u32 = 32;

/// Largest side length, in pixels, that a caller may ask for. The bound itself
/// is allowed.
pub const MAX_SIDE: u32 = 512;

/// Side length used in place of a request outside `MIN_SIDE..=MAX_SIDE`.
pub const DEFAULT_SIDE: u32 = 64;

/// Whether a requested side length is served as asked.
pub open spec fn side_in_range(requested: u32) -> bool {
    MIN_SIDE <= requested <= MAX_SIDE
}

/// The side length that a request for `requested` pixels yields.
pub open spec fn effective_side_of(requested: u32) -> u32 {
    if side_in_range(requested) {
        requested
    } else {
        DEFAULT_SIDE
    }
}

/// The side of the largest square that fits a `width` by `height` grid.
pub open spec fn crop_side_of(width: u32, height: u32) -> u32 {
    if width <= height {
        width
    } else {
        height
    }
}

/// A rectangle of pixels inside an image, by its top-left corner and extent.
#[derive(Clone, Copy, Debug, PartialEq, Eq, Structural)]
pub struct Region {
    pub x: u32,
    pub y: u32,
    pub width: u32,
    pub height: u32,
}

/// The region kept of a `width` by `height` source: the largest square whose
/// top-left corner is the source's own.
pub open spec fn square_region_of(width: u32, height: u32) -> Region {
    Region { x: 0, y: 0, width: crop_side_of(width, height), height: crop_side_of(width, height) }
}

/// Replaces a requested side length outside `MIN_SIDE..=MAX_SIDE` by
/// `DEFAULT_SIDE` and keeps any other.
pub fn effective_side(requested: u32) -> (side: u32)
    ensures
        side == effective_side_of(requested),
        MIN_SIDE <= side <= MAX_SIDE,
        side_in_range(requested) ==> side == requested,
        !side_in_range(requested) ==> side == DEFAULT_SIDE && side != requested,
{
    if requested < MIN_SIDE || requested > MAX_SIDE {
        DEFAULT_SIDE
    } else {
        requested
    }
}

/// Computes the largest square anchored at the top-left corner of a `width` by
/// `height` source.
pub fn square_region(width: u32, height: u32) -> (region: Region)
    ensures
        region == square_region_of(width, height),
        region.x == 0 && region.y == 0,
        region.width == region.height,
        region.width <= width && region.height <= height,
        region.width == width || region.height == height,
{
    let side: u32 = if width <= height { width } else { height };
    Region { x: 0, y: 0, width: side, height: side }
}

} // verus!
