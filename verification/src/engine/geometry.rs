//! Plain value types of the screen: a point and an extent, in whole pixels.

use vstd::prelude::*;

verus! {

/// A point of the screen, in whole pixels from the origin corner.
#[derive(Clone, Copy, Debug, PartialEq, Eq)]
pub struct Vector2 {
    pub x: u32,
    pub y: u32,
}

/// An extent in whole pixels: the window's inner size, or a sprite image's.
#[derive(Clone, Copy, Debug, PartialEq, Eq)]
pub struct PhysicalSize {
    pub width: u32,
    pub height: u32,
}

} // verus!
