//! The messages a context sends to its rendering worker.
//!
//! Every message carries its data by value, so it can be sent without
//! sharing anything with the context.

use vstd::prelude::*;

verus! {

/// An axis-aligned rectangle: origin `(x, y)` and size `(width, height)`.
///
/// Each field holds the bit pattern of a single-precision value, the
/// precision at which the worker handles geometry.
#[derive(Clone, Copy, Debug, PartialEq, Eq, Structural)]
pub struct Rect {
    pub x: u32,
    pub y: u32,
    pub width: u32,
    pub height: u32,
}

/// Pixel dimensions of a drawing surface.
#[derive(Clone, Copy, Debug, PartialEq, Eq, Structural)]
pub struct Size {
    pub width: i32,
    pub height: i32,
}

#[derive(Clone, Copy, Debug, PartialEq, Eq, Structural)]
pub enum CanvasMsg {
    FillRect(Rect),
    ClearRect(Rect),
    StrokeRect(Rect),
    /// Reallocate the backing buffer at the given size.
    Recreate(Size),
    /// Release all resources and stop processing.
    Close,
}

impl Rect {
    pub fn new(x: u32, y: u32, width: u32, height: u32) -> (r: Rect)
        ensures
            r == (Rect { x, y, width, height }),
    {
        Rect { x, y, width, height }
    }
}

impl Size {
    pub fn new(width: i32, height: i32) -> (r: Size)
        ensures
            r == (Size { width, height }),
    {
        Size { width, height }
    }
}

} // verus!
