//! A plain two-dimensional vector.

use vstd::prelude::*;

verus! {

/// A 2D vector that typically defines a position or direction. The
/// floating-point vector arithmetic of the rendering layer lives
/// outside the verified library.
#[derive(Clone, Copy, Debug, Default, PartialEq)]
pub struct Vec2<T> {
    /// Coordinate on the horizontal plane.
    pub x: T,
    /// Coordinate on the vertical plane.
    pub y: T,
}

impl<T> Vec2<T> {
    /// Create a new Vec2.
    pub fn new(x: T, y: T) -> (v: Self)
        ensures
            v.x == x,
            v.y == y,
    {
        Vec2 { x, y }
    }
}

} // verus!
