//! The size of a rectangle-like object.

use vstd::prelude::*;

verus! {

/// Dimensions of a rectangle-like object.
#[derive(Debug, Clone, Copy, PartialEq)]
pub struct Dimensions<Unit> {
    /// Width of the object.
    pub width: Unit,
    /// Height of the object.
    pub height: Unit,
}

} // verus!
