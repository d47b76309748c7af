//! Colors and paint styles for 2D vector graphics, with verified
//! CSS-compatible rendering and parsing, and a bounding-box utility
//! used to size graphics output.

pub mod color;
pub mod digits;
pub mod fraction;
pub mod placement;
pub mod style;
pub mod viewbox;

use vstd::prelude::*;

verus! {

} // verus!
