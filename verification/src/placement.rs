//! Placement of graphics: rotations, vectors and dimensions.

pub mod dimensions;
pub mod rotation;
pub mod vector;

pub use dimensions::Dimensions;
pub use rotation::Rotation;
pub use vector::Vec2;
