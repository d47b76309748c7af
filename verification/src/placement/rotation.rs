//! A rotation angle.

use vstd::prelude::*;
use crate::fraction::Fraction;

verus! {

/// A rotation whose zero angle points to the east, stored as a count
/// of micro-degrees; its view is that count. Trigonometry and the
/// radian form are floating-point work and live outside the verified
/// library.
#[derive(Clone, Copy, Debug, PartialEq)]
pub struct Rotation {
    microdegrees: i64,
}

impl View for Rotation {
    type V = int;

    closed spec fn view(&self) -> int {
        self.microdegrees as int
    }
}

impl Rotation {
    /// No rotation.
    pub fn zero() -> (r: Rotation)
        ensures
            r@ == 0,
    {
        Rotation { microdegrees: 0 }
    }

    /// A half turn.
    pub fn flip() -> (r: Rotation)
        ensures
            r@ == 180_000_000,
    {
        Rotation { microdegrees: 180_000_000 }
    }

    /// A quarter turn.
    pub fn quarter() -> (r: Rotation)
        ensures
            r@ == 90_000_000,
    {
        Rotation { microdegrees: 90_000_000 }
    }

    /// A rotation of the given number of degrees.
    pub fn degrees(degrees: Fraction) -> (r: Rotation)
        ensures
            r@ == degrees@,
    {
        Rotation { microdegrees: degrees.micros }
    }

    /// The rotation in degrees.
    pub fn as_degrees(&self) -> (d: Fraction)
        ensures
            d@ == self@,
    {
        Fraction { micros: self.microdegrees }
    }
}

} // verus!
