//! An axis-aligned bounding box, composed from drawn parts to size
//! the final output.

use vstd::prelude::*;

verus! {

/// A value whose bounding box can be computed.
pub trait ViewBoxed {
    /// The bounding box of the value.
    fn viewbox(&self) -> ViewBox;
}

/// An axis-aligned bounding box over whole-number coordinates, each
/// bound optional so that boxes can be composed starting from
/// nothing. The floating-point coordinate form of the rendering
/// layer lives outside the verified library.
#[derive(Default, Debug, Clone, Copy, PartialEq)]
pub struct ViewBox {
    pub min_x: Option<i64>,
    pub min_y: Option<i64>,
    pub max_x: Option<i64>,
    pub max_y: Option<i64>,
}

/// The smaller of two optional bounds; an absent bound is no
/// constraint.
pub open spec fn spec_min_option(a: Option<i64>, b: Option<i64>) -> Option<i64> {
    match (a, b) {
        (Some(x), Some(y)) => Some(if x <= y { x } else { y }),
        (Some(x), None) => Some(x),
        (None, Some(y)) => Some(y),
        (None, None) => None,
    }
}

/// The larger of two optional bounds; an absent bound is no
/// constraint.
pub open spec fn spec_max_option(a: Option<i64>, b: Option<i64>) -> Option<i64> {
    match (a, b) {
        (Some(x), Some(y)) => Some(if x >= y { x } else { y }),
        (Some(x), None) => Some(x),
        (None, Some(y)) => Some(y),
        (None, None) => None,
    }
}

/// The value of an optional bound; an absent bound counts as zero.
pub open spec fn spec_bound(a: Option<i64>) -> int {
    match a {
        Some(x) => x as int,
        None => 0,
    }
}

impl ViewBox {
    /// A box with all four bounds present.
    pub fn new(min_x: i64, min_y: i64, max_x: i64, max_y: i64) -> (v: Self)
        ensures
            v == (ViewBox {
                min_x: Some(min_x),
                min_y: Some(min_y),
                max_x: Some(max_x),
                max_y: Some(max_y),
            }),
    {
        Self { min_x: Some(min_x), min_y: Some(min_y), max_x: Some(max_x), max_y: Some(max_y) }
    }

    /// The smallest box that contains both boxes: present bounds are
    /// combined, absent ones are taken from the other box.
    pub fn add(&self, other: &Self) -> (v: Self)
        ensures
            v.min_x == spec_min_option(self.min_x, other.min_x),
            v.min_y == spec_min_option(self.min_y, other.min_y),
            v.max_x == spec_max_option(self.max_x, other.max_x),
            v.max_y == spec_max_option(self.max_y, other.max_y),
    {
        Self {
            min_x: Self::min_option(self.min_x, other.min_x),
            min_y: Self::min_option(self.min_y, other.min_y),
            max_x: Self::max_option(self.max_x, other.max_x),
            max_y: Self::max_option(self.max_y, other.max_y),
        }
    }

    /// The lower horizontal bound, zero when absent.
    pub fn min_x(&self) -> (r: i64)
        ensures
            r as int == spec_bound(self.min_x),
    {
        match self.min_x {
            Some(x) => x,
            None => 0,
        }
    }

    /// The lower vertical bound, zero when absent.
    pub fn min_y(&self) -> (r: i64)
        ensures
            r as int == spec_bound(self.min_y),
    {
        match self.min_y {
            Some(y) => y,
            None => 0,
        }
    }

    /// The upper horizontal bound, zero when absent.
    pub fn max_x(&self) -> (r: i64)
        ensures
            r as int == spec_bound(self.max_x),
    {
        match self.max_x {
            Some(x) => x,
            None => 0,
        }
    }

    /// The upper vertical bound, zero when absent.
    pub fn max_y(&self) -> (r: i64)
        ensures
            r as int == spec_bound(self.max_y),
    {
        match self.max_y {
            Some(y) => y,
            None => 0,
        }
    }

    /// The horizontal extent: the absolute difference of the two
    /// horizontal bounds.
    pub fn width(&self) -> (r: i64)
        requires
            -(i64::MAX as int) <= spec_bound(self.min_x) - spec_bound(self.max_x)
                <= i64::MAX as int,
        ensures
            r as int == vstd::math::abs(spec_bound(self.min_x) - spec_bound(self.max_x)),
    {
        let d: i64 = self.min_x() - self.max_x();
        if d < 0 {
            -d
        } else {
            d
        }
    }

    /// The vertical extent: the absolute difference of the two
    /// vertical bounds.
    pub fn height(&self) -> (r: i64)
        requires
            -(i64::MAX as int) <= spec_bound(self.min_y) - spec_bound(self.max_y)
                <= i64::MAX as int,
        ensures
            r as int == vstd::math::abs(spec_bound(self.min_y) - spec_bound(self.max_y)),
    {
        let d: i64 = self.min_y() - self.max_y();
        if d < 0 {
            -d
        } else {
            d
        }
    }

    fn min_option(a: Option<i64>, b: Option<i64>) -> (r: Option<i64>)
        ensures
            r == spec_min_option(a, b),
    {
        match (a, b) {
            (Some(x), Some(y)) => Some(if x <= y { x } else { y }),
            (Some(x), None) => Some(x),
            (None, Some(y)) => Some(y),
            (None, None) => None,
        }
    }

    fn max_option(a: Option<i64>, b: Option<i64>) -> (r: Option<i64>)
        ensures
            r == spec_max_option(a, b),
    {
        match (a, b) {
            (Some(x), Some(y)) => Some(if x >= y { x } else { y }),
            (Some(x), None) => Some(x),
            (None, Some(y)) => Some(y),
            (None, None) => None,
        }
    }

    /// Grow the box by a margin on every present bound.
    pub fn with_margin(self, margin: i64) -> (v: Self)
        requires
            self.min_x matches Some(x) ==> i64::MIN as int <= x - margin <= i64::MAX as int,
            self.min_y matches Some(y) ==> i64::MIN as int <= y - margin <= i64::MAX as int,
            self.max_x matches Some(x) ==> i64::MIN as int <= x + margin <= i64::MAX as int,
            self.max_y matches Some(y) ==> i64::MIN as int <= y + margin <= i64::MAX as int,
        ensures
            match (self.min_x, v.min_x) {
                (Some(x), Some(r)) => r == x - margin,
                (None, None) => true,
                _ => false,
            },
            match (self.min_y, v.min_y) {
                (Some(y), Some(r)) => r == y - margin,
                (None, None) => true,
                _ => false,
            },
            match (self.max_x, v.max_x) {
                (Some(x), Some(r)) => r == x + margin,
                (None, None) => true,
                _ => false,
            },
            match (self.max_y, v.max_y) {
                (Some(y), Some(r)) => r == y + margin,
                (None, None) => true,
                _ => false,
            },
    {
        let min_x = match self.min_x {
            Some(x) => Some(x - margin),
            None => None,
        };
        let min_y = match self.min_y {
            Some(y) => Some(y - margin),
            None => None,
        };
        let max_x = match self.max_x {
            Some(x) => Some(x + margin),
            None => None,
        };
        let max_y = match self.max_y {
            Some(y) => Some(y + margin),
            None => None,
        };
        Self { min_x, min_y, max_x, max_y }
    }
}

} // verus!
