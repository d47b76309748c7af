//! Attaching a style to a drawable value.

use vstd::prelude::*;

verus! {

/// A value that a style can be attached to.
pub trait Stylable: Sized {
    /// The style data that accompanies the value.
    type StyleWith;

    /// Attach the given style.
    fn with_style(&self, style: Self::StyleWith) -> Styled<Self>;
}

/// A value together with its style.
pub struct Styled<T: Stylable> {
    inner: T,
    style: T::StyleWith,
}

impl<T: Stylable> Styled<T> {
    /// The wrapped value.
    pub closed spec fn spec_inner(&self) -> T {
        self.inner
    }

    /// The attached style.
    pub closed spec fn spec_style(&self) -> T::StyleWith {
        self.style
    }

    /// Wrap a value with its style.
    pub fn new(inner: T, style: T::StyleWith) -> (s: Self)
        ensures
            s.spec_inner() == inner,
            s.spec_style() == style,
    {
        Self { inner, style }
    }

    /// The attached style.
    pub fn style(&self) -> (r: &T::StyleWith)
        ensures
            *r == self.spec_style(),
    {
        &self.style
    }

    /// The attached style, for mutation; the wrapped value is kept.
    pub fn style_mut(&mut self) -> (r: &mut T::StyleWith)
        ensures
            *r == old(self).spec_style(),
            final(self).spec_style() == *final(r),
            final(self).spec_inner() == old(self).spec_inner(),
    {
        &mut self.style
    }

    /// The wrapped value.
    pub fn inner(&self) -> (r: &T)
        ensures
            *r == self.spec_inner(),
    {
        &self.inner
    }
}

} // verus!
