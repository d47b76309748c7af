//! The most general fill or stroke value.

use vstd::prelude::*;
use crate::color::alpha_color::AlphaColor;
use crate::color::gradient::Gradient;
use crate::color::solid_color::SolidColor;
use crate::color::CssProp;

verus! {

/// A set of all supported ways to paint something. Patterns are not
/// included.
#[derive(Clone, Debug)]
pub enum Paint {
    Opaque(SolidColor),
    Alpha(AlphaColor),
    Gradient(Gradient),
}

impl CssProp for Paint {
    /// Every paint but a radial gradient has a defined CSS text.
    open spec fn css_renderable(&self) -> bool {
        match self {
            Paint::Opaque(_) => true,
            Paint::Alpha(_) => true,
            Paint::Gradient(g) => g.css_renderable(),
        }
    }

    open spec fn css(&self) -> Seq<char> {
        match self {
            Paint::Opaque(o) => o.css(),
            Paint::Alpha(a) => a.css(),
            Paint::Gradient(g) => g.css(),
        }
    }

    fn to_css_prop(&self) -> (r: String) {
        match self {
            Paint::Opaque(o) => o.to_css_prop(),
            Paint::Alpha(a) => a.to_css_prop(),
            Paint::Gradient(g) => g.to_css_prop(),
        }
    }
}

} // verus!
