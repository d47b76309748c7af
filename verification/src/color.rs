//! The color model: solid and alpha colors, their union, gradients,
//! paints, and the CSS property texts they render to.

pub mod alpha_color;
pub mod common;
pub mod gradient;
pub mod paint;
pub mod parse;
pub mod solid_color;

use vstd::prelude::*;
use vstd::string::StringExecFns;
use crate::color::alpha_color::AlphaColor;
use crate::color::solid_color::SolidColor;

verus! {

/// The outcome of an operation that can fail with a [`ColoringError`].
pub type ColorResult<T> = Result<T, ColoringError>;

/// A color that is uniform over a filled area: either fully opaque or
/// carrying one alpha value, as opposed to a gradient.
#[derive(Clone, Copy, Debug)]
pub enum UniformColor {
    Solid(SolidColor),
    Alpha(AlphaColor),
}

/// The equality relation of [`UniformColor`]: a solid color and an
/// alpha color compare equal exactly when the alpha is one and the
/// r/g/b channels match; two values of the same variant compare by
/// their channels. The relation is symmetric but deliberately not a
/// full equivalence across variants, so the type implements
/// `PartialEq` and not `Eq`, and must not serve as a hash key.
pub open spec fn uniform_eq(a: UniformColor, b: UniformColor) -> bool {
    match (a, b) {
        (UniformColor::Solid(o), UniformColor::Alpha(x)) => x@.3 == 1_000_000 && o@.0 == x@.0
            && o@.1 == x@.1 && o@.2 == x@.2,
        (UniformColor::Alpha(x), UniformColor::Solid(o)) => x@.3 == 1_000_000 && o@.0 == x@.0
            && o@.1 == x@.1 && o@.2 == x@.2,
        (UniformColor::Solid(o), UniformColor::Solid(t)) => o@ == t@,
        (UniformColor::Alpha(x), UniformColor::Alpha(y)) => x@ == y@,
    }
}

/// The cross-variant rule is symmetric: comparing in either order
/// gives the same answer.
pub proof fn lemma_uniform_eq_symmetric(a: UniformColor, b: UniformColor)
    ensures
        uniform_eq(a, b) == uniform_eq(b, a),
{
}

impl PartialEq for UniformColor {
    /// Compares an alpha value to an rgb value if and only if the
    /// alpha is exactly one; then their channels are compared.
    fn eq(&self, other: &Self) -> (r: bool) {
        match (self, other) {
            (UniformColor::Solid(o), UniformColor::Alpha(a)) => {
                let (a_r, a_g, a_b, a_a) = a.as_rgba();
                let (o_r, o_g, o_b) = o.as_rgb();
                a_a.micros == 1_000_000 && o_r == a_r && o_g == a_g && o_b == a_b
            },
            (UniformColor::Alpha(a), UniformColor::Solid(o)) => {
                let (a_r, a_g, a_b, a_a) = a.as_rgba();
                let (o_r, o_g, o_b) = o.as_rgb();
                a_a.micros == 1_000_000 && o_r == a_r && o_g == a_g && o_b == a_b
            },
            (UniformColor::Solid(o), UniformColor::Solid(t)) => {
                let (o_r, o_g, o_b) = o.as_rgb();
                let (t_r, t_g, t_b) = t.as_rgb();
                o_r == t_r && o_g == t_g && o_b == t_b
            },
            (UniformColor::Alpha(x), UniformColor::Alpha(y)) => {
                let (x_r, x_g, x_b, x_a) = x.as_rgba();
                let (y_r, y_g, y_b, y_a) = y.as_rgba();
                x_r == y_r && x_g == y_g && x_b == y_b && x_a == y_a
            },
        }
    }
}

impl vstd::std_specs::cmp::PartialEqSpecImpl for UniformColor {
    open spec fn obeys_eq_spec() -> bool {
        true
    }

    open spec fn eq_spec(&self, other: &Self) -> bool {
        uniform_eq(*self, *other)
    }
}

impl CssProp for UniformColor {
    open spec fn css_renderable(&self) -> bool {
        true
    }

    open spec fn css(&self) -> Seq<char> {
        match self {
            UniformColor::Solid(s) => s.css(),
            UniformColor::Alpha(a) => a.css(),
        }
    }

    fn to_css_prop(&self) -> (r: String) {
        match self {
            UniformColor::Solid(s) => s.to_css_prop(),
            UniformColor::Alpha(a) => a.to_css_prop(),
        }
    }
}

/// A failure in the color model.
#[derive(Clone, Debug, PartialEq)]
pub enum ColoringError {
    /// A conversion between color representations failed; the payload
    /// is the description of the underlying failure.
    CantConvert(String),
    /// A provided value breaks a stated domain constraint; the
    /// payload names the constraint.
    InvalidProperty(String),
}

impl ColoringError {
    /// The human-readable description of this error.
    pub open spec fn spec_message(&self) -> Seq<char> {
        match self {
            ColoringError::CantConvert(s) => "An error occurred during a color conversion: "@
                + s@,
            ColoringError::InvalidProperty(s) => "The property "@ + s@ + " is invalid."@,
        }
    }

    /// An `InvalidProperty` error with the given description.
    pub fn property(s: String) -> (r: Self)
        ensures
            r matches ColoringError::InvalidProperty(m) && m@ == s@,
    {
        ColoringError::InvalidProperty(s)
    }

    /// A `CantConvert` error with the given description.
    pub fn conversion(s: String) -> (r: Self)
        ensures
            r matches ColoringError::CantConvert(m) && m@ == s@,
    {
        ColoringError::CantConvert(s)
    }

    /// Render the error as human-readable text.
    pub fn message(&self) -> (r: String)
        ensures
            r@ == self.spec_message(),
    {
        match self {
            ColoringError::CantConvert(s) => {
                let mut m = String::from_str("An error occurred during a color conversion: ");
                m.append(s.as_str());
                m
            },
            ColoringError::InvalidProperty(s) => {
                let mut m = String::from_str("The property ");
                m.append(s.as_str());
                m.append(" is invalid.");
                m
            },
        }
    }
}

/// The capability of rendering a value as CSS property text, the form
/// a markup-rendering backend embeds directly into its output.
pub trait CssProp {
    /// Whether the value has a defined CSS text. It excludes exactly
    /// the one deliberately unimplemented renderer, the radial
    /// gradient.
    spec fn css_renderable(&self) -> bool;

    /// The exact character sequence `to_css_prop` produces.
    spec fn css(&self) -> Seq<char>;

    /// Render the value as CSS property text.
    fn to_css_prop(&self) -> (r: String)
        requires
            self.css_renderable(),
        ensures
            r@ == self.css(),
    ;
}

/// Any two renderings of the same value are the same text: the
/// rendering is a pure function of the value.
pub proof fn lemma_css_prop_deterministic<T: CssProp>(x: &T, s1: Seq<char>, s2: Seq<char>)
    requires
        s1 == x.css(),
        s2 == x.css(),
    ensures
        s1 == s2,
{
}

} // verus!
