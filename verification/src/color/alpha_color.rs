//! A color with an alpha channel.

use vstd::prelude::*;
use vstd::string::StringExecFns;
use crate::color::{ColorResult, ColoringError, CssProp};
use crate::digits::dec_digits;
use crate::digits::push_dec_u64;
use crate::fraction::{fraction_chars, push_fraction, Fraction};

verus! {

/// A simple RGBA color: three 8-bit channels and a fractional alpha.
/// Its view is the four channel values, the alpha as its count of
/// millionths. Every publicly constructed value has its alpha between
/// zero and one; the internal unchecked constructor demands that of
/// its caller.
#[derive(Clone, Copy, Debug, PartialEq)]
pub struct AlphaColor {
    /// red
    r: u8,
    /// green
    g: u8,
    /// blue
    b: u8,
    /// alpha (opacity between zero and one)
    a: Fraction,
}

impl View for AlphaColor {
    type V = (u8, u8, u8, int);

    closed spec fn view(&self) -> (u8, u8, u8, int) {
        (self.r, self.g, self.b, self.a@)
    }
}

/// The description of an alpha value outside [0, 1].
pub open spec fn alpha_range_msg() -> Seq<char> {
    "Alpha value must be between 0. and 1."@
}

/// The CSS text of an alpha color: `rgba(R,G,B,A)` with decimal
/// channel values, the alpha in plain decimal notation, and no
/// spaces.
pub open spec fn alpha_css(v: (u8, u8, u8, int)) -> Seq<char> {
    seq!['r', 'g', 'b', 'a', '('] + dec_digits(v.0 as int) + seq![','] + dec_digits(v.1 as int)
        + seq![','] + dec_digits(v.2 as int) + seq![','] + fraction_chars(v.3) + seq![')']
}

impl AlphaColor {
    /// Create an RGBA color without checking the alpha range. Must
    /// only be called with an alpha statically known to lie in
    /// [0, 1].
    pub(crate) fn rgba_unchecked(r: u8, g: u8, b: u8, a: Fraction) -> (c: Self)
        requires
            0 <= a@ <= 1_000_000,
        ensures
            c@ == (r, g, b, a@),
    {
        AlphaColor { r, g, b, a }
    }

    /// Create an RGBA color. Fails with `InvalidProperty` exactly
    /// when the alpha lies outside [0, 1].
    pub fn rgba(r: u8, g: u8, b: u8, a: Fraction) -> (res: ColorResult<Self>)
        ensures
            0 <= a@ <= 1_000_000 ==> (res matches Ok(c) && c@ == (r, g, b, a@)),
            !(0 <= a@ <= 1_000_000) ==> (res matches Err(e) && e matches
                ColoringError::InvalidProperty(m) && m@ == alpha_range_msg()),
    {
        if a.micros < 0 || a.micros > 1_000_000 {
            return Err(
                ColoringError::InvalidProperty(
                    String::from_str("Alpha value must be between 0. and 1."),
                ),
            );
        }
        Ok(AlphaColor { r, g, b, a })
    }

    /// The color as an (r, g, b, alpha) tuple, in that order.
    pub fn as_rgba(&self) -> (t: (u8, u8, u8, Fraction))
        ensures
            (t.0, t.1, t.2, t.3@) == self@,
    {
        (self.r, self.g, self.b, self.a)
    }
}

impl CssProp for AlphaColor {
    open spec fn css_renderable(&self) -> bool {
        true
    }

    open spec fn css(&self) -> Seq<char> {
        alpha_css(self@)
    }

    /// Renders as `rgba(R,G,B,A)`.
    fn to_css_prop(&self) -> (r: String) {
        let mut s = String::new();
        s.append("rgba(");
        proof {
            reveal_strlit("rgba(");
            assert("rgba("@ =~= seq!['r', 'g', 'b', 'a', '(']);
            reveal_strlit(",");
            assert(","@ =~= seq![',']);
            reveal_strlit(")");
            assert(")"@ =~= seq![')']);
        }
        push_dec_u64(&mut s, self.r as u64);
        s.append(",");
        push_dec_u64(&mut s, self.g as u64);
        s.append(",");
        push_dec_u64(&mut s, self.b as u64);
        s.append(",");
        push_fraction(&mut s, self.a);
        s.append(")");
        proof {
            assert(s@ =~= alpha_css(self@));
        }
        s
    }
}

} // verus!
