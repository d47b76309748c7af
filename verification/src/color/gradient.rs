//! Gradients: ordered color stops rendered as CSS gradient
//! functions.

use vstd::prelude::*;
use vstd::pervasive::unreached;
use vstd::string::{StrSliceExecFns, StringExecFns};
use crate::color::{CssProp, UniformColor};
use crate::digits::{dec_digits, int_chars, push_dec_i64, push_dec_u64};
use crate::fraction::Fraction;
use crate::placement::rotation::Rotation;
use crate::placement::vector::Vec2;

verus! {

/// All supported ways to draw a gradient.
///
/// Conic and curve-based gradients are not included. The CSS
/// rendering of the radial variant is deliberately unimplemented: it
/// has no defined text, and rendering one is a fatal failure, never a
/// plausible-looking default.
#[derive(Clone, Debug, PartialEq)]
pub enum Gradient {
    Linear { rot: Rotation, colors: Vec<(UniformColor, Fraction)> },
    Radial { center: Vec2<Fraction>, colors: Vec<(UniformColor, Fraction)> },
}

/// A count of millionths rounded to the nearest whole number, halves
/// away from zero, as float rounding does.
pub open spec fn round_millionths(m: int) -> int {
    if m >= 0 {
        (m + 500_000) / 1_000_000
    } else {
        -((-m + 500_000) / 1_000_000)
    }
}

/// The whole-degree angle printed for a linear gradient: the degree
/// value rounded, then clamped into the 16-bit unsigned range as a
/// saturating float-to-integer cast would be; every negative angle
/// prints as zero.
pub open spec fn gradient_degrees(micro_deg: int) -> int {
    let r = round_millionths(micro_deg);
    if r < 0 {
        0
    } else if r > 65535 {
        65535
    } else {
        r
    }
}

/// A stop offset in millionths as a rounded percentage: the offset
/// times one hundred, rounded to the nearest whole number, halves
/// away from zero.
pub open spec fn round_percent(m: int) -> int {
    if m >= 0 {
        (m + 5_000) / 10_000
    } else {
        -((-m + 5_000) / 10_000)
    }
}

/// The percentage printed for one gradient stop: the rounded
/// percentage clamped into the 32-bit signed range as a saturating
/// float-to-integer cast would be.
pub open spec fn stop_percent(m: int) -> int {
    let r = round_percent(m);
    if r < -2_147_483_648 {
        -2_147_483_648
    } else if r > 2_147_483_647 {
        2_147_483_647
    } else {
        r
    }
}

/// The text of one gradient stop: the color's CSS text, a space, and
/// the stop's rounded percentage.
pub open spec fn stop_chars(c: UniformColor, p: Fraction) -> Seq<char> {
    c.css() + seq![' '] + int_chars(stop_percent(p@)) + seq!['%']
}

/// The comma-separated texts of the stops from index `i` on, with no
/// space after the commas.
pub open spec fn stops_chars_from(stops: Seq<(UniformColor, Fraction)>, i: int) -> Seq<char>
    decreases stops.len() - i,
{
    if i < 0 || i >= stops.len() {
        Seq::empty()
    } else if i == stops.len() - 1 {
        stop_chars(stops[i].0, stops[i].1)
    } else {
        stop_chars(stops[i].0, stops[i].1) + seq![','] + stops_chars_from(stops, i + 1)
    }
}

/// The CSS text of a linear gradient: empty for an empty stop list,
/// else `linear-gradient({deg}deg, {stops})` with the stops in the
/// order given.
pub open spec fn linear_css(rot_micro_deg: int, stops: Seq<(UniformColor, Fraction)>) -> Seq<
    char,
> {
    if stops.len() == 0 {
        Seq::empty()
    } else {
        seq!['l', 'i', 'n', 'e', 'a', 'r', '-', 'g', 'r', 'a', 'd', 'i', 'e', 'n', 't', '(']
            + dec_digits(gradient_degrees(rot_micro_deg)) + seq!['d', 'e', 'g', ',', ' ']
            + stops_chars_from(stops, 0) + seq![')']
    }
}

/// The whole-degree angle of a rotation, rounded and clamped.
fn degrees_value(rot: &Rotation) -> (v: u64)
    ensures
        v as int == gradient_degrees(rot@),
{
    let d = rot.as_degrees();
    let m: i64 = d.micros;
    if m < 0 {
        0
    } else {
        let r: u64 = (m as u64 + 500_000) / 1_000_000;
        if r > 65535 {
            65535
        } else {
            r
        }
    }
}

/// The clamped percentage of a stop offset.
fn percent_value(p: Fraction) -> (v: i64)
    ensures
        v as int == stop_percent(p@),
{
    let m: i64 = p.micros;
    if m >= 0 {
        let r: u64 = (m as u64 + 5_000) / 10_000;
        if r > 2_147_483_647 {
            2_147_483_647
        } else {
            r as i64
        }
    } else {
        let neg: u64 = (-(m as i128)) as u64;
        let r: u64 = (neg + 5_000) / 10_000;
        if r >= 2_147_483_648 {
            -2_147_483_648
        } else {
            -(r as i64)
        }
    }
}

/// Append the texts of the stops from index `i` on.
fn push_stops(s: &mut String, stops: &Vec<(UniformColor, Fraction)>, i: usize)
    requires
        i < stops@.len(),
    ensures
        final(s)@ == old(s)@ + stops_chars_from(stops@, i as int),
    decreases stops@.len() - i,
{
    proof {
        reveal_strlit(" ");
        assert(" "@ =~= seq![' ']);
        reveal_strlit("%");
        assert("%"@ =~= seq!['%']);
        reveal_strlit(",");
        assert(","@ =~= seq![',']);
    }
    let (c, p) = stops[i];
    let css = c.to_css_prop();
    s.append(css.as_str());
    s.append(" ");
    push_dec_i64(s, percent_value(p));
    s.append("%");
    if i < stops.len() - 1 {
        s.append(",");
        push_stops(s, stops, i + 1);
    }
    proof {
        assert(s@ =~= old(s)@ + stops_chars_from(stops@, i as int));
    }
}

impl Gradient {
    /// Create a new linear gradient.
    pub fn linear(rot: Rotation, colors: Vec<(UniformColor, Fraction)>) -> (g: Self)
        ensures
            g matches Gradient::Linear { rot: r, colors: c } && r == rot && c == colors,
    {
        Gradient::Linear { rot, colors }
    }

    /// Create a new radial gradient.
    pub fn radial(center: Vec2<Fraction>, colors: Vec<(UniformColor, Fraction)>) -> (g: Self)
        ensures
            g matches Gradient::Radial { center: p, colors: c } && p == center && c == colors,
    {
        Gradient::Radial { center, colors }
    }
}

impl CssProp for Gradient {
    /// Only linear gradients have a defined CSS text.
    open spec fn css_renderable(&self) -> bool {
        self matches Gradient::Linear { .. }
    }

    open spec fn css(&self) -> Seq<char> {
        match self {
            Gradient::Linear { rot, colors } => linear_css(rot@, colors@),
            Gradient::Radial { .. } => Seq::empty(),
        }
    }

    /// Renders a linear gradient; rendering a radial gradient is the
    /// one deliberately unimplemented path and fails fatally.
    fn to_css_prop(&self) -> (r: String) {
        match self {
            Gradient::Linear { rot, colors } => {
                if colors.len() == 0 {
                    String::new()
                } else {
                    let mut s = String::new();
                    s.append("linear-gradient(");
                    proof {
                        reveal_strlit("linear-gradient(");
                        assert("linear-gradient("@ =~= seq![
                            'l', 'i', 'n', 'e', 'a', 'r', '-', 'g', 'r', 'a', 'd', 'i', 'e',
                            'n', 't', '(',
                        ]);
                        reveal_strlit("deg, ");
                        assert("deg, "@ =~= seq!['d', 'e', 'g', ',', ' ']);
                        reveal_strlit(")");
                        assert(")"@ =~= seq![')']);
                    }
                    push_dec_u64(&mut s, degrees_value(rot));
                    s.append("deg, ");
                    push_stops(&mut s, colors, 0);
                    s.append(")");
                    proof {
                        assert(s@ =~= linear_css(rot@, colors@));
                    }
                    s
                }
            },
            Gradient::Radial { .. } => unreached(),
        }
    }
}

} // verus!
