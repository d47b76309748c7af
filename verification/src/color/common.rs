//! The named palette: a fixed, read-only set of named colors.

use vstd::prelude::*;
use crate::color::alpha_color::AlphaColor;
use crate::color::solid_color::SolidColor;
use crate::fraction::Fraction;

verus! {

/// Pure black.
pub fn black() -> (c: SolidColor)
    ensures
        c@ == (0u8, 0u8, 0u8),
{
    SolidColor::rgb(0, 0, 0)
}

/// Pure red.
pub fn red() -> (c: SolidColor)
    ensures
        c@ == (255u8, 0u8, 0u8),
{
    SolidColor::rgb(255, 0, 0)
}

/// Pure green.
pub fn green() -> (c: SolidColor)
    ensures
        c@ == (0u8, 255u8, 0u8),
{
    SolidColor::rgb(0, 255, 0)
}

/// Pure blue.
pub fn blue() -> (c: SolidColor)
    ensures
        c@ == (0u8, 0u8, 255u8),
{
    SolidColor::rgb(0, 0, 255)
}

/// Pure white.
pub fn white() -> (c: SolidColor)
    ensures
        c@ == (255u8, 255u8, 255u8),
{
    SolidColor::rgb(255, 255, 255)
}

/// Middle gray.
pub fn gray() -> (c: SolidColor)
    ensures
        c@ == (128u8, 128u8, 128u8),
{
    SolidColor::rgb(128, 128, 128)
}

/// Yellow.
pub fn yellow() -> (c: SolidColor)
    ensures
        c@ == (255u8, 255u8, 0u8),
{
    SolidColor::rgb(255, 255, 0)
}

/// Cyan.
pub fn cyan() -> (c: SolidColor)
    ensures
        c@ == (0u8, 255u8, 255u8),
{
    SolidColor::rgb(0, 255, 255)
}

/// Magenta.
pub fn magenta() -> (c: SolidColor)
    ensures
        c@ == (255u8, 0u8, 255u8),
{
    SolidColor::rgb(255, 0, 255)
}

/// Fully transparent black. Zero is statically a valid alpha, so the
/// unchecked conversion applies.
pub fn transparent() -> (c: AlphaColor)
    ensures
        c@ == (0u8, 0u8, 0u8, 0int),
{
    SolidColor::rgb(0, 0, 0).with_alpha_unchecked(Fraction::zero())
}

} // verus!
