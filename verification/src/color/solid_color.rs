//! A fully opaque RGB color.

use vstd::prelude::*;
use vstd::string::{StrSliceExecFns, StringExecFns};
use crate::color::alpha_color::{alpha_range_msg, AlphaColor};
use crate::color::parse::{find_first, find_in, parse_u8_spec, parse_u8_str, split_commas, split_first};
use crate::color::{ColorResult, ColoringError, CssProp};
use crate::digits::dec_digits;
use crate::digits::push_dec_u64;
use crate::fraction::Fraction;

verus! {

/// A simple RGB color, each channel an 8-bit value. Its view is the
/// (r, g, b) triple.
#[derive(Clone, Copy, Debug, PartialEq, Eq, Structural)]
pub struct SolidColor {
    /// red
    r: u8,
    /// green
    g: u8,
    /// blue
    b: u8,
}

impl View for SolidColor {
    type V = (u8, u8, u8);

    closed spec fn view(&self) -> (u8, u8, u8) {
        (self.r, self.g, self.b)
    }
}

/// Two solid colors are equal exactly when their views are.
pub proof fn lemma_solid_color_eq(a: SolidColor, b: SolidColor)
    ensures
        (a == b) <==> (a@ == b@),
{
}

/// The view of an optional color, for the parser contracts.
pub open spec fn opt_color_view(o: Option<SolidColor>) -> Option<(u8, u8, u8)> {
    match o {
        Some(c) => Some(c@),
        None => None,
    }
}

/// The CSS text of a solid color: `rgb(R,G,B)` with decimal channel
/// values and no spaces.
pub open spec fn solid_css(v: (u8, u8, u8)) -> Seq<char> {
    seq!['r', 'g', 'b', '('] + dec_digits(v.0 as int) + seq![','] + dec_digits(v.1 as int)
        + seq![','] + dec_digits(v.2 as int) + seq![')']
}

/// The numeric value of one hexadecimal digit character, upper or
/// lower case, or -1 for any other character.
pub open spec fn hex_digit_value(c: char) -> int {
    let u = c as u32;
    if 48 <= u <= 57 {
        u - 48
    } else if 97 <= u <= 102 {
        u - 87
    } else if 65 <= u <= 70 {
        u - 55
    } else {
        -1
    }
}

/// `s` without its leading '#' characters.
pub open spec fn skip_hashes(s: Seq<char>) -> Seq<char>
    decreases s.len(),
{
    if s.len() > 0 && s[0] == '#' {
        skip_hashes(s.drop_first())
    } else {
        s
    }
}

/// What parsing `s` as a six-digit hex color yields: after any
/// leading '#' characters, exactly six hexadecimal digits are read,
/// two per channel in the order r, g, b, and anything behind them is
/// ignored. Fewer than six digits, or a non-hex character among the
/// first six, yields no value.
pub open spec fn from_hex_spec(s: Seq<char>) -> Option<(u8, u8, u8)> {
    let t = skip_hashes(s);
    if t.len() >= 6 && (forall|i: int| 0 <= i < 6 ==> hex_digit_value(#[trigger] t[i]) >= 0) {
        Some(
            (
                (hex_digit_value(t[0]) * 16 + hex_digit_value(t[1])) as u8,
                (hex_digit_value(t[2]) * 16 + hex_digit_value(t[3])) as u8,
                (hex_digit_value(t[4]) * 16 + hex_digit_value(t[5])) as u8,
            ),
        )
    } else {
        None
    }
}

/// What parsing `s` as a color function string yields: the text
/// between the first '(' and the first ')' is split on commas, and
/// the first three pieces are read as decimal channel values; extra
/// pieces are ignored. A missing bracket, a ')' before the '(', or a
/// piece that is no 8-bit integer yields no value.
pub open spec fn from_color_string_spec(s: Seq<char>) -> Option<(u8, u8, u8)> {
    let open = find_first(s, '(');
    let close = find_first(s, ')');
    if open < 0 || close < 0 || close < open + 1 {
        None
    } else {
        parse_three(split_commas(s.subrange(open + 1, close)))
    }
}

/// The first three comma-separated pieces read as channel values.
pub open spec fn parse_three(toks: Seq<Seq<char>>) -> Option<(u8, u8, u8)> {
    if toks.len() < 3 {
        None
    } else {
        match (parse_u8_spec(toks[0]), parse_u8_spec(toks[1]), parse_u8_spec(toks[2])) {
            (Some(r), Some(g), Some(b)) => Some((r, g, b)),
            _ => None,
        }
    }
}

/// The numeric value of one hexadecimal digit character, or nothing.
fn hex_digit(c: char) -> (r: Option<u8>)
    ensures
        match r {
            Some(v) => hex_digit_value(c) == v as int,
            None => hex_digit_value(c) < 0,
        },
{
    let u = c as u32;
    if 48 <= u && u <= 57 {
        Some((u - 48) as u8)
    } else if 97 <= u && u <= 102 {
        Some((u - 87) as u8)
    } else if 65 <= u && u <= 70 {
        Some((u - 55) as u8)
    } else {
        None
    }
}

impl SolidColor {
    /// Create a new RGB color.
    pub fn rgb(r: u8, g: u8, b: u8) -> (c: Self)
        ensures
            c@ == (r, g, b),
    {
        Self { r, g, b }
    }

    /// Convert to an RGBA color with the given alpha. Fails with
    /// `CantConvert` exactly when the alpha lies outside [0, 1].
    pub fn with_alpha(self, a: Fraction) -> (res: ColorResult<AlphaColor>)
        ensures
            0 <= a@ <= 1_000_000 ==> (res matches Ok(c) && c@ == (self@.0, self@.1, self@.2, a@)),
            !(0 <= a@ <= 1_000_000) ==> (res matches Err(e) && e matches
                ColoringError::CantConvert(m) && m@ == "The property "@ + alpha_range_msg()
                + " is invalid."@),
    {
        match AlphaColor::rgba(self.r, self.g, self.b, a) {
            Ok(c) => Ok(c),
            Err(e) => Err(ColoringError::conversion(e.message())),
        }
    }

    /// The color as an (r, g, b) tuple.
    pub fn as_rgb(&self) -> (t: (u8, u8, u8))
        ensures
            t == self@,
    {
        (self.r, self.g, self.b)
    }

    /// Convert to an RGBA color without checking the alpha range.
    /// Must only be called with an alpha statically known to lie in
    /// [0, 1].
    pub(crate) fn with_alpha_unchecked(self, a: Fraction) -> (c: AlphaColor)
        requires
            0 <= a@ <= 1_000_000,
        ensures
            c@ == (self@.0, self@.1, self@.2, a@),
    {
        AlphaColor::rgba_unchecked(self.r, self.g, self.b, a)
    }

    /// Create an RGB color from a hex string, optionally prefixed
    /// with '#'. Returns nothing if the string does not start with
    /// six hex digits; anything behind them is ignored.
    pub fn from_hex(hex: &str) -> (res: Option<Self>)
        ensures
            opt_color_view(res) == from_hex_spec(hex@),
    {
        let n = hex.unicode_len();
        let mut i: usize = 0;
        proof {
            assert(hex@.skip(0) =~= hex@);
        }
        while i < n && hex.get_char(i) == '#'
            invariant
                i <= n,
                n == hex@.len(),
                skip_hashes(hex@) == skip_hashes(hex@.skip(i as int)),
            decreases n - i,
        {
            proof {
                assert(hex@.skip(i as int).drop_first() =~= hex@.skip(i + 1));
            }
            i = i + 1;
        }
        let ghost t = skip_hashes(hex@);
        proof {
            assert(t == hex@.skip(i as int));
        }
        if n - i < 6 {
            return None;
        }
        let v0 = match hex_digit(hex.get_char(i)) {
            Some(v) => v,
            None => {
                return None;
            },
        };
        let v1 = match hex_digit(hex.get_char(i + 1)) {
            Some(v) => v,
            None => {
                return None;
            },
        };
        let v2 = match hex_digit(hex.get_char(i + 2)) {
            Some(v) => v,
            None => {
                return None;
            },
        };
        let v3 = match hex_digit(hex.get_char(i + 3)) {
            Some(v) => v,
            None => {
                return None;
            },
        };
        let v4 = match hex_digit(hex.get_char(i + 4)) {
            Some(v) => v,
            None => {
                return None;
            },
        };
        let v5 = match hex_digit(hex.get_char(i + 5)) {
            Some(v) => v,
            None => {
                return None;
            },
        };
        let r: u8 = v0 * 16 + v1;
        let g: u8 = v2 * 16 + v3;
        let b: u8 = v4 * 16 + v5;
        Some(Self { r, g, b })
    }

    /// Parse a string of the form `name(r,g,b)`: the text between
    /// the first '(' and the first ')' is split on commas and the
    /// first three pieces are read as decimal channel values; extra
    /// pieces are ignored.
    pub fn from_color_string(text: &str) -> (res: Option<Self>)
        ensures
            opt_color_view(res) == from_color_string_spec(text@),
    {
        let n = text.unicode_len();
        let open = match find_in(text, '(') {
            Some(i) => i,
            None => {
                return None;
            },
        };
        let close = match find_in(text, ')') {
            Some(i) => i,
            None => {
                return None;
            },
        };
        if close < open + 1 {
            return None;
        }
        let inner = text.substring_char(open + 1, close);
        let (t0, rest0) = split_first(inner);
        let rest0 = match rest0 {
            Some(x) => x,
            None => {
                return None;
            },
        };
        let (t1, rest1) = split_first(rest0);
        let rest1 = match rest1 {
            Some(x) => x,
            None => {
                return None;
            },
        };
        let (t2, _rest2) = split_first(rest1);
        proof {
            let toks = split_commas(inner@);
            assert(toks.len() >= 3);
            assert(toks[0] == t0@);
            assert(toks[1] == t1@);
            assert(toks[2] == t2@);
        }
        let r = match parse_u8_str(t0) {
            Some(v) => v,
            None => {
                return None;
            },
        };
        let g = match parse_u8_str(t1) {
            Some(v) => v,
            None => {
                return None;
            },
        };
        let b = match parse_u8_str(t2) {
            Some(v) => v,
            None => {
                return None;
            },
        };
        Some(Self { r, g, b })
    }
}

impl CssProp for SolidColor {
    open spec fn css_renderable(&self) -> bool {
        true
    }

    open spec fn css(&self) -> Seq<char> {
        solid_css(self@)
    }

    /// Renders as `rgb(R,G,B)`.
    fn to_css_prop(&self) -> (r: String) {
        let mut s = String::new();
        s.append("rgb(");
        proof {
            reveal_strlit("rgb(");
            assert("rgb("@ =~= seq!['r', 'g', 'b', '(']);
            reveal_strlit(",");
            assert(","@ =~= seq![',']);
            reveal_strlit(")");
            assert(")"@ =~= seq![')']);
        }
        push_dec_u64(&mut s, self.r as u64);
        s.append(",");
        push_dec_u64(&mut s, self.g as u64);
        s.append(",");
        push_dec_u64(&mut s, self.b as u64);
        s.append(")");
        proof {
            assert(s@ =~= solid_css(self@));
        }
        s
    }
}

/// The lower-case hexadecimal digit character for a value below 16.
pub open spec fn hex_digit_char(d: int) -> char {
    if d == 0 {
        '0'
    } else if d == 1 {
        '1'
    } else if d == 2 {
        '2'
    } else if d == 3 {
        '3'
    } else if d == 4 {
        '4'
    } else if d == 5 {
        '5'
    } else if d == 6 {
        '6'
    } else if d == 7 {
        '7'
    } else if d == 8 {
        '8'
    } else if d == 9 {
        '9'
    } else if d == 10 {
        'a'
    } else if d == 11 {
        'b'
    } else if d == 12 {
        'c'
    } else if d == 13 {
        'd'
    } else if d == 14 {
        'e'
    } else {
        'f'
    }
}

/// The six lower-case hex digits of a byte triple, two per channel in
/// the order r, g, b.
pub open spec fn hex6(r: u8, g: u8, b: u8) -> Seq<char> {
    seq![
        hex_digit_char(r as int / 16),
        hex_digit_char(r as int % 16),
        hex_digit_char(g as int / 16),
        hex_digit_char(g as int % 16),
        hex_digit_char(b as int / 16),
        hex_digit_char(b as int % 16),
    ]
}

proof fn lemma_hex_char_value(d: int)
    requires
        0 <= d < 16,
    ensures
        hex_digit_value(hex_digit_char(d)) == d,
{
}

/// Parsing the six hex digits of a byte triple gives that triple
/// back: the hex form round-trips for every color.
pub proof fn lemma_from_hex_round_trip(r: u8, g: u8, b: u8)
    ensures
        from_hex_spec(hex6(r, g, b)) == Some((r, g, b)),
{
    let s = hex6(r, g, b);
    lemma_hex_char_value(r as int / 16);
    lemma_hex_char_value(r as int % 16);
    lemma_hex_char_value(g as int / 16);
    lemma_hex_char_value(g as int % 16);
    lemma_hex_char_value(b as int / 16);
    lemma_hex_char_value(b as int % 16);
    assert(hex_digit_value(s[0]) >= 0);
    assert(s[0] != '#');
    assert(skip_hashes(s) == s);
    assert(hex_digit_value(s[0]) * 16 + hex_digit_value(s[1]) == r as int);
    assert(hex_digit_value(s[2]) * 16 + hex_digit_value(s[3]) == g as int);
    assert(hex_digit_value(s[4]) * 16 + hex_digit_value(s[5]) == b as int);
}

/// A single leading '#' does not change what a hex string parses to.
pub proof fn lemma_from_hex_hash_prefix(s: Seq<char>)
    ensures
        from_hex_spec(seq!['#'] + s) == from_hex_spec(s),
{
    assert((seq!['#'] + s)[0] == '#');
    assert((seq!['#'] + s).drop_first() =~= s);
}

/// A string with fewer than six characters after its '#' prefix, or
/// with a character among the first six that is no hex digit, parses
/// to nothing.
pub proof fn lemma_from_hex_rejects(s: Seq<char>)
    requires
        skip_hashes(s).len() < 6 || exists|i: int|
            0 <= i < 6 && hex_digit_value(#[trigger] skip_hashes(s)[i]) < 0,
    ensures
        from_hex_spec(s) == None::<(u8, u8, u8)>,
{
}

} // verus!
