//! A fixed-point decimal number with six fractional digits.
//!
//! Alpha channels, gradient stop offsets and rotation angles are
//! fractional quantities; this type holds them as a signed count of
//! millionths, so that their arithmetic and rendering are exact.

use vstd::prelude::*;
use vstd::string::StringExecFns;
use crate::digits::{dec_digits, digit_char, pad_digits, pow10, push_dec_u64, push_padded, trim_zeros};

verus! {

/// Micro-units in one whole unit.
pub const MICROS_PER_UNIT: i64 = 1_000_000;

/// A decimal number with six fractional digits, stored as a signed
/// count of millionths. Its view is that count, so a value of one
/// half views as 500000.
#[derive(Clone, Copy, Debug, PartialEq, Eq, Structural)]
pub struct Fraction {
    /// The signed count of millionths.
    pub micros: i64,
}

impl View for Fraction {
    type V = int;

    open spec fn view(&self) -> int {
        self.micros as int
    }
}

impl Fraction {
    /// The value `micros / 1000000`.
    pub fn from_micros(micros: i64) -> (r: Fraction)
        ensures
            r@ == micros as int,
    {
        Fraction { micros }
    }

    /// The whole number `units`.
    pub fn whole(units: i64) -> (r: Fraction)
        requires
            i64::MIN as int <= units * 1_000_000 <= i64::MAX as int,
        ensures
            r@ == units * 1_000_000,
    {
        Fraction { micros: units * MICROS_PER_UNIT }
    }

    /// Zero.
    pub fn zero() -> (r: Fraction)
        ensures
            r@ == 0,
    {
        Fraction { micros: 0 }
    }

    /// One.
    pub fn one() -> (r: Fraction)
        ensures
            r@ == 1_000_000,
    {
        Fraction { micros: MICROS_PER_UNIT }
    }

}

/// The decimal rendering of the non-negative value `m / 1000000`:
/// the whole part, then, when the fractional part is not zero, a
/// point and the six fractional digits with trailing zeros dropped.
pub open spec fn unsigned_fraction_chars(m: int) -> Seq<char> {
    let whole = m / 1_000_000;
    let frac = m % 1_000_000;
    if frac == 0 {
        dec_digits(whole)
    } else {
        dec_digits(whole) + seq!['.'] + trim_zeros(pad_digits(frac, 6))
    }
}

/// The decimal rendering of the value `m / 1000000`, as default
/// floating-point formatting prints a number with at most six decimal
/// places: a '-' sign when negative, no point when the fractional
/// part is zero, trailing zeros dropped otherwise.
pub open spec fn fraction_chars(m: int) -> Seq<char> {
    if m < 0 {
        seq!['-'] + unsigned_fraction_chars(-m)
    } else {
        unsigned_fraction_chars(m)
    }
}

proof fn lemma_trim_shift(m: int, k: nat)
    requires
        0 < m,
        m % 10 == 0,
        1 <= k,
        m < pow10(k),
    ensures
        2 <= k,
        m / 10 < pow10((k - 1) as nat),
        0 < m / 10,
        trim_zeros(pad_digits(m, k)) == trim_zeros(pad_digits(m / 10, (k - 1) as nat)),
{
    assert(pow10(0) == 1);
    assert(pow10(1) == 10);
    assert(m >= 10);
    assert(2 <= k);
    assert(pow10(k) == 10 * pow10((k - 1) as nat));
    assert(m / 10 < pow10((k - 1) as nat)) by (nonlinear_arith)
        requires
            m < 10 * pow10((k - 1) as nat),
            m >= 10,
    ;
    let a = pad_digits(m / 10, (k - 1) as nat);
    assert(pad_digits(m, k) == a + seq![digit_char(0)]);
    assert((a + seq!['0']).last() == '0');
    assert((a + seq!['0']).drop_last() =~= a);
    assert(trim_zeros(pad_digits(m, k)) == trim_zeros(a));
}

proof fn lemma_trim_stable(m: int, k: nat)
    requires
        0 <= m,
        m % 10 != 0,
        1 <= k,
    ensures
        trim_zeros(pad_digits(m, k)) == pad_digits(m, k),
{
    let a = pad_digits(m / 10, (k - 1) as nat);
    assert(pad_digits(m, k) == a + seq![digit_char(m % 10)]);
    assert(pad_digits(m, k).last() == digit_char(m % 10));
    assert(digit_char(m % 10) != '0');
}

/// Append the six-digit fractional part of a value, with its trailing
/// zeros dropped.
fn push_fraction_digits(s: &mut String, frac: u64)
    requires
        0 < frac < 1_000_000,
    ensures
        final(s)@ == old(s)@ + trim_zeros(pad_digits(frac as int, 6)),
{
    let mut f: u64 = frac;
    let mut k: u64 = 6;
    proof {
        assert(pow10(0) == 1);
        assert(pow10(1) == 10);
        assert(pow10(2) == 100);
        assert(pow10(3) == 1000);
        assert(pow10(4) == 10000);
        assert(pow10(5) == 100000);
        assert(pow10(6) == 1000000);
    }
    while f % 10 == 0
        invariant
            0 < f,
            1 <= k <= 6,
            (f as int) < pow10(k as nat),
            trim_zeros(pad_digits(frac as int, 6)) == trim_zeros(pad_digits(f as int, k as nat)),
        decreases k,
    {
        proof {
            lemma_trim_shift(f as int, k as nat);
        }
        f = f / 10;
        k = k - 1;
    }
    proof {
        lemma_trim_stable(f as int, k as nat);
    }
    push_padded(s, f, k);
}

/// Append the decimal rendering of a fixed-point value.
pub fn push_fraction(s: &mut String, x: Fraction)
    ensures
        final(s)@ == old(s)@ + fraction_chars(x@),
{
    let m: i128 = x.micros as i128;
    let um: u64 = if m < 0 {
        s.append("-");
        proof {
            reveal_strlit("-");
            assert("-"@ =~= seq!['-']);
        }
        (-m) as u64
    } else {
        m as u64
    };
    proof {
        assert(um as int == if x@ < 0 { -x@ } else { x@ });
    }
    let whole: u64 = um / 1_000_000;
    let frac: u64 = um % 1_000_000;
    push_dec_u64(s, whole);
    if frac > 0 {
        s.append(".");
        proof {
            reveal_strlit(".");
            assert("."@ =~= seq!['.']);
        }
        push_fraction_digits(s, frac);
    }
    proof {
        assert(s@ =~= old(s)@ + fraction_chars(x@));
    }
}

} // verus!
