//! Character scanning used by the textual color parsers: finding a
//! character, splitting on commas, and reading a small decimal
//! integer.

use vstd::prelude::*;
use vstd::string::StrSliceExecFns;

verus! {

/// The index of the first occurrence of `c` in `s`, or -1 when `c`
/// does not occur.
pub open spec fn find_first(s: Seq<char>, c: char) -> int
    decreases s.len(),
{
    if s.len() == 0 {
        -1
    } else if s[0] == c {
        0
    } else {
        let r = find_first(s.drop_first(), c);
        if r < 0 {
            -1
        } else {
            r + 1
        }
    }
}

proof fn lemma_find_first_at(s: Seq<char>, c: char, i: int)
    requires
        0 <= i < s.len(),
        s[i] == c,
        forall|j: int| 0 <= j < i ==> s[j] != c,
    ensures
        find_first(s, c) == i,
    decreases s.len(),
{
    if i > 0 {
        lemma_find_first_at(s.drop_first(), c, i - 1);
    }
}

proof fn lemma_find_first_none(s: Seq<char>, c: char)
    requires
        forall|j: int| 0 <= j < s.len() ==> s[j] != c,
    ensures
        find_first(s, c) == -1,
    decreases s.len(),
{
    if s.len() > 0 {
        lemma_find_first_none(s.drop_first(), c);
    }
}

/// Scan for the first occurrence of `c` in `s`.
pub fn find_in(s: &str, c: char) -> (r: Option<usize>)
    ensures
        match r {
            Some(i) => find_first(s@, c) == i as int && i < s@.len() && s@[i as int] == c,
            None => find_first(s@, c) == -1,
        },
{
    let n = s.unicode_len();
    let mut i: usize = 0;
    while i < n
        invariant
            i <= n,
            n == s@.len(),
            forall|j: int| 0 <= j < i ==> s@[j] != c,
        decreases n - i,
    {
        if s.get_char(i) == c {
            proof {
                lemma_find_first_at(s@, c, i as int);
            }
            return Some(i);
        }
        i = i + 1;
    }
    proof {
        lemma_find_first_none(s@, c);
    }
    None
}

/// `s` split on every comma: the pieces between commas, in order,
/// each without the comma itself. A string without commas is one
/// piece; nothing is ever dropped, so an empty string is one empty
/// piece.
pub open spec fn split_commas(s: Seq<char>) -> Seq<Seq<char>>
    decreases s.len(),
{
    let i = find_first(s, ',');
    if i < 0 || i + 1 > s.len() {
        seq![s]
    } else {
        seq![s.subrange(0, i)] + split_commas(s.subrange(i + 1, s.len() as int))
    }
}

/// Split off the piece before the first comma. The second result is
/// the remainder behind that comma, or nothing when there is no
/// comma.
pub fn split_first<'a>(s: &'a str) -> (r: (&'a str, Option<&'a str>))
    ensures
        match r.1 {
            Some(rest) => split_commas(s@) == seq![r.0@] + split_commas(rest@),
            None => split_commas(s@) == seq![r.0@],
        },
{
    let n = s.unicode_len();
    match find_in(s, ',') {
        None => (s, None),
        Some(i) => {
            let head = s.substring_char(0, i);
            let rest = s.substring_char(i + 1, n);
            proof {
                assert(head@ =~= s@.subrange(0, find_first(s@, ',')));
                assert(rest@ =~= s@.subrange(find_first(s@, ',') + 1, s@.len() as int));
            }
            (head, Some(rest))
        },
    }
}

/// Whether every character of `s` is a decimal digit.
pub open spec fn all_digits(s: Seq<char>) -> bool {
    forall|i: int| 0 <= i < s.len() ==> 48 <= #[trigger] s[i] as u32 <= 57
}

/// The numeric value of a sequence of decimal digit characters.
pub open spec fn digits_value(s: Seq<char>) -> int
    decreases s.len(),
{
    if s.len() == 0 {
        0
    } else {
        digits_value(s.drop_last()) * 10 + (s.last() as u32 - 48)
    }
}

/// What parsing `s` as an 8-bit unsigned integer yields: an optional
/// leading '+', then at least one decimal digit, with a value of at
/// most 255; anything else is no value.
pub open spec fn parse_u8_spec(s: Seq<char>) -> Option<u8> {
    let body = if s.len() > 0 && s[0] == '+' {
        s.drop_first()
    } else {
        s
    };
    if body.len() > 0 && all_digits(body) && digits_value(body) <= 255 {
        Some(digits_value(body) as u8)
    } else {
        None
    }
}

proof fn lemma_digits_value_nonneg(s: Seq<char>)
    requires
        all_digits(s),
    ensures
        digits_value(s) >= 0,
    decreases s.len(),
{
    if s.len() > 0 {
        assert(all_digits(s.drop_last()));
        lemma_digits_value_nonneg(s.drop_last());
    }
}

proof fn lemma_digits_value_monotone(s: Seq<char>, k: int)
    requires
        all_digits(s),
        0 <= k <= s.len(),
    ensures
        digits_value(s) >= digits_value(s.take(k)),
    decreases s.len(),
{
    if k < s.len() {
        assert(all_digits(s.drop_last()));
        assert(s.drop_last().take(k) =~= s.take(k));
        lemma_digits_value_monotone(s.drop_last(), k);
        lemma_digits_value_nonneg(s.drop_last());
    } else {
        assert(s.take(k) =~= s);
    }
}

/// Parse `s` as an 8-bit unsigned integer, as the decimal integer
/// parser of the standard library would.
pub fn parse_u8_str(s: &str) -> (r: Option<u8>)
    ensures
        r == parse_u8_spec(s@),
{
    let n = s.unicode_len();
    let mut i: usize = 0;
    if n > 0 && s.get_char(0) == '+' {
        i = 1;
    }
    let ghost body = s@.subrange(i as int, n as int);
    proof {
        if i == 1 {
            assert(body =~= s@.drop_first());
        } else {
            assert(body =~= s@);
        }
    }
    if i >= n {
        return None;
    }
    let mut acc: u32 = 0;
    let mut j: usize = i;
    while j < n
        invariant
            i <= j <= n,
            n == s@.len(),
            body == s@.subrange(i as int, n as int),
            body == (if s@.len() > 0 && s@[0] == '+' {
                s@.drop_first()
            } else {
                s@
            }),
            all_digits(s@.subrange(i as int, j as int)),
            acc as int == digits_value(s@.subrange(i as int, j as int)),
            acc <= 255,
        decreases n - j,
    {
        let c = s.get_char(j);
        let u = c as u32;
        if u < 48 || u > 57 {
            proof {
                assert(body[j - i] == s@[j as int]);
                assert(!all_digits(body));
            }
            return None;
        }
        let na: u32 = acc * 10 + (u - 48);
        proof {
            assert(s@.subrange(i as int, j + 1).drop_last() =~= s@.subrange(i as int, j as int));
            assert(s@.subrange(i as int, j + 1).last() == s@[j as int]);
        }
        if na > 255 {
            proof {
                let done = s@.subrange(i as int, j + 1);
                assert(body.take(j + 1 - i) =~= done);
                if all_digits(body) {
                    lemma_digits_value_monotone(body, j + 1 - i);
                    assert(digits_value(body) > 255);
                }
            }
            return None;
        }
        acc = na;
        j = j + 1;
    }
    proof {
        assert(s@.subrange(i as int, j as int) =~= body);
    }
    Some(acc as u8)
}

} // verus!
