//! Small verified text helpers: prefix tests and decimal parsing.

use vstd::prelude::*;
use vstd::string::*;

verus! {

/// `prefix` is a prefix of `s`.
pub open spec fn is_prefix_of(prefix: Seq<char>, s: Seq<char>) -> bool {
    prefix.len() <= s.len() && s.subrange(0, prefix.len() as int) == prefix
}

/// The characters of an optional text.
pub open spec fn opt_text(o: Option<String>) -> Option<Seq<char>> {
    match o {
        Some(s) => Some(s@),
        None => None,
    }
}

/// Tests whether `s` begins with `prefix`, character by character.
pub fn starts_with(s: &str, prefix: &str) -> (r: bool)
    ensures
        r == is_prefix_of(prefix@, s@),
{
    let n = s.unicode_len();
    let m = prefix.unicode_len();
    if m > n {
        return false;
    }
    let mut i: usize = 0;
    while i < m
        invariant
            n == s@.len(),
            m == prefix@.len(),
            m <= n,
            i <= m,
            forall|j: int| 0 <= j < i ==> s@[j] == prefix@[j],
        decreases m - i,
    {
        if s.get_char(i) != prefix.get_char(i) {
            assert(s@.subrange(0, m as int)[i as int] != prefix@[i as int]);
            return false;
        }
        i = i + 1;
    }
    assert(s@.subrange(0, m as int) =~= prefix@);
    true
}

/// Tests whether two strings hold the same characters.
pub fn equal(a: &str, b: &str) -> (r: bool)
    ensures
        r == (a@ == b@),
{
    if a.unicode_len() != b.unicode_len() {
        return false;
    }
    let r = starts_with(a, b);
    assert(a@ =~= a@.subrange(0, a@.len() as int));
    r
}

/// An ASCII decimal digit.
pub open spec fn is_decimal_digit(c: char) -> bool {
    '0' <= c && c <= '9'
}

/// The value of one decimal digit character.
pub open spec fn digit_value(c: char) -> nat {
    (c as int - '0' as int) as nat
}

/// The value of a string of decimal digits, most significant first.
pub open spec fn decimal_value(ds: Seq<char>) -> nat
    decreases ds.len(),
{
    if ds.len() == 0 {
        0
    } else {
        decimal_value(ds.drop_last()) * 10 + digit_value(ds.last())
    }
}

/// The digits that follow an optional leading `+`.
pub open spec fn unsigned_digits(s: Seq<char>) -> Seq<char> {
    if s.len() > 0 && s[0] == '+' {
        s.skip(1)
    } else {
        s
    }
}

/// What `str::parse::<u16>` accepts: an optional `+`, then at least one
/// decimal digit and nothing else, denoting a value that fits in 16 bits.
pub open spec fn parsed_u16(s: Seq<char>) -> Option<u16> {
    let ds = unsigned_digits(s);
    if ds.len() > 0 && (forall|i: int| 0 <= i < ds.len() ==> is_decimal_digit(#[trigger] ds[i]))
        && decimal_value(ds) <= 0xffff {
        Some(decimal_value(ds) as u16)
    } else {
        None
    }
}

/// Parses an unsigned 16-bit decimal number with the rules of
/// `str::parse::<u16>`.
pub fn parse_u16(s: &str) -> (r: Option<u16>)
    ensures
        r == parsed_u16(s@),
{
    let n = s.unicode_len();
    let start: usize = if n > 0 && s.get_char(0) == '+' { 1 } else { 0 };
    let ghost ds = unsigned_digits(s@);
    assert(ds =~= s@.skip(start as int));
    if start == n {
        return None;
    }
    // `acc` is the value read so far, or 65536 once it no longer fits.
    let mut acc: u32 = 0;
    let mut i: usize = start;
    while i < n
        invariant
            n == s@.len(),
            start <= i <= n,
            ds =~= s@.skip(start as int),
            ds == unsigned_digits(s@),
            forall|j: int| 0 <= j < i - start ==> is_decimal_digit(#[trigger] ds[j]),
            acc == (if decimal_value(ds.take(i - start)) > 0xffff {
                0x10000
            } else {
                decimal_value(ds.take(i - start))
            }),
        decreases n - i,
    {
        let c = s.get_char(i);
        if c < '0' || c > '9' {
            assert(ds[i - start] == c);
            assert(!is_decimal_digit(ds[i - start]));
            return None;
        }
        let d: u32 = (c as u32) - ('0' as u32);
        let ghost k: int = i - start;
        assert(ds.take(k + 1).drop_last() =~= ds.take(k));
        assert(ds.take(k + 1).last() == c);
        if acc > 0xffff {
            acc = 0x10000;
        } else {
            acc = acc * 10 + d;
            if acc > 0xffff {
                acc = 0x10000;
            }
        }
        i = i + 1;
    }
    assert(ds.take(n - start) =~= ds);
    if acc > 0xffff {
        None
    } else {
        Some(acc as u16)
    }
}

} // verus!
