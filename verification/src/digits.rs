//! Base-10 digit strings: what a field's text means as a number.
//!
//! A field value is a (possibly empty) string of ASCII digits. Reading it as a
//! number follows the usual unsigned-parse convention: the base-10 value of a
//! non-empty all-digit string that fits in `u32`, and 0 for anything else
//! (empty, a non-digit present, or overflow).

use vstd::prelude::*;
use vstd::string::StrSliceExecFns;

verus! {

/// `c` is an ASCII decimal digit (`'0'` through `'9'`).
pub open spec fn is_digit(c: char) -> bool {
    48 <= c as u32 <= 57
}

/// Every character of `s` is an ASCII decimal digit.
pub open spec fn is_digit_seq(s: Seq<char>) -> bool {
    forall|i: int| 0 <= i < s.len() ==> is_digit(#[trigger] s[i])
}

/// Numeric value of a digit character; 0 for any other character.
pub open spec fn digit_val(c: char) -> nat {
    if is_digit(c) {
        (c as u32 - 48) as nat
    } else {
        0
    }
}

/// Value of a digit string read in base 10 (0 for the empty string).
pub open spec fn parse_digits(s: Seq<char>) -> nat
    decreases s.len(),
{
    if s.len() == 0 {
        0
    } else {
        parse_digits(s.drop_last()) * 10 + digit_val(s.last())
    }
}

/// What reading a field value as a `u32` yields: the base-10 value of a
/// non-empty all-digit string that fits in `u32`; 0 otherwise.
pub open spec fn spec_parse_u32(s: Seq<char>) -> u32 {
    if s.len() > 0 && is_digit_seq(s) && parse_digits(s) <= u32::MAX {
        parse_digits(s) as u32
    } else {
        0
    }
}

/// The digit character for a value 0 through 9 (`'0'` for anything larger).
pub open spec fn digit_char(d: nat) -> char {
    if d == 0 {
        '0'
    } else if d == 1 {
        '1'
    } else if d == 2 {
        '2'
    } else if d == 3 {
        '3'
    } else if d == 4 {
        '4'
    } else if d == 5 {
        '5'
    } else if d == 6 {
        '6'
    } else if d == 7 {
        '7'
    } else if d == 8 {
        '8'
    } else if d == 9 {
        '9'
    } else {
        '0'
    }
}

/// The canonical base-10 rendering of `n`: no leading zeros, except that 0
/// itself is rendered as `"0"`.
pub open spec fn decimal_digits(n: nat) -> Seq<char>
    decreases n,
{
    if n < 10 {
        seq![digit_char(n)]
    } else {
        decimal_digits(n / 10).push(digit_char(n % 10))
    }
}

/// A longer prefix of a digit string never reads as a smaller number.
proof fn lemma_parse_prefix_le(s: Seq<char>, i: int, j: int)
    requires
        0 <= i <= j <= s.len(),
    ensures
        parse_digits(s.subrange(0, i)) <= parse_digits(s.subrange(0, j)),
    decreases j - i,
{
    if i < j {
        lemma_parse_prefix_le(s, i, j - 1);
        assert(s.subrange(0, j).drop_last() =~= s.subrange(0, j - 1));
    }
}

/// The canonical rendering of any number is a non-empty digit string.
pub proof fn lemma_decimal_digits_wf(n: nat)
    ensures
        decimal_digits(n).len() >= 1,
        is_digit_seq(decimal_digits(n)),
    decreases n,
{
    if n < 10 {
        assert(is_digit(digit_char(n)));
    } else {
        lemma_decimal_digits_wf(n / 10);
        assert(is_digit(digit_char(n % 10)));
        assert(forall|i: int|
            0 <= i < decimal_digits(n).len() ==> is_digit(#[trigger] decimal_digits(n)[i]));
    }
}

/// Parsing inverts rendering: the canonical digit string of `n` reads back as `n`.
pub proof fn lemma_parse_decimal_digits(n: nat)
    ensures
        parse_digits(decimal_digits(n)) == n,
    decreases n,
{
    if n < 10 {
        assert(parse_digits(Seq::<char>::empty()) == 0);
        assert(decimal_digits(n).drop_last() =~= Seq::<char>::empty());
        assert(decimal_digits(n).last() == digit_char(n));
        assert(digit_val(digit_char(n)) == n);
    } else {
        lemma_parse_decimal_digits(n / 10);
        assert(decimal_digits(n).drop_last() =~= decimal_digits(n / 10));
        assert(decimal_digits(n).last() == digit_char(n % 10));
        assert(digit_val(digit_char(n % 10)) == n % 10);
    }
}

/// Round trip: writing a `u32` in decimal and reading it back yields the same
/// number.
pub proof fn lemma_parse_round_trip(n: u32)
    ensures
        spec_parse_u32(decimal_digits(n as nat)) == n,
{
    lemma_decimal_digits_wf(n as nat);
    lemma_parse_decimal_digits(n as nat);
}

/// Reads `s` as a base-10 `u32`; returns 0 when `s` is empty, holds any
/// non-digit character, or denotes a value above `u32::MAX`.
pub fn parse_value(s: &str) -> (r: u32)
    ensures
        r == spec_parse_u32(s@),
{
    let n = s.unicode_len();
    if n == 0 {
        return 0;
    }
    let mut acc: u64 = 0;
    let mut i: usize = 0;
    while i < n
        invariant
            0 < n == s@.len(),
            0 <= i <= n,
            forall|k: int| 0 <= k < i ==> is_digit(#[trigger] s@[k]),
            acc == parse_digits(s@.subrange(0, i as int)),
            acc <= u32::MAX,
        decreases n - i,
    {
        let c = s.get_char(i);
        let cu = c as u32;
        if cu < 48 || cu > 57 {
            assert(!is_digit(s@[i as int]));
            return 0;
        }
        let d: u64 = (cu - 48) as u64;
        let next: u64 = acc * 10 + d;
        proof {
            assert(s@.subrange(0, i + 1).drop_last() =~= s@.subrange(0, i as int));
            assert(s@.subrange(0, i + 1).last() == s@[i as int]);
        }
        if next > 0xffff_ffff {
            proof {
                lemma_parse_prefix_le(s@, i + 1, s@.len() as int);
                assert(s@.subrange(0, s@.len() as int) =~= s@);
            }
            return 0;
        }
        acc = next;
        i = i + 1;
    }
    proof {
        assert(s@.subrange(0, n as int) =~= s@);
    }
    acc as u32
}

} // verus!
