//! The bounded-integer prompt: reading an unsigned number from a line and
//! holding it to inclusive bounds.
use vstd::prelude::*;
use crate::text::{chars_of, trim, trimmed};

verus! {

/// Whether a character is an ASCII decimal digit.
pub open spec fn is_digit(c: char) -> bool {
    48 <= (c as u32) && (c as u32) <= 57
}

/// The value of a decimal digit.
pub open spec fn digit_value(c: char) -> nat {
    ((c as u32) - 48) as nat
}

/// Whether every character is a decimal digit.
pub open spec fn all_digits(s: Seq<char>) -> bool {
    forall|i: int| 0 <= i < s.len() ==> is_digit(#[trigger] s[i])
}

/// The value of a sequence of decimal digits, most significant first.
pub open spec fn digits_value(s: Seq<char>) -> nat
    decreases s.len(),
{
    if s.len() == 0 {
        0
    } else {
        digits_value(s.drop_last()) * 10 + digit_value(s.last())
    }
}

/// The digits of an unsigned number: the text without one leading `+`.
pub open spec fn unsigned_digits(s: Seq<char>) -> Seq<char> {
    if s.len() > 0 && s[0] == '+' {
        s.drop_first()
    } else {
        s
    }
}

/// The unsigned 32-bit number that a text stands for, in the form that
/// `u32::from_str` reads: an optional `+`, then one or more decimal digits,
/// leading zeros allowed, with a value that fits. Anything else, whitespace
/// included, stands for no number.
pub open spec fn parse_u32(s: Seq<char>) -> Option<u32> {
    let d = unsigned_digits(s);
    if d.len() > 0 && all_digits(d) && digits_value(d) <= u32::MAX {
        Some(digits_value(d) as u32)
    } else {
        None
    }
}

proof fn lemma_digits_value_grows(s: Seq<char>, k: int)
    requires
        0 <= k <= s.len(),
        all_digits(s),
    ensures
        digits_value(s.subrange(0, k)) <= digits_value(s),
    decreases s.len(),
{
    if k < s.len() {
        let t = s.drop_last();
        assert(all_digits(t)) by {
            assert forall|i: int| 0 <= i < t.len() implies is_digit(#[trigger] t[i]) by {
                assert(t[i] == s[i]);
            }
        }
        lemma_digits_value_grows(t, k);
        assert(t.subrange(0, k) =~= s.subrange(0, k));
    } else {
        assert(s.subrange(0, k) =~= s);
    }
}

/// Reads an unsigned 32-bit number from a text.
pub fn parse_u32_text(input: &str) -> (r: Option<u32>)
    ensures
        r == parse_u32(input@),
{
    let s = chars_of(input);
    let n = s.len();
    let start: usize = if n > 0 && s[0] == '+' {
        1
    } else {
        0
    };
    let ghost d = unsigned_digits(s@);
    assert(d =~= s@.subrange(start as int, n as int));
    if start >= n {
        return None;
    }
    let mut value: u64 = 0;
    let mut i: usize = start;
    while i < n
        invariant
            n == s@.len(),
            start <= i <= n,
            d == s@.subrange(start as int, n as int),
            s@ == input@,
            d == unsigned_digits(input@),
            all_digits(s@.subrange(start as int, i as int)),
            value == digits_value(s@.subrange(start as int, i as int)),
            value <= u32::MAX,
        decreases n - i,
    {
        let code = s[i] as u32;
        if code < 48 || code > 57 {
            assert(d[i - start] == s@[i as int]);
            return None;
        }
        let ghost before = s@.subrange(start as int, i as int);
        let ghost after = s@.subrange(start as int, i + 1);
        assert(after.drop_last() =~= before);
        assert(after.last() == s@[i as int]);
        value = value * 10 + (code - 48) as u64;
        assert(all_digits(after)) by {
            assert forall|k: int| 0 <= k < after.len() implies is_digit(#[trigger] after[k]) by {
                if k < before.len() {
                    assert(after[k] == before[k]);
                }
            }
        }
        if value > 4294967295 {
            proof {
                if all_digits(d) {
                    lemma_digits_value_grows(d, (i + 1 - start) as int);
                    assert(d.subrange(0, (i + 1 - start) as int) =~= after);
                }
            }
            return None;
        }
        i = i + 1;
    }
    assert(s@.subrange(start as int, i as int) =~= d);
    Some(value as u32)
}

/// Why a line was refused by the bounded-integer prompt.
#[derive(Clone, Copy, Debug, PartialEq, Eq, Structural)]
pub enum RangeError {
    /// The line is not an unsigned number.
    NotANumber,
    /// The number lies outside the bounds.
    OutOfBounds,
}

/// What a trimmed line gives under the bounds `min` and `max`, both included.
pub open spec fn range_outcome(input: Seq<char>, min: u32, max: u32) -> Result<u32, RangeError> {
    match parse_u32(input) {
        None => Err(RangeError::NotANumber),
        Some(v) => if min <= v && v <= max {
            Ok(v)
        } else {
            Err(RangeError::OutOfBounds)
        },
    }
}

/// Checks an already trimmed line against the bounds `min` and `max`, both
/// included.
pub fn check_range(input: &str, min: u32, max: u32) -> (r: Result<u32, RangeError>)
    ensures
        r == range_outcome(input@, min, max),
{
    match parse_u32_text(input) {
        None => Err(RangeError::NotANumber),
        Some(v) => if min <= v && v <= max {
            Ok(v)
        } else {
            Err(RangeError::OutOfBounds)
        },
    }
}

/// Checks one line as typed: it is trimmed, then read and held to the bounds.
pub fn range_from_line(line: &str, min: u32, max: u32) -> (r: Result<u32, RangeError>)
    ensures
        r == range_outcome(trimmed(line@), min, max),
{
    check_range(trim(line), min, max)
}

} // verus!
