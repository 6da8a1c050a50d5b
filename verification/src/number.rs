//! Whole numbers as text: an optional `+`, then decimal digits and nothing
//! else.

use vstd::prelude::*;
use vstd::slice::*;
use vstd::string::*;

verus! {

/// Whether the byte is an ASCII decimal digit.
pub open spec fn is_digit(b: u8) -> bool {
    48 <= b <= 57
}

/// The value of a digit; zero for any other byte.
pub open spec fn digit_value(b: u8) -> nat {
    if is_digit(b) {
        (b - 48) as nat
    } else {
        0
    }
}

/// Whether the bytes are digits throughout.
pub open spec fn all_digits(s: Seq<u8>) -> bool {
    forall|i: int| 0 <= i < s.len() ==> is_digit(#[trigger] s[i])
}

/// The number that the digits spell, most significant first.
pub open spec fn digits_value(s: Seq<u8>) -> nat
    decreases s.len(),
{
    if s.len() == 0 {
        0
    } else {
        digits_value(s.drop_last()) * 10 + digit_value(s.last())
    }
}

/// The text behind an optional leading `+`.
pub open spec fn unsigned_part(s: Seq<u8>) -> Seq<u8> {
    if s.len() > 0 && s[0] == 43 {
        s.drop_first()
    } else {
        s
    }
}

/// The number that a text spells, if it spells one that fits 32 bits: an
/// optional `+`, then at least one digit and nothing but digits. Leading
/// zeros are allowed; whitespace, a `-` and an empty text are not.
pub open spec fn parsed_u32(s: Seq<u8>) -> Option<u32> {
    let digits = unsigned_part(s);
    if digits.len() > 0 && all_digits(digits) && digits_value(digits) <= u32::MAX {
        Some(digits_value(digits) as u32)
    } else {
        None
    }
}

/// A longer run of digits spells no smaller a number than any of its prefixes.
pub proof fn lemma_digits_value_grows(s: Seq<u8>, k: int)
    requires
        0 <= k <= s.len(),
    ensures
        digits_value(s.take(k)) <= digits_value(s),
    decreases s.len(),
{
    if k == s.len() {
        assert(s.take(k) =~= s);
    } else {
        lemma_digits_value_grows(s.drop_last(), k);
        assert(s.drop_last().take(k) =~= s.take(k));
    }
}

/// Reads a whole number from bytes.
pub fn parse_u32_bytes(bytes: &[u8]) -> (r: Option<u32>)
    ensures
        r == parsed_u32(bytes@),
{
    let n: usize = bytes.len();
    let start: usize = if n > 0 && bytes[0] == 43 {
        1
    } else {
        0
    };
    if start == n {
        return None;
    }
    let ghost digits = unsigned_part(bytes@);
    let mut value: u64 = 0;
    let mut i: usize = start;
    while i < n
        invariant
            n == bytes.len(),
            start <= i <= n,
            digits == bytes@.subrange(start as int, n as int),
            digits == unsigned_part(bytes@),
            all_digits(digits.take(i - start)),
            value == digits_value(digits.take(i - start)),
            value <= u32::MAX,
        decreases n - i,
    {
        let b: u8 = bytes[i];
        let ghost before = digits.take(i - start);
        let ghost after = digits.take(i + 1 - start);
        assert(after.drop_last() =~= before);
        if b < 48 || b > 57 {
            assert(!is_digit(digits[i - start]));
            return None;
        }
        let next: u64 = value * 10 + (b - 48) as u64;
        if next > 0xFFFF_FFFF {
            proof {
                lemma_digits_value_grows(digits, i + 1 - start);
            }
            return None;
        }
        value = next;
        i = i + 1;
    }
    assert(digits.take(n - start) =~= digits);
    Some(value as u32)
}

/// Reads a whole number from a text.
pub fn parse_u32(text: &str) -> (r: Option<u32>)
    ensures
        r == parsed_u32(text.spec_bytes()),
{
    parse_u32_bytes(text.as_bytes())
}

} // verus!
