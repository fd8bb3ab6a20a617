//! Unsigned decimal numbers written as ASCII digits.

use vstd::prelude::*;

verus! {

/// Whether `b` is one of the ASCII digits `0` to `9`.
pub open spec fn is_digit(b: u8) -> bool {
    0x30 <= b <= 0x39
}

/// Whether every byte of `s` is an ASCII digit.
pub open spec fn all_digits(s: Seq<u8>) -> bool {
    forall|i: int| 0 <= i < s.len() ==> is_digit(#[trigger] s[i])
}

/// The number that the digits `s` denote in base ten; the empty sequence denotes 0.
pub open spec fn decimal_value(s: Seq<u8>) -> nat
    decreases s.len(),
{
    if s.len() == 0 {
        0
    } else {
        (decimal_value(s.drop_last()) * 10 + (s.last() - 0x30)) as nat
    }
}

/// The value of a non-empty run of ASCII digits, or `None` where it exceeds
/// `usize::MAX`.
///
/// Calls `lexical::parse` for a `usize`. On a non-empty run of ASCII digits
/// that function reads the whole input, leading zeros included, as a number in
/// base ten, and fails only where the number does not fit the type.
#[verifier::external_body]
pub(crate) fn parse_decimal(digits: &[u8]) -> (r: Option<usize>)
    requires
        digits@.len() > 0,
        all_digits(digits@),
    ensures
        r == if decimal_value(digits@) <= usize::MAX {
            Some(decimal_value(digits@) as usize)
        } else {
            None
        },
{
    lexical::parse::<usize, &[u8]>(digits).ok()
}

} // verus!
