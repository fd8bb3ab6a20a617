//! Decimal numbers kept as they were written.

use vstd::prelude::*;
use vstd::string::*;
use vstd::utf8::*;
use crate::scan::{match_len, measure, Pattern};

verus! {

/// Whether `bytes` is a decimal literal: one or more digits, a point, one or
/// more digits. No sign, no exponent.
pub open spec fn is_decimal(bytes: Seq<u8>) -> bool {
    bytes.len() > 0 && match_len(Pattern::Pair(0x2e), bytes, 0) == bytes.len()
}

/// A number with a fractional part, such as a duration in seconds, held as
/// the decimal literal that denotes it.
///
/// The text of a `Decimal` is always a decimal literal.
#[derive(Debug, PartialEq)]
pub struct Decimal {
    text: String,
}

impl View for Decimal {
    type V = Seq<char>;

    /// The literal.
    closed spec fn view(&self) -> Seq<char> {
        self.text@
    }
}

impl Decimal {
    #[verifier::type_invariant]
    spec fn well_formed(&self) -> bool {
        is_decimal(encode_utf8(self.text@))
    }

    /// The number that `text` denotes, if `text` is a decimal literal.
    pub fn new(text: &str) -> (r: Option<Decimal>)
        ensures
            r is Some <==> is_decimal(text.spec_bytes()),
            r is Some ==> r->Some_0@ == text@,
    {
        let bytes = text.as_bytes();
        if bytes.len() > 0 && measure(Pattern::Pair(0x2e), bytes, 0) == bytes.len() {
            Some(Decimal { text: String::from_str(text) })
        } else {
            None
        }
    }

    /// The literal.
    pub fn as_str(&self) -> (text: &str)
        ensures
            text@ == self@,
            is_decimal(text.spec_bytes()),
    {
        proof {
            use_type_invariant(self);
        }
        self.text.as_str()
    }
}

} // verus!
