//! Reading integers from decimal text.

use vstd::prelude::*;
use crate::text::{decimal, digit_char, signed_decimal};

verus! {

/// Why a text was not accepted as an integer.
#[derive(Clone, Copy, Debug, PartialEq, Eq, Structural)]
pub enum ParseIntFailure {
    /// The text was empty.
    Empty,
    /// A character that is no digit stood where a digit was expected.
    InvalidDigit,
    /// The number is above the largest value of the type.
    PosOverflow,
    /// The number is below the smallest value of the type.
    NegOverflow,
    /// A reason that this library does not tell apart.
    Other,
}

/// `c` is one of `0` to `9`.
pub open spec fn is_digit(c: char) -> bool {
    48 <= c as u32 <= 57
}

/// The value of the digit `c`.
pub open spec fn digit_value(c: char) -> int
    recommends
        is_digit(c),
{
    (c as u32) as int - 48
}

/// Every character of `s` is a digit.
pub open spec fn all_digits(s: Seq<char>) -> bool {
    forall|i: int| 0 <= i < s.len() ==> is_digit(#[trigger] s[i])
}

/// The number that the digits `s` write, most significant digit first.
pub open spec fn digits_value(s: Seq<char>) -> int
    decreases s.len(),
{
    if s.len() == 0 {
        0
    } else {
        10 * digits_value(s.drop_last()) + digit_value(s.last())
    }
}

/// The number written by an optional `+` followed by at least one digit, and
/// nothing else.
pub open spec fn unsigned_literal(s: Seq<char>) -> Option<int> {
    let digits = if s.len() > 0 && s[0] == '+' {
        s.skip(1)
    } else {
        s
    };
    if digits.len() > 0 && all_digits(digits) {
        Some(digits_value(digits))
    } else {
        None
    }
}

/// The number written by an optional `+` or `-` followed by at least one
/// digit, and nothing else.
pub open spec fn signed_literal(s: Seq<char>) -> Option<int> {
    if s.len() > 0 && s[0] == '-' {
        let digits = s.skip(1);
        if digits.len() > 0 && all_digits(digits) {
            Some(-digits_value(digits))
        } else {
            None
        }
    } else {
        unsigned_literal(s)
    }
}

/// A number written in decimal reads back as itself.
pub proof fn lemma_decimal_reads_back(n: nat)
    ensures
        decimal(n).len() > 0,
        all_digits(decimal(n)),
        digits_value(decimal(n)) == n,
        unsigned_literal(decimal(n)) == Some(n as int),
        signed_literal(decimal(n)) == Some(n as int),
    decreases n,
{
    let text = decimal(n);
    if n < 10 {
        assert(text.drop_last() =~= Seq::<char>::empty());
        assert(digits_value(text.drop_last()) == 0);
    } else {
        lemma_decimal_reads_back(n / 10);
        assert(text.drop_last() =~= decimal(n / 10));
        assert(text.last() == digit_char((n % 10) as int));
    }
    assert(is_digit(text[0]));
}

/// An integer written in decimal, with a minus sign where it is negative,
/// reads back as itself.
pub proof fn lemma_signed_decimal_reads_back(i: int)
    ensures
        signed_literal(signed_decimal(i)) == Some(i),
{
    if i < 0 {
        let digits = decimal((-i) as nat);
        lemma_decimal_reads_back((-i) as nat);
        assert(signed_decimal(i).skip(1) =~= digits);
    } else {
        lemma_decimal_reads_back(i as nat);
    }
}

/// The failure that reading an `i32` from `s` reports, for a text that is not
/// the literal of an `i32`.
pub uninterp spec fn parse_i32_failure(s: Seq<char>) -> ParseIntFailure;

/// The failure that reading a `u64` from `s` reports, for a text that is not
/// the literal of a `u64`.
pub uninterp spec fn parse_u64_failure(s: Seq<char>) -> ParseIntFailure;

/// The number that `s` writes, if it writes one that an `i32` can hold.
pub open spec fn i32_literal(s: Seq<char>) -> Option<int> {
    match signed_literal(s) {
        Some(v) if i32::MIN <= v <= i32::MAX => Some(v),
        _ => None,
    }
}

/// The number that `s` writes, if it writes one that a `u64` can hold.
pub open spec fn u64_literal(s: Seq<char>) -> Option<int> {
    match unsigned_literal(s) {
        Some(v) if 0 <= v <= u64::MAX => Some(v),
        _ => None,
    }
}

/// The failure named for `s` is the one that the standard library documents
/// for it, as far as it documents one: `Empty` for the empty text,
/// `PosOverflow` and `NegOverflow` for a well-formed literal beyond the range
/// of an `i32`.
pub open spec fn i32_failure_as_documented(s: Seq<char>) -> bool {
    if s.len() == 0 {
        parse_i32_failure(s) == ParseIntFailure::Empty
    } else {
        match signed_literal(s) {
            Some(v) => {
                &&& v > i32::MAX ==> parse_i32_failure(s) == ParseIntFailure::PosOverflow
                &&& v < i32::MIN ==> parse_i32_failure(s) == ParseIntFailure::NegOverflow
            },
            None => true,
        }
    }
}

/// What reading an `i32` from `s` gives.
pub open spec fn parse_i32_outcome(s: Seq<char>) -> Result<i32, ParseIntFailure> {
    match i32_literal(s) {
        Some(v) => Ok(v as i32),
        None => Err(parse_i32_failure(s)),
    }
}

/// What reading a `u64` from `s` gives.
pub open spec fn parse_u64_outcome(s: Seq<char>) -> Result<u64, ParseIntFailure> {
    match u64_literal(s) {
        Some(v) => Ok(v as u64),
        None => Err(parse_u64_failure(s)),
    }
}

/// Calls `str::parse::<i32>`. The standard library accepts an optional sign
/// followed by decimal digits and nothing else, and returns the number when it
/// fits in an `i32`. Otherwise it reports a failure, here by its kind: `Empty`
/// for the empty text, `PosOverflow` and `NegOverflow` for a well-formed
/// literal beyond the type's range.
#[verifier::external_body]
pub(crate) fn parse_i32(s: &str) -> (r: Result<i32, ParseIntFailure>)
    ensures
        r == parse_i32_outcome(s@),
        r is Err ==> r->Err_0 == parse_i32_failure(s@),
        s@.len() == 0 ==> r is Err && r->Err_0 == ParseIntFailure::Empty,
        signed_literal(s@) matches Some(v) && v > i32::MAX ==> r is Err && r->Err_0
            == ParseIntFailure::PosOverflow,
        signed_literal(s@) matches Some(v) && v < i32::MIN ==> r is Err && r->Err_0
            == ParseIntFailure::NegOverflow,
{
    match s.parse::<i32>() {
        Ok(n) => Ok(n),
        Err(e) => Err(
            match e.kind() {
                std::num::IntErrorKind::Empty => ParseIntFailure::Empty,
                std::num::IntErrorKind::InvalidDigit => ParseIntFailure::InvalidDigit,
                std::num::IntErrorKind::PosOverflow => ParseIntFailure::PosOverflow,
                std::num::IntErrorKind::NegOverflow => ParseIntFailure::NegOverflow,
                _ => ParseIntFailure::Other,
            },
        ),
    }
}

/// Calls `u64::from_str`. The standard library accepts an optional `+`
/// followed by decimal digits and nothing else, and returns the number when it
/// fits in a `u64`. Otherwise it reports a failure, here by its kind: `Empty`
/// for the empty text, `PosOverflow` for a well-formed literal above the
/// type's range.
#[verifier::external_body]
pub(crate) fn parse_u64(s: &str) -> (r: Result<u64, ParseIntFailure>)
    ensures
        r == parse_u64_outcome(s@),
        r is Err ==> r->Err_0 == parse_u64_failure(s@),
        s@.len() == 0 ==> r is Err && r->Err_0 == ParseIntFailure::Empty,
        unsigned_literal(s@) matches Some(v) && v > u64::MAX ==> r is Err && r->Err_0
            == ParseIntFailure::PosOverflow,
{
    match <u64 as std::str::FromStr>::from_str(s) {
        Ok(n) => Ok(n),
        Err(e) => Err(
            match e.kind() {
                std::num::IntErrorKind::Empty => ParseIntFailure::Empty,
                std::num::IntErrorKind::InvalidDigit => ParseIntFailure::InvalidDigit,
                std::num::IntErrorKind::PosOverflow => ParseIntFailure::PosOverflow,
                std::num::IntErrorKind::NegOverflow => ParseIntFailure::NegOverflow,
                _ => ParseIntFailure::Other,
            },
        ),
    }
}

} // verus!
