//! Multiplying two numbers given as text, in several styles of error
//! handling.

use vstd::prelude::*;
use crate::parsing::{
    i32_failure_as_documented,
    i32_literal,
    parse_i32,
    parse_i32_failure,
    ParseIntFailure,
};

verus! {

/// The product of the two numbers, where both texts write an `i32`; otherwise
/// the failure of the first text that does not.
pub open spec fn product_outcome(first: Seq<char>, second: Seq<char>) -> Result<
    int,
    ParseIntFailure,
> {
    match (i32_literal(first), i32_literal(second)) {
        (Some(x), Some(y)) => Ok(x * y),
        (None, _) => Err(parse_i32_failure(first)),
        (Some(_), None) => Err(parse_i32_failure(second)),
    }
}

/// The failure that `product_outcome` reports, if any, is the one that the
/// standard library documents for the text that caused it.
pub open spec fn failure_as_documented(first: Seq<char>, second: Seq<char>) -> bool {
    &&& i32_literal(first) is None ==> i32_failure_as_documented(first)
    &&& i32_literal(first) is Some && i32_literal(second) is None ==> i32_failure_as_documented(
        second,
    )
}

/// Where both texts write an `i32`, the product fits in an `i32` too.
pub open spec fn product_fits(first: Seq<char>, second: Seq<char>) -> bool {
    i32_literal(first) is Some && i32_literal(second) is Some ==> i32::MIN <= i32_literal(
        first,
    )->Some_0 * i32_literal(second)->Some_0 <= i32::MAX
}

/// `r`, with its value read as a mathematical integer.
pub open spec fn widened(r: Result<i32, ParseIntFailure>) -> Result<int, ParseIntFailure> {
    match r {
        Ok(n) => Ok(n as int),
        Err(e) => Err(e),
    }
}

/// Multiplies two numbers that are known to be well written.
pub fn multiply(first_number_str: &str, second_number_str: &str) -> (product: i32)
    requires
        i32_literal(first_number_str@) is Some,
        i32_literal(second_number_str@) is Some,
        product_fits(first_number_str@, second_number_str@),
    ensures
        product == i32_literal(first_number_str@)->Some_0 * i32_literal(
            second_number_str@,
        )->Some_0,
{
    let first_number = parse_i32(first_number_str).unwrap();
    let second_number = parse_i32(second_number_str).unwrap();
    first_number * second_number
}

/// Multiplies two numbers given as text, matching on each outcome.
pub fn multiply_v2(first_number_str: &str, second_number_str: &str) -> (product: Result<
    i32,
    ParseIntFailure,
>)
    requires
        product_fits(first_number_str@, second_number_str@),
    ensures
        widened(product) == product_outcome(first_number_str@, second_number_str@),
        failure_as_documented(first_number_str@, second_number_str@),
{
    match parse_i32(first_number_str) {
        Ok(first_num) => match parse_i32(second_number_str) {
            Ok(second_num) => Ok(first_num * second_num),
            Err(e) => Err(e),
        },
        Err(e) => Err(e),
    }
}

/// Multiplies two numbers given as text, chaining the outcomes with
/// `and_then` and `map`.
pub fn multiply_v3(first_number_str: &str, second_number_str: &str) -> (product: Result<
    i32,
    ParseIntFailure,
>)
    requires
        product_fits(first_number_str@, second_number_str@),
    ensures
        widened(product) == product_outcome(first_number_str@, second_number_str@),
        failure_as_documented(first_number_str@, second_number_str@),
{
    let times_second = |first_num: i32| -> (r: Result<i32, ParseIntFailure>)
        requires
            i32_literal(first_number_str@) == Some(first_num as int)
        ensures
            widened(r) == product_outcome(first_number_str@, second_number_str@),
            i32_literal(second_number_str@) is None ==> i32_failure_as_documented(
                second_number_str@,
            )
    {
        let times_first = |second_num: i32| -> (p: i32)
            requires
                i32::MIN <= first_num * second_num <= i32::MAX
            ensures
                p == first_num * second_num
        {
            first_num * second_num
        };
        parse_i32(second_number_str).map(times_first)
    };
    parse_i32(first_number_str).and_then(times_second)
}

/// The outcome of a computation on numbers read from text.
pub type AliasResult<T> = Result<T, ParseIntFailure>;

/// Multiplies two numbers given as text; as `multiply_v3`, with the result
/// type written through its alias.
pub fn multiply_v4(first_number_str: &str, second_number_str: &str) -> (product: AliasResult<i32>)
    requires
        product_fits(first_number_str@, second_number_str@),
    ensures
        widened(product) == product_outcome(first_number_str@, second_number_str@),
        failure_as_documented(first_number_str@, second_number_str@),
{
    let times_second = |first_num: i32| -> (r: Result<i32, ParseIntFailure>)
        requires
            i32_literal(first_number_str@) == Some(first_num as int)
        ensures
            widened(r) == product_outcome(first_number_str@, second_number_str@),
            i32_literal(second_number_str@) is None ==> i32_failure_as_documented(
                second_number_str@,
            )
    {
        let times_first = |second_num: i32| -> (p: i32)
            requires
                i32::MIN <= first_num * second_num <= i32::MAX
            ensures
                p == first_num * second_num
        {
            first_num * second_num
        };
        parse_i32(second_number_str).map(times_first)
    };
    parse_i32(first_number_str).and_then(times_second)
}

/// Multiplies two numbers given as text, returning early on the first
/// failure.
pub fn multiply_v5(first_number_str: &str, second_number_str: &str) -> (product: Result<
    i32,
    ParseIntFailure,
>)
    requires
        product_fits(first_number_str@, second_number_str@),
    ensures
        widened(product) == product_outcome(first_number_str@, second_number_str@),
        failure_as_documented(first_number_str@, second_number_str@),
{
    let first_number = match parse_i32(first_number_str) {
        Ok(first_num) => first_num,
        Err(e) => return Err(e),
    };
    let second_number = match parse_i32(second_number_str) {
        Ok(second_num) => second_num,
        Err(e) => return Err(e),
    };
    Ok(first_number * second_number)
}

/// Multiplies two numbers given as text, passing failures on with `?`.
pub fn multiply_v6(first_number_str: &str, second_number_str: &str) -> (product: Result<
    i32,
    ParseIntFailure,
>)
    requires
        product_fits(first_number_str@, second_number_str@),
    ensures
        widened(product) == product_outcome(first_number_str@, second_number_str@),
        failure_as_documented(first_number_str@, second_number_str@),
{
    let first_number = parse_i32(first_number_str)?;
    let second_number = parse_i32(second_number_str)?;
    Ok(first_number * second_number)
}

} // verus!
