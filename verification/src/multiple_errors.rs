//! Doubling the first number of a list of texts, where the list may be empty
//! and the text may be no number; and reading whole lists of numbers.

use vstd::prelude::*;
use vstd::string::*;
use crate::parsing::{
    i32_failure_as_documented,
    i32_literal,
    parse_i32,
    parse_i32_failure,
    ParseIntFailure,
};
use crate::text::slice_texts;

verus! {

/// The first item is missing or writes no number.
#[derive(Clone, Copy, Debug, PartialEq, Eq, Structural)]
pub struct DoubleError;

impl DoubleError {
    /// What went wrong, in words.
    pub fn message(&self) -> (text: String)
        ensures
            text@ == "invalid first item to double"@,
    {
        String::from_str("invalid first item to double")
    }
}

/// The list holds no item.
#[derive(Clone, Copy, Debug, PartialEq, Eq, Structural)]
pub struct EmptyVec;

impl EmptyVec {
    /// What went wrong, in words.
    pub fn message(&self) -> (text: String)
        ensures
            text@ == "invalid first item to double"@,
    {
        String::from_str("invalid first item to double")
    }
}

/// Why the first item could not be doubled.
#[derive(Clone, Copy, Debug, PartialEq, Eq, Structural)]
pub enum FirstItemError {
    /// The list holds no item.
    Empty(EmptyVec),
    /// The first item writes no number.
    Parse(ParseIntFailure),
}

/// Twice the number that the first text writes fits in an `i32`, where there
/// is such a number.
pub open spec fn double_fits(vec: Seq<&str>) -> bool {
    vec.len() > 0 && i32_literal(vec[0]@) is Some ==> i32::MIN <= 2 * i32_literal(
        vec[0]@,
    )->Some_0 <= i32::MAX
}

/// Twice the first number of a list that is known to start with one.
pub fn double_first(vec: Vec<&str>) -> (doubled: i32)
    requires
        vec@.len() > 0,
        i32_literal(vec@[0]@) is Some,
        double_fits(vec@),
    ensures
        doubled == 2 * i32_literal(vec@[0]@)->Some_0,
{
    let first = vec.as_slice().first().unwrap();
    2 * parse_i32(first).unwrap()
}

/// Twice the first number of the list; one error stands for both an empty
/// list and a first item that is no number.
pub fn my_func_2(vec: Vec<&str>) -> (doubled: Result<i32, DoubleError>)
    requires
        double_fits(vec@),
    ensures
        doubled is Ok <==> vec@.len() > 0 && i32_literal(vec@[0]@) is Some,
        doubled is Ok ==> doubled->Ok_0 == 2 * i32_literal(vec@[0]@)->Some_0,
{
    let double_text = |s: &&str| -> (r: Result<i32, DoubleError>)
        requires
            i32_literal(s@) is Some ==> i32::MIN <= 2 * i32_literal(s@)->Some_0 <= i32::MAX
        ensures
            r is Ok <==> i32_literal(s@) is Some,
            r is Ok ==> r->Ok_0 == 2 * i32_literal(s@)->Some_0
    {
        let to_double_error = |e: ParseIntFailure| -> (r: DoubleError) { DoubleError };
        let twice = |i: i32| -> (r: i32)
            requires
                i32::MIN <= 2 * i <= i32::MAX
            ensures
                r == 2 * i
        {
            2 * i
        };
        parse_i32(s).map_err(to_double_error).map(twice)
    };
    vec.as_slice().first().ok_or(DoubleError).and_then(double_text)
}

/// What `my_func_3` returns for the list `vec`.
pub open spec fn doubled_first(vec: Seq<&str>) -> Result<int, FirstItemError> {
    if vec.len() == 0 {
        Err(FirstItemError::Empty(EmptyVec))
    } else {
        match i32_literal(vec[0]@) {
            Some(v) => Ok(2 * v),
            None => Err(FirstItemError::Parse(parse_i32_failure(vec[0]@))),
        }
    }
}

/// Twice the first number of the list; the error tells an empty list from a
/// first item that is no number, and carries the failure of the latter.
pub fn my_func_3(vec: Vec<&str>) -> (doubled: Result<i32, FirstItemError>)
    requires
        double_fits(vec@),
    ensures
        doubled is Ok <==> doubled_first(vec@) is Ok,
        doubled is Ok ==> doubled->Ok_0 == doubled_first(vec@)->Ok_0,
        doubled is Err ==> doubled->Err_0 == doubled_first(vec@)->Err_0,
        vec@.len() > 0 && i32_literal(vec@[0]@) is None ==> i32_failure_as_documented(vec@[0]@),
{
    let empty_error = || -> (r: FirstItemError)
        ensures
            r == FirstItemError::Empty(EmptyVec)
    {
        FirstItemError::Empty(EmptyVec)
    };
    let double_text = |s: &&str| -> (r: Result<i32, FirstItemError>)
        requires
            i32_literal(s@) is Some ==> i32::MIN <= 2 * i32_literal(s@)->Some_0 <= i32::MAX
        ensures
            r is Ok <==> i32_literal(s@) is Some,
            r is Ok ==> r->Ok_0 == 2 * i32_literal(s@)->Some_0,
            r is Err ==> r->Err_0 == FirstItemError::Parse(parse_i32_failure(s@)),
            i32_literal(s@) is None ==> i32_failure_as_documented(s@)
    {
        let parse_error = |e: ParseIntFailure| -> (r: FirstItemError)
            ensures
                r == FirstItemError::Parse(e)
        {
            FirstItemError::Parse(e)
        };
        let twice = |i: i32| -> (r: i32)
            requires
                i32::MIN <= 2 * i <= i32::MAX
            ensures
                r == 2 * i
        {
            2 * i
        };
        parse_i32(s).map_err(parse_error).map(twice)
    };
    vec.as_slice().first().ok_or_else(empty_error).and_then(double_text)
}

/// The numbers written by those of the texts that write an `i32`, in order.
pub open spec fn valid_values(texts: Seq<Seq<char>>) -> Seq<i32>
    decreases texts.len(),
{
    if texts.len() == 0 {
        Seq::empty()
    } else {
        let before = valid_values(texts.drop_last());
        match i32_literal(texts.last()) {
            Some(v) => before.push(v as i32),
            None => before,
        }
    }
}

/// The failures of those of the texts that write no `i32`, in order.
pub open spec fn failures(texts: Seq<Seq<char>>) -> Seq<ParseIntFailure>
    decreases texts.len(),
{
    if texts.len() == 0 {
        Seq::empty()
    } else {
        let before = failures(texts.drop_last());
        match i32_literal(texts.last()) {
            Some(_) => before,
            None => before.push(parse_i32_failure(texts.last())),
        }
    }
}

/// The numbers written by the texts, if each of them writes an `i32`;
/// otherwise the failure of the first that does not.
pub open spec fn all_values(texts: Seq<Seq<char>>) -> Result<Seq<i32>, ParseIntFailure>
    decreases texts.len(),
{
    if texts.len() == 0 {
        Ok(Seq::empty())
    } else {
        match all_values(texts.drop_last()) {
            Err(e) => Err(e),
            Ok(before) => match i32_literal(texts.last()) {
                Some(v) => Ok(before.push(v as i32)),
                None => Err(parse_i32_failure(texts.last())),
            },
        }
    }
}

/// One more text at the end of a list of string slices.
proof fn lemma_slice_texts_step(strings: Seq<&str>, i: int)
    requires
        0 <= i < strings.len(),
    ensures
        slice_texts(strings.take(i + 1)).drop_last() == slice_texts(strings.take(i)),
        slice_texts(strings.take(i + 1)).last() == strings[i]@,
        slice_texts(strings.take(i + 1)).len() == i + 1,
{
    assert(slice_texts(strings.take(i + 1)).drop_last() =~= slice_texts(strings.take(i)));
}

/// Reads every text that writes a number and leaves the others out.
pub fn valid_numbers(strings: &Vec<&str>) -> (numbers: Vec<i32>)
    ensures
        numbers@ == valid_values(slice_texts(strings@)),
{
    let mut numbers: Vec<i32> = Vec::new();
    let mut i: usize = 0;
    while i < strings.len()
        invariant
            i <= strings.len(),
            numbers@ == valid_values(slice_texts(strings@.take(i as int))),
        decreases strings.len() - i,
    {
        proof {
            lemma_slice_texts_step(strings@, i as int);
        }
        match parse_i32(strings[i]) {
            Ok(n) => numbers.push(n),
            Err(_) => {},
        }
        i += 1;
    }
    proof {
        assert(strings@.take(strings.len() as int) =~= strings@);
    }
    numbers
}

/// Reads every text: all the numbers if each text writes one, otherwise the
/// failure of the first text that does not.
pub fn all_numbers(strings: &Vec<&str>) -> (numbers: Result<Vec<i32>, ParseIntFailure>)
    ensures
        numbers is Ok <==> all_values(slice_texts(strings@)) is Ok,
        numbers is Ok ==> numbers->Ok_0@ == all_values(slice_texts(strings@))->Ok_0,
        numbers is Err ==> numbers->Err_0 == all_values(slice_texts(strings@))->Err_0,
        numbers is Err ==> exists|k: int|
            0 <= k < strings@.len() && numbers->Err_0 == parse_i32_failure(#[trigger] strings@[k]@)
                && i32_literal(strings@[k]@) is None && i32_failure_as_documented(strings@[k]@),
{
    let mut numbers: Vec<i32> = Vec::new();
    let mut i: usize = 0;
    while i < strings.len()
        invariant
            i <= strings.len(),
            all_values(slice_texts(strings@.take(i as int))) == Ok::<Seq<i32>, ParseIntFailure>(
                numbers@,
            ),
        decreases strings.len() - i,
    {
        proof {
            lemma_slice_texts_step(strings@, i as int);
        }
        match parse_i32(strings[i]) {
            Ok(n) => numbers.push(n),
            Err(e) => {
                proof {
                    assert(slice_texts(strings@).take(i + 1) =~= slice_texts(
                        strings@.take(i + 1),
                    ));
                    lemma_all_values_failure_stays(slice_texts(strings@), i + 1);
                }
                return Err(e);
            },
        }
        i += 1;
    }
    proof {
        assert(strings@.take(strings.len() as int) =~= strings@);
    }
    Ok(numbers)
}

/// Once a prefix of the texts has failed, the whole list fails in the same
/// way.
proof fn lemma_all_values_failure_stays(texts: Seq<Seq<char>>, k: int)
    requires
        0 <= k <= texts.len(),
        all_values(texts.take(k)) is Err,
    ensures
        all_values(texts) == all_values(texts.take(k)),
    decreases texts.len() - k,
{
    if k < texts.len() {
        assert(texts.take(k + 1).drop_last() =~= texts.take(k));
        lemma_all_values_failure_stays(texts, k + 1);
    } else {
        assert(texts.take(k) =~= texts);
    }
}

/// Reads every text and sorts the outcomes: the numbers on one side, the
/// failures on the other, each in the order of the texts.
pub fn numbers_and_failures(strings: &Vec<&str>) -> (sorted: (Vec<i32>, Vec<ParseIntFailure>))
    ensures
        sorted.0@ == valid_values(slice_texts(strings@)),
        sorted.1@ == failures(slice_texts(strings@)),
        forall|k: int|
            0 <= k < strings@.len() && i32_literal(strings@[k]@) is None
                ==> i32_failure_as_documented(#[trigger] strings@[k]@),
{
    let mut numbers: Vec<i32> = Vec::new();
    let mut errors: Vec<ParseIntFailure> = Vec::new();
    let mut i: usize = 0;
    while i < strings.len()
        invariant
            i <= strings.len(),
            numbers@ == valid_values(slice_texts(strings@.take(i as int))),
            errors@ == failures(slice_texts(strings@.take(i as int))),
            forall|k: int|
                0 <= k < i && i32_literal(strings@[k]@) is None ==> i32_failure_as_documented(
                    #[trigger] strings@[k]@,
                ),
        decreases strings.len() - i,
    {
        proof {
            lemma_slice_texts_step(strings@, i as int);
        }
        match parse_i32(strings[i]) {
            Ok(n) => numbers.push(n),
            Err(e) => errors.push(e),
        }
        i += 1;
    }
    proof {
        assert(strings@.take(strings.len() as int) =~= strings@);
    }
    (numbers, errors)
}

} // verus!
