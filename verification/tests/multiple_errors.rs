use lessons::multiple_errors::{
    all_numbers, double_first, my_func_2, my_func_3, numbers_and_failures, valid_numbers,
    DoubleError, EmptyVec, FirstItemError,
};
use lessons::parsing::ParseIntFailure;

#[test]
fn double_first_of_numbers() {
    assert_eq!(double_first(vec!["42", "93", "18"]), 84);
}

#[test]
fn my_func_2_doubles_the_first() {
    assert_eq!(my_func_2(vec!["42", "93", "18"]), Ok(84));
}

#[test]
fn my_func_2_rejects_an_empty_list() {
    assert_eq!(my_func_2(vec![]), Err(DoubleError));
}

#[test]
fn my_func_2_rejects_a_word() {
    assert_eq!(my_func_2(vec!["tofu", "93", "18"]), Err(DoubleError));
}

#[test]
fn my_func_3_doubles_the_first() {
    assert_eq!(my_func_3(vec!["42", "93", "18"]), Ok(84));
    assert_eq!(my_func_3(vec!["-21"]), Ok(-42));
}

#[test]
fn my_func_3_tells_the_errors_apart() {
    assert_eq!(my_func_3(vec![]), Err(FirstItemError::Empty(EmptyVec)));
    assert_eq!(
        my_func_3(vec!["tofu", "93", "18"]),
        Err(FirstItemError::Parse(ParseIntFailure::InvalidDigit))
    );
    assert_eq!(my_func_3(vec!["", "93"]), Err(FirstItemError::Parse(ParseIntFailure::Empty)));
}

#[test]
fn error_messages() {
    assert_eq!(DoubleError.message(), "invalid first item to double");
    assert_eq!(EmptyVec.message(), "invalid first item to double");
}

#[test]
fn valid_numbers_skips_words() {
    assert_eq!(valid_numbers(&vec!["tofu", "93", "18"]), vec![93, 18]);
    assert_eq!(valid_numbers(&vec![]), Vec::<i32>::new());
    assert_eq!(valid_numbers(&vec!["a", "b"]), Vec::<i32>::new());
}

#[test]
fn all_numbers_stops_at_the_first_failure() {
    assert_eq!(all_numbers(&vec!["tofu", "93", "18"]), Err(ParseIntFailure::InvalidDigit));
    assert_eq!(all_numbers(&vec!["93", "", "x"]), Err(ParseIntFailure::Empty));
    assert_eq!(all_numbers(&vec!["93", "18"]), Ok(vec![93, 18]));
    assert_eq!(all_numbers(&vec![]), Ok(vec![]));
}

#[test]
fn numbers_and_failures_sorts_the_outcomes() {
    let (numbers, errors) = numbers_and_failures(&vec!["tofu", "93", "", "18", "99999999999"]);
    assert_eq!(numbers, vec![93, 18]);
    assert_eq!(
        errors,
        vec![
            ParseIntFailure::InvalidDigit,
            ParseIntFailure::Empty,
            ParseIntFailure::PosOverflow
        ]
    );
}
