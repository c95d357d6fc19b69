use lessons::parsing::ParseIntFailure;
use lessons::results::{
    multiply, multiply_v2, multiply_v3, multiply_v4, multiply_v5, multiply_v6,
};

#[test]
fn multiply_ten_by_two() {
    assert_eq!(multiply("10", "2"), 20);
}

#[test]
fn multiply_accepts_signs() {
    assert_eq!(multiply("+5", "-3"), -15);
    assert_eq!(multiply("-0", "7"), 0);
    assert_eq!(multiply("007", "6"), 42);
}

#[test]
fn every_version_gives_the_product() {
    assert_eq!(multiply_v2("10", "2"), Ok(20));
    assert_eq!(multiply_v3("10", "2"), Ok(20));
    assert_eq!(multiply_v4("10", "2"), Ok(20));
    assert_eq!(multiply_v5("10", "2"), Ok(20));
    assert_eq!(multiply_v6("10", "2"), Ok(20));
}

#[test]
fn every_version_reports_a_letter_as_invalid_digit() {
    assert_eq!(multiply_v2("t", "2"), Err(ParseIntFailure::InvalidDigit));
    assert_eq!(multiply_v3("t", "2"), Err(ParseIntFailure::InvalidDigit));
    assert_eq!(multiply_v4("t", "2"), Err(ParseIntFailure::InvalidDigit));
    assert_eq!(multiply_v5("t", "2"), Err(ParseIntFailure::InvalidDigit));
    assert_eq!(multiply_v6("t", "2"), Err(ParseIntFailure::InvalidDigit));
}

#[test]
fn the_first_failure_is_the_one_reported() {
    assert_eq!(multiply_v2("", "x"), Err(ParseIntFailure::Empty));
    assert_eq!(multiply_v3("", "x"), Err(ParseIntFailure::Empty));
    assert_eq!(multiply_v5("x", ""), Err(ParseIntFailure::InvalidDigit));
    assert_eq!(multiply_v6("x", ""), Err(ParseIntFailure::InvalidDigit));
}

#[test]
fn a_failure_of_the_second_text_is_reported() {
    assert_eq!(multiply_v2("10", ""), Err(ParseIntFailure::Empty));
    assert_eq!(multiply_v3("10", "two"), Err(ParseIntFailure::InvalidDigit));
    assert_eq!(multiply_v4("10", ""), Err(ParseIntFailure::Empty));
    assert_eq!(multiply_v5("10", "2.5"), Err(ParseIntFailure::InvalidDigit));
    assert_eq!(multiply_v6("10", " 2"), Err(ParseIntFailure::InvalidDigit));
}

#[test]
fn numbers_beyond_the_range_overflow() {
    assert_eq!(multiply_v2("2147483648", "1"), Err(ParseIntFailure::PosOverflow));
    assert_eq!(multiply_v2("-2147483649", "1"), Err(ParseIntFailure::NegOverflow));
    assert_eq!(multiply_v6("99999999999999999999", "1"), Err(ParseIntFailure::PosOverflow));
}

#[test]
fn the_ends_of_the_range_are_read() {
    assert_eq!(multiply_v2("2147483647", "1"), Ok(i32::MAX));
    assert_eq!(multiply_v2("-2147483648", "1"), Ok(i32::MIN));
    assert_eq!(multiply_v2("-2147483647", "-1"), Ok(i32::MAX));
}

#[test]
fn a_lone_sign_is_no_number() {
    assert_eq!(multiply_v2("-", "1"), Err(ParseIntFailure::InvalidDigit));
    assert_eq!(multiply_v2("+", "1"), Err(ParseIntFailure::InvalidDigit));
    assert_eq!(multiply_v2("1", "--1"), Err(ParseIntFailure::InvalidDigit));
}
