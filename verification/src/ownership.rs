//! Moving, borrowing and lifetimes.

use vstd::prelude::*;
use vstd::string::*;
use crate::text::{decimal, decimal_string};

verus! {

/// Puts a number in a box on the heap and gives the box up at once.
pub fn create_box() {
    let _box1 = Box::new(3i32);
}

/// A book and the year of its edition.
#[derive(Clone, Copy)]
pub struct Book {
    pub author: &'static str,
    pub title: &'static str,
    pub year: u32,
}

/// The year of the new edition.
pub const NEW_EDITION_YEAR: u32 = 2023;

/// Reports a look at the book, which stays as it is.
pub fn borrow_book(book: &Book) -> (report: String)
    ensures
        report@ == "I immutably borrowed "@ + book.title@ + " - "@ + decimal(book.year as nat)
            + " edition"@,
{
    let mut report = String::from_str("I immutably borrowed ");
    report.append(book.title);
    report.append(" - ");
    let year = decimal_string(book.year as u64);
    report.append(year.as_str());
    report.append(" edition");
    report
}

/// Brings the book out in a new edition and reports it. Author and title
/// stay as they are.
pub fn new_edition(book: &mut Book) -> (report: String)
    ensures
        final(book).year == NEW_EDITION_YEAR,
        final(book).author == old(book).author,
        final(book).title == old(book).title,
        report@ == "I mutably borrowed "@ + old(book).title@ + " - "@ + decimal(
            NEW_EDITION_YEAR as nat,
        ) + " edition"@,
{
    book.year = NEW_EDITION_YEAR;
    let mut report = String::from_str("I mutably borrowed ");
    report.append(book.title);
    report.append(" - ");
    let year = decimal_string(book.year as u64);
    report.append(year.as_str());
    report.append(" edition");
    report
}

/// Adds one to the number behind the reference.
pub fn add_one<'a>(x: &'a mut i32)
    requires
        *old(x) < i32::MAX,
    ensures
        *final(x) == *old(x) + 1,
{
    *x += 1;
}

/// Hands the first reference back; the second only lends its lifetime.
pub fn pass_x<'a, 'b>(x: &'a i32, _y: &'b i32) -> (passed: &'a i32)
    ensures
        passed == x,
{
    x
}

/// A number with an owner.
pub struct Owner(pub i32);

impl Owner {
    /// Adds one to the number.
    pub fn add_one<'a>(&'a mut self)
        requires
            old(self).0 < i32::MAX,
        ensures
            final(self).0 == old(self).0 + 1,
    {
        self.0 += 1;
    }
}

/// A borrowed number.
#[derive(Debug)]
pub struct MyBorrowed<'a> {
    pub x: &'a i32,
}

impl<'a> Default for MyBorrowed<'a> {
    /// Borrows the number ten.
    fn default() -> (borrowed: Self)
        ensures
            *borrowed.x == 10,
    {
        Self { x: &10 }
    }
}

/// The product of two borrowed numbers.
pub fn multiply<'a>(first: &'a i32, second: &'a i32) -> (product: i32)
    requires
        i32::MIN <= *first * *second <= i32::MAX,
    ensures
        product == *first * *second,
{
    *first * *second
}

/// Hands the first reference back, for the shorter of the two lifetimes.
pub fn choose_first<'a: 'b, 'b>(first: &'a i32, _second: &'b i32) -> (chosen: &'b i32)
    ensures
        chosen == first,
{
    first
}

/// A number that lives as long as the program.
pub const NUM: i32 = 18;

/// Hands out `NUM` for the lifetime of the argument, whatever the argument
/// holds.
pub fn coerce_static<'a>(_x: &'a i32) -> (coerced: &'a i32)
    ensures
        *coerced == NUM,
{
    &NUM
}

/// Hands the reference back; the lifetimes are left to the compiler.
pub fn elided_pass(x: &i32) -> (passed: &i32)
    ensures
        passed == x,
{
    x
}

/// Hands the reference back; the lifetimes are written out.
pub fn annotated_pass<'a>(x: &'a i32) -> (passed: &'a i32)
    ensures
        passed == x,
{
    x
}

} // verus!
