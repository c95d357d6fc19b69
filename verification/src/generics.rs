//! Generic containers, marker traits and the newtype idiom.

use vstd::prelude::*;

verus! {

/// Number of days counted for one year.
pub const DAYS_PER_YEAR: i64 = 365;

/// A span of time in whole years.
pub struct Years(pub i64);

/// A span of time in whole days.
pub struct Days(pub i64);

/// Quotient of `a` by the positive `b`, rounded toward zero.
pub open spec fn div_toward_zero(a: int, b: int) -> int
    recommends
        b > 0,
{
    if a >= 0 {
        a / b
    } else {
        -((-a) / b)
    }
}

impl Years {
    /// The same span in days.
    pub fn to_days(&self) -> (days: Days)
        requires
            i64::MIN <= self.0 * DAYS_PER_YEAR <= i64::MAX,
        ensures
            days.0 == self.0 * DAYS_PER_YEAR,
    {
        Days(self.0 * DAYS_PER_YEAR)
    }
}

impl Days {
    /// The number of complete years in the span; a partial year is dropped,
    /// toward zero for negative spans as well.
    pub fn to_years(&self) -> (years: Years)
        ensures
            years.0 == div_toward_zero(self.0 as int, DAYS_PER_YEAR as int),
    {
        Years(self.0 / DAYS_PER_YEAR)
    }
}

/// Whether somebody of that age counts as grown up.
pub fn old_enough(age: &Years) -> (enough: bool)
    ensures
        enough == (age.0 >= 18),
{
    age.0 >= 18
}

/// A value of any type, wrapped.
pub struct GenVal<T> {
    pub gen_val: T,
}

impl<T> GenVal<T> {
    /// The wrapped value.
    pub fn value(&self) -> (value: &T)
        ensures
            *value == self.gen_val,
    {
        &self.gen_val
    }
}

/// Things that are red.
pub trait Red {
}

/// Things that are blue.
pub trait Blue {
}

/// A red bird.
pub struct Cardinal;

/// A blue bird.
pub struct BlueJay;

/// A bird that is neither.
pub struct Turkey;

impl Red for Cardinal {
}

impl Blue for BlueJay {
}

/// The colour of anything red.
pub fn red<T: Red>(_thing: &T) -> (colour: &'static str)
    ensures
        colour@ == "red"@,
{
    "red"
}

/// The colour of anything blue.
pub fn blue<T: Blue>(_thing: &T) -> (colour: &'static str)
    ensures
        colour@ == "blue"@,
{
    "blue"
}

/// Two numbers kept together.
pub struct Container(pub i32, pub i32);

/// A holder of two items, a first and a last.
pub trait Contains {
    /// The type of the first item.
    type A;

    /// The type of the last item.
    type B;

    /// The number that `first` returns.
    spec fn first_value(&self) -> i32;

    /// The number that `last` returns.
    spec fn last_value(&self) -> i32;

    /// What `contains` answers for the two items.
    spec fn holds(&self, a: &Self::A, b: &Self::B) -> bool;

    /// Tells whether the holder holds exactly these two items.
    fn contains(&self, a: &Self::A, b: &Self::B) -> (held: bool)
        ensures
            held == self.holds(a, b),
    ;

    /// The first number.
    fn first(&self) -> (first: i32)
        ensures
            first == self.first_value(),
    ;

    /// The last number.
    fn last(&self) -> (last: i32)
        ensures
            last == self.last_value(),
    ;
}

impl Contains for Container {
    type A = i32;

    type B = i32;

    open spec fn first_value(&self) -> i32 {
        self.0
    }

    open spec fn last_value(&self) -> i32 {
        self.1
    }

    open spec fn holds(&self, a: &i32, b: &i32) -> bool {
        self.0 == *a && self.1 == *b
    }

    fn contains(&self, number_1: &i32, number_2: &i32) -> bool {
        self.0 == *number_1 && self.1 == *number_2
    }

    fn first(&self) -> i32 {
        self.0
    }

    fn last(&self) -> i32 {
        self.1
    }
}

/// How far the last number of the holder lies above the first.
pub fn difference<C: Contains>(container: &C) -> (distance: i32)
    requires
        i32::MIN <= container.last_value() - container.first_value() <= i32::MAX,
    ensures
        distance == container.last_value() - container.first_value(),
{
    container.last() - container.first()
}

/// A type with nothing in it.
pub struct A;

/// A wrapper around the concrete type `A`.
pub struct S(pub A);

/// A wrapper around a value of any type.
pub struct SGen<T>(pub T);

/// Takes a wrapper that is not generic, and lets it go.
pub fn reg_fn(_s: S) {
}

/// Takes a generic wrapper whose parameter is fixed to `i32`, and lets it go.
pub fn gen_spec_i32(_s: SGen<i32>) {
}

/// Takes a generic wrapper of any parameter, and lets it go.
pub fn gen_spec_generic<T>(_s: SGen<T>) {
}

/// Takes a second value along when a value is given up.
pub trait DoubleDrop<T> {
    /// Gives up both the value and `other`.
    fn double_drop(self, other: T);
}

impl<T, U> DoubleDrop<T> for U {
    fn double_drop(self, _other: T) {
    }
}

} // verus!
