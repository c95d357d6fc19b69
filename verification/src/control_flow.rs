//! Branching, looping and matching.

use vstd::prelude::*;
use vstd::string::*;
use crate::parsing::{parse_u64, u64_literal};
use crate::text::{
    decimal,
    decimal_string,
    signed_decimal,
    signed_decimal_string,
    split,
    split_pieces,
};

verus! {

/// A remark on the sign of `n`.
pub fn sign_remark(n: i32) -> (remark: String)
    ensures
        remark@ == signed_decimal(n as int) + (if n < 0 {
            " is negative"@
        } else if n > 0 {
            " is positive"@
        } else {
            " is zero"@
        }),
{
    let mut remark = signed_decimal_string(n as i64);
    if n < 0 {
        remark.append(" is negative");
    } else if n > 0 {
        remark.append(" is positive");
    } else {
        remark.append(" is zero");
    }
    remark
}

/// Makes a small number ten times as big, and halves any other toward zero.
pub fn scale(n: i32) -> (scaled: i32)
    ensures
        -10 < n < 10 ==> scaled == 10 * n,
        n >= 10 ==> scaled == n / 2,
        n <= -10 ==> scaled == -((-n) / 2),
{
    if n < 10 && n > -10 {
        10 * n
    } else {
        n / 2
    }
}

/// The line of the counting game for `n`: `FizzBuzz` for a multiple of
/// fifteen, `Fizz` for another multiple of three, `Buzz` for another multiple
/// of five, and the number itself for the rest.
pub open spec fn fizz_buzz_line(n: nat) -> Seq<char> {
    if n % 15 == 0 {
        "FizzBuzz"@
    } else if n % 3 == 0 {
        "Fizz"@
    } else if n % 5 == 0 {
        "Buzz"@
    } else {
        decimal(n)
    }
}

/// The line of the counting game for `n`.
pub fn fizz_buzz(n: u32) -> (line: String)
    ensures
        line@ == fizz_buzz_line(n as nat),
{
    if n % 15 == 0 {
        String::from_str("FizzBuzz")
    } else if n % 3 == 0 {
        String::from_str("Fizz")
    } else if n % 5 == 0 {
        String::from_str("Buzz")
    } else {
        decimal_string(n as u64)
    }
}

/// The lines of the counting game for 1 to 100, counted with `while`.
pub fn fizz_buzz_while() -> (lines: Vec<String>)
    ensures
        lines@.len() == 100,
        forall|i: int| 0 <= i < 100 ==> (#[trigger] lines@[i])@ == fizz_buzz_line((i + 1) as nat),
{
    let mut lines: Vec<String> = Vec::new();
    let mut n: u32 = 1;
    while n < 101
        invariant
            1 <= n <= 101,
            lines@.len() == n - 1,
            forall|i: int| 0 <= i < n - 1 ==> (#[trigger] lines@[i])@ == fizz_buzz_line(
                (i + 1) as nat,
            ),
        decreases 101 - n,
    {
        lines.push(fizz_buzz(n));
        n += 1;
    }
    lines
}

/// The lines of the counting game for 1 to 100, counted with `for`.
pub fn fizz_buzz_for() -> (lines: Vec<String>)
    ensures
        lines@.len() == 100,
        forall|i: int| 0 <= i < 100 ==> (#[trigger] lines@[i])@ == fizz_buzz_line((i + 1) as nat),
{
    let mut lines: Vec<String> = Vec::new();
    for n in 1u32..101u32
        invariant
            lines@.len() == n - 1,
            forall|i: int| 0 <= i < n - 1 ==> (#[trigger] lines@[i])@ == fizz_buzz_line(
                (i + 1) as nat,
            ),
    {
        lines.push(fizz_buzz(n));
    }
    lines
}

/// The guest who gets a special welcome.
pub open spec fn special_guest() -> Seq<char> {
    "nameC"@
}

/// The welcome for the guest called `name`.
pub open spec fn welcome(name: Seq<char>) -> Seq<char> {
    if name == special_guest() {
        "Special welcome to "@ + name
    } else {
        "Hello "@ + name
    }
}

/// Welcomes every guest by name, in order.
pub fn greetings(names: &Vec<&str>) -> (lines: Vec<String>)
    ensures
        lines@.len() == names@.len(),
        forall|i: int| 0 <= i < names@.len() ==> (#[trigger] lines@[i])@ == welcome(names@[i]@),
{
    let mut lines: Vec<String> = Vec::new();
    let mut i: usize = 0;
    while i < names.len()
        invariant
            i <= names.len(),
            lines@.len() == i,
            forall|k: int| 0 <= k < i ==> (#[trigger] lines@[k])@ == welcome(names@[k]@),
        decreases names.len() - i,
    {
        let name = names[i];
        let mut line = if *name == *"nameC" {
            String::from_str("Special welcome to ")
        } else {
            String::from_str("Hello ")
        };
        line.append(name);
        lines.push(line);
        i += 1;
    }
    lines
}

/// Replaces every name by the kind of welcome its guest gets.
pub fn relabel(names: &mut Vec<&'static str>)
    ensures
        final(names)@.len() == old(names)@.len(),
        forall|i: int|
            0 <= i < old(names)@.len() ==> (#[trigger] final(names)@[i])@ == (if old(names)@[i]@
                == special_guest() {
                "Special welcome"@
            } else {
                "Hello"@
            }),
{
    let ghost before = names@;
    let mut i: usize = 0;
    while i < names.len()
        invariant
            i <= names.len(),
            names@.len() == before.len(),
            forall|k: int| i <= k < before.len() ==> names@[k] == before[k],
            forall|k: int|
                0 <= k < i ==> (#[trigger] names@[k])@ == (if before[k]@ == special_guest() {
                    "Special welcome"@
                } else {
                    "Hello"@
                }),
        decreases names.len() - i,
    {
        let label: &'static str = if *names[i] == *"nameC" {
            "Special welcome"
        } else {
            "Hello"
        };
        names.set(i, label);
        i += 1;
    }
}

/// What can be said of `number` at a glance.
pub fn classify_number(number: i32) -> (class: &'static str)
    ensures
        class@ == (if number == 1 {
            "One"@
        } else if number == 2 || number == 3 || number == 5 || number == 7 || number == 9
            || number == 11 {
            "Prime number"@
        } else if 13 <= number <= 19 {
            "Teen"@
        } else {
            "Too big to analyze"@
        }),
{
    match number {
        1 => "One",
        2 | 3 | 5 | 7 | 9 | 11 => "Prime number",
        13..=19 => "Teen",
        _ => "Too big to analyze",
    }
}

/// The binary digit for a truth value.
pub fn binary_digit(boolean: bool) -> (digit: i32)
    ensures
        digit == (if boolean {
            1i32
        } else {
            0i32
        }),
{
    match boolean {
        true => 1,
        false => 0,
    }
}

/// The age that the remarks below are made about.
pub fn age() -> (years: u32)
    ensures
        years == 19,
{
    19
}

/// A remark on somebody's age.
pub open spec fn age_remark_text(n: nat) -> Seq<char> {
    if n == 1 {
        "Haven't celebrated first birthday"@
    } else if 1 <= n <= 12 {
        "A child of age "@ + decimal(n)
    } else if 13 <= n <= 19 {
        "A teenager of age "@ + decimal(n)
    } else {
        "A old person of age "@ + decimal(n)
    }
}

/// Remarks on an age of `n` years.
pub fn age_remark(n: u32) -> (remark: String)
    ensures
        remark@ == age_remark_text(n as nat),
{
    let digits = decimal_string(n as u64);
    match n {
        1 => String::from_str("Haven't celebrated first birthday"),
        1..=12 => {
            let mut remark = String::from_str("A child of age ");
            remark.append(digits.as_str());
            remark
        },
        13..=19 => {
            let mut remark = String::from_str("A teenager of age ");
            remark.append(digits.as_str());
            remark
        },
        _ => {
            let mut remark = String::from_str("A old person of age ");
            remark.append(digits.as_str());
            remark
        },
    }
}

/// Reads a count and the name of an item from a text such as `3 chairs`:
/// the first two pieces between single spaces. There must be two pieces, and
/// the first must write a number.
pub fn get_count_item(s: &str) -> (pair: (u64, &str))
    requires
        split(s@, ' ').len() >= 2,
        u64_literal(split(s@, ' ')[0]) is Some,
    ensures
        pair.0 == u64_literal(split(s@, ' ')[0])->Some_0,
        pair.1@ == split(s@, ' ')[1],
{
    let pieces = split_pieces(s, ' ');
    let count_str = pieces[0];
    let item = pieces[1];
    assert(count_str@ == split(s@, ' ')[0]) by {
        assert(pieces@[0]@ == split(s@, ' ')[0]);
    }
    let count = parse_u64(count_str).unwrap();
    (count, item)
}

} // verus!
