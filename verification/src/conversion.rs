//! Turning values into text.

use vstd::prelude::*;
use vstd::string::*;
use crate::text::{signed_decimal, signed_decimal_string};

verus! {

/// A circle, given by its radius.
pub struct Circle {
    pub radius: i32,
}

impl Circle {
    /// The circle in words.
    pub fn describe(&self) -> (text: String)
        ensures
            text@ == "Circle of radius "@ + signed_decimal(self.radius as int),
    {
        let mut text = String::from_str("Circle of radius ");
        let radius = signed_decimal_string(self.radius as i64);
        text.append(radius.as_str());
        text
    }
}

} // verus!
