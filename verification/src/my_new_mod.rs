//! Two boxes: one whose contents anybody can reach, and one that keeps
//! them to itself.

use vstd::prelude::*;

verus! {

/// A box with its contents in plain sight.
pub struct OpenBox<T> {
    pub contents: T,
}

/// A box whose contents can be put in, and not looked at from outside.
pub struct ClosedBox<T> {
    contents: T,
}

impl<T> ClosedBox<T> {
    /// What the box holds.
    pub closed spec fn contents(&self) -> T {
        self.contents
    }

    /// A box that holds `contents`.
    pub fn new(contents: T) -> (closed_box: ClosedBox<T>)
        ensures
            closed_box.contents() == contents,
    {
        ClosedBox { contents }
    }
}

} // verus!
