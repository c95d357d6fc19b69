//! A singly linked list of numbers, built from a recursive enum.

use vstd::prelude::*;
use vstd::string::*;
use crate::text::{decimal, decimal_string};

verus! {

/// A list: either an element followed by a list, or nothing.
pub enum List {
    /// An element and the rest of the list.
    Cons(u32, Box<List>),
    /// The end of the list.
    Nil,
}

impl List {
    /// The elements, first to last.
    pub open spec fn elements(&self) -> Seq<u32>
        decreases self,
    {
        match self {
            List::Cons(head, tail) => seq![*head] + tail.elements(),
            List::Nil => Seq::empty(),
        }
    }
}

impl View for List {
    type V = Seq<u32>;

    open spec fn view(&self) -> Seq<u32> {
        self.elements()
    }
}

/// The elements in decimal, each followed by a comma and a space, and the
/// word `Nil` at the end.
pub open spec fn list_text(elements: Seq<u32>) -> Seq<char>
    decreases elements.len(),
{
    if elements.len() == 0 {
        "Nil"@
    } else {
        decimal(elements[0] as nat) + ", "@ + list_text(elements.skip(1))
    }
}

impl List {
    /// An empty list.
    pub fn new() -> (list: List)
        ensures
            list@ == Seq::<u32>::empty(),
    {
        List::Nil
    }

    /// The list with `elem` put in front.
    pub fn prepend(self, elem: u32) -> (list: List)
        ensures
            list@ == seq![elem] + self@,
    {
        List::Cons(elem, Box::new(self))
    }

    /// The number of elements.
    pub fn len(&self) -> (count: u32)
        requires
            self@.len() <= u32::MAX,
        ensures
            count == self@.len(),
        decreases self,
    {
        match self {
            List::Cons(_, tail) => 1 + tail.len(),
            List::Nil => 0,
        }
    }

    /// The list written out, as `list_text` describes.
    pub fn stringify(&self) -> (text: String)
        ensures
            text@ == list_text(self@),
        decreases self,
    {
        match self {
            List::Cons(head, tail) => {
                let mut text = decimal_string(*head as u64);
                text.append(", ");
                let rest = tail.stringify();
                text.append(rest.as_str());
                proof {
                    assert(self@.skip(1) =~= tail@);
                    assert(self@[0] == *head);
                }
                text
            },
            List::Nil => String::from_str("Nil"),
        }
    }
}

} // verus!
