//! Small helpers of the views: reading a number out of an input event and
//! placing separators between the parts of a list.

use vstd::prelude::*;
use crate::text::{parse_u32, parsed_u32};

verus! {

/// Something that a number may be read from.
pub trait EventParser {
    /// The number that it holds, where it holds one.
    spec fn parsed(&self) -> Option<u32>;

    /// Reads the number.
    fn parse(&self) -> (value: Option<u32>)
        ensures
            value == self.parsed(),
    ;
}

/// What a change event carries: the text of the input element that it came
/// from, or nothing where it came from anything else.
#[derive(Debug)]
pub struct InputEvent {
    pub value: Option<String>,
}

impl EventParser for InputEvent {
    open spec fn parsed(&self) -> Option<u32> {
        match self.value {
            Some(text) => parsed_u32(text@),
            None => None,
        }
    }

    fn parse(&self) -> (value: Option<u32>) {
        match &self.value {
            Some(text) => parse_u32(text.as_str()),
            None => None,
        }
    }
}

/// Length of a list of `count` parts with a separator between each two.
pub open spec fn joined_len(count: nat) -> nat {
    if count == 0 {
        0
    } else {
        (2 * count - 1) as nat
    }
}

/// A list whose parts can be joined by separators.
pub trait ViewVecExt<T>: Sized {
    /// The parts of the list.
    spec fn parts(&self) -> Seq<T>;

    /// The parts in their order, with a separator made by `separator_fn`
    /// between each two of them.
    fn join<F: Fn() -> T>(self, separator_fn: F) -> (joined: Vec<T>)
        requires
            call_requires(separator_fn, ()),
        ensures
            joined@.len() == joined_len(self.parts().len()),
            forall|i: int| 0 <= i < self.parts().len() ==> joined@[2 * i] == self.parts()[i],
            forall|i: int|
                0 <= i < self.parts().len() - 1 ==> call_ensures(
                    separator_fn,
                    (),
                    #[trigger] joined@[2 * i + 1],
                ),
    ;
}

impl<T> ViewVecExt<T> for Vec<T> {
    open spec fn parts(&self) -> Seq<T> {
        self@
    }

    fn join<F: Fn() -> T>(self, separator_fn: F) -> (joined: Vec<T>) {
        let ghost parts = self@;
        let mut result: Vec<T> = Vec::new();
        for view in it: self.into_iter()
            invariant
                it.seq() == parts,
                call_requires(separator_fn, ()),
                result@.len() == joined_len(it.index() as nat),
                forall|i: int| 0 <= i < it.index() ==> result@[2 * i] == parts[i],
                forall|i: int|
                    0 <= i < it.index() - 1 ==> call_ensures(
                        separator_fn,
                        (),
                        #[trigger] result@[2 * i + 1],
                    ),
        {
            if result.len() > 0 {
                result.push(separator_fn());
            }
            result.push(view);
        }
        result
    }
}

} // verus!
