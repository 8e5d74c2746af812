//! Values of number entities.

use vstd::prelude::*;

verus! {

/// Number state for publishing (just the value).
#[derive(Clone, Copy, Debug, PartialEq, Eq, Structural)]
pub struct NumberState {
    pub value: i32,
}

impl NumberState {
    /// A state holding `value`.
    pub fn new(value: i32) -> (s: Self)
        ensures
            s.value == value,
    {
        NumberState { value }
    }
}

} // verus!
