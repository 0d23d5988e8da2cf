//! Type-states for a function's result count.

use vstd::prelude::*;

verus! {

/// Trait for result-count type-states.
pub trait State {
    /// The result count this tag stands for.
    spec fn spec_count() -> u32;

    /// The result count this tag stands for.
    fn count() -> (r: u32)
        ensures
            r == Self::spec_count(),
    ;
}

/// One (primary) function result.
pub struct One;

/// Two (primary and secondary) function results.
pub struct Two;

impl State for One {
    open spec fn spec_count() -> u32 {
        1
    }

    fn count() -> (r: u32) {
        1
    }
}

impl State for Two {
    open spec fn spec_count() -> u32 {
        2
    }

    fn count() -> (r: u32) {
        2
    }
}

} // verus!
