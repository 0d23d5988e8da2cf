//! Type-states for a function's operand count.

use vstd::prelude::*;

verus! {

/// Trait for operand-count type-states.
pub trait State {
    /// The operand count this tag stands for.
    spec fn spec_count() -> u32;

    /// The operand count this tag stands for.
    fn count() -> (r: u32)
        ensures
            r == Self::spec_count(),
    ;
}

/// One (primary) function operand.
pub struct One;

/// Two (primary and secondary) function operands.
pub struct Two;

impl State for One {
    open spec fn spec_count() -> u32 {
        1
    }

    fn count() -> (r: u32) {
        1
    }
}

impl State for Two {
    open spec fn spec_count() -> u32 {
        2
    }

    fn count() -> (r: u32) {
        2
    }
}

} // verus!
