//! Type-states for a function's scale exponent.

use vstd::prelude::*;

verus! {

/// Trait for scale type-states.
pub trait State {
    /// The scale exponent this tag stands for.
    spec fn spec_bits() -> u8;

    /// The scale exponent this tag stands for.
    fn bits() -> (r: u8)
        ensures
            r == Self::spec_bits(),
            r <= 7,
    ;
}

/// Scale of 0.
pub struct N0;

/// Scale of 1.
pub struct N1;

/// Scale of 2.
pub struct N2;

/// Scale of 3.
pub struct N3;

/// Scale of 4.
pub struct N4;

/// Scale of 5.
pub struct N5;

/// Scale of 6.
pub struct N6;

/// Scale of 7.
pub struct N7;

impl State for N0 {
    open spec fn spec_bits() -> u8 {
        0
    }

    fn bits() -> (r: u8) {
        0
    }
}

impl State for N1 {
    open spec fn spec_bits() -> u8 {
        1
    }

    fn bits() -> (r: u8) {
        1
    }
}

impl State for N2 {
    open spec fn spec_bits() -> u8 {
        2
    }

    fn bits() -> (r: u8) {
        2
    }
}

impl State for N3 {
    open spec fn spec_bits() -> u8 {
        3
    }

    fn bits() -> (r: u8) {
        3
    }
}

impl State for N4 {
    open spec fn spec_bits() -> u8 {
        4
    }

    fn bits() -> (r: u8) {
        4
    }
}

impl State for N5 {
    open spec fn spec_bits() -> u8 {
        5
    }

    fn bits() -> (r: u8) {
        5
    }
}

impl State for N6 {
    open spec fn spec_bits() -> u8 {
        6
    }

    fn bits() -> (r: u8) {
        6
    }
}

impl State for N7 {
    open spec fn spec_bits() -> u8 {
        7
    }

    fn bits() -> (r: u8) {
        7
    }
}

} // verus!
