//! Type-states for the argument format axis.

use vstd::prelude::*;
use crate::config::Format;
use crate::fixed_point::{DataType, Fix15, Fix31};

verus! {

/// Trait for argument-format type-states.
pub trait State {
    /// The numeric format this tag stands for.
    spec fn spec_format() -> Format;

    /// The numeric format this tag stands for.
    fn format() -> (r: Format)
        ensures
            r == Self::spec_format(),
    ;
}

/// q1.31 fixed-point format.
pub struct Q31;

/// q1.15 fixed-point format.
pub struct Q15;

impl DataType for Q31 {
    type Fixed = Fix31;
}

impl DataType for Q15 {
    type Fixed = Fix15;
}

impl State for Q31 {
    open spec fn spec_format() -> Format {
        Format::Wide
    }

    fn format() -> (r: Format) {
        Format::Wide
    }
}

impl State for Q15 {
    open spec fn spec_format() -> Format {
        Format::Narrow
    }

    fn format() -> (r: Format) {
        Format::Narrow
    }
}

} // verus!
