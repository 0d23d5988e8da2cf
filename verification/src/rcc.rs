//! Model of the clock-control collaborator.
//!
//! The accelerator's registers are dead until its clock-enable bit in the
//! system's clock-control block is set.  The model keeps exactly the one
//! bit the claim and release paths read and write.

use vstd::prelude::*;

verus! {

/// The clock-control block, reduced to the accelerator's clock-enable bit.
pub struct Rcc {
    /// Whether the accelerator's clock is enabled.
    pub cordic_en: bool,
}

impl Rcc {
    /// A clock-control block with the accelerator's clock still disabled.
    pub fn new() -> (r: Rcc)
        ensures
            !r.cordic_en,
    {
        Rcc { cordic_en: false }
    }

    /// Enable the accelerator's clock.
    pub fn enable_cordic(&mut self)
        ensures
            final(self).cordic_en,
    {
        self.cordic_en = true;
    }

    /// Disable the accelerator's clock.
    pub fn disable_cordic(&mut self)
        ensures
            !final(self).cordic_en,
    {
        self.cordic_en = false;
    }

    /// Read the clock-enable bit back.
    pub fn cordic_enabled(&self) -> (r: bool)
        ensures
            r == self.cordic_en,
    {
        self.cordic_en
    }
}

} // verus!
