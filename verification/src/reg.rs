//! Model of the accelerator's register block.
//!
//! The boundary the driver sees is three registers: the control/status
//! word, a write-data register that takes operand words, and a read-data
//! register that yields result words.  The model records the control word,
//! the full history of operand-register writes (newest last) and the
//! result words the read-data register will deliver next (front first).
//! The silicon that fills the read side is outside the model; tests and
//! callers stand in for it through [`crate::binding::Cordic::complete`].

use vstd::prelude::*;
use crate::config::{csr_matches, flag_ien, flag_rrdy, lemma_reset_pattern, Config, CSR_RESET};

verus! {

/// The register block, as the driver sees it.
pub struct CordicReg {
    /// The control/status register.
    pub csr: u32,
    /// Every word written to the write-data register, in order.
    pub written: Vec<u32>,
    /// The result words the read-data register will deliver, front first.
    pub pending: Vec<u32>,
}

impl CordicReg {
    /// A register block as it comes out of hardware reset.
    pub fn new() -> (r: CordicReg)
        ensures
            r.csr == CSR_RESET,
            csr_matches(r.csr, Config::spec_reset()),
            !flag_rrdy(r.csr),
            !flag_ien(r.csr),
            r.written@ == Seq::<u32>::empty(),
            r.pending@ == Seq::<u32>::empty(),
    {
        proof {
            lemma_reset_pattern();
        }
        CordicReg { csr: CSR_RESET, written: Vec::new(), pending: Vec::new() }
    }
}

} // verus!
