//! The precision axis: how many iterations the accelerator runs.
//!
//! The hardware offers fifteen levels, 4 through 60 iterations in steps of
//! four.  The register field stores `level index + 1`; the field value 0 is
//! reserved and never emitted.

use vstd::prelude::*;

verus! {

/// One of the fifteen admissible iteration counts.
#[derive(Clone, Copy, PartialEq, Eq, Structural, Debug)]
pub enum Precision {
    /// 4 iterations.
    P4,
    /// 8 iterations.
    P8,
    /// 12 iterations.
    P12,
    /// 16 iterations.
    P16,
    /// 20 iterations.
    P20,
    /// 24 iterations.
    P24,
    /// 28 iterations.
    P28,
    /// 32 iterations.
    P32,
    /// 36 iterations.
    P36,
    /// 40 iterations.
    P40,
    /// 44 iterations.
    P44,
    /// 48 iterations.
    P48,
    /// 52 iterations.
    P52,
    /// 56 iterations.
    P56,
    /// 60 iterations.
    P60,
}

/// The register encoding of a precision level: its index plus one.
pub open spec fn spec_encoding(level: Precision) -> u8 {
    match level {
        Precision::P4 => 1,
        Precision::P8 => 2,
        Precision::P12 => 3,
        Precision::P16 => 4,
        Precision::P20 => 5,
        Precision::P24 => 6,
        Precision::P28 => 7,
        Precision::P32 => 8,
        Precision::P36 => 9,
        Precision::P40 => 10,
        Precision::P44 => 11,
        Precision::P48 => 12,
        Precision::P52 => 13,
        Precision::P56 => 14,
        Precision::P60 => 15,
    }
}

/// The iteration count a level stands for.
pub open spec fn spec_iterations(level: Precision) -> u32 {
    (4 * spec_encoding(level)) as u32
}

/// The level a register field value decodes to; the reserved value 0 and
/// everything above 15 decode to nothing.
pub open spec fn spec_decoding(bits: u8) -> Option<Precision> {
    if bits == 1 {
        Some(Precision::P4)
    } else if bits == 2 {
        Some(Precision::P8)
    } else if bits == 3 {
        Some(Precision::P12)
    } else if bits == 4 {
        Some(Precision::P16)
    } else if bits == 5 {
        Some(Precision::P20)
    } else if bits == 6 {
        Some(Precision::P24)
    } else if bits == 7 {
        Some(Precision::P28)
    } else if bits == 8 {
        Some(Precision::P32)
    } else if bits == 9 {
        Some(Precision::P36)
    } else if bits == 10 {
        Some(Precision::P40)
    } else if bits == 11 {
        Some(Precision::P44)
    } else if bits == 12 {
        Some(Precision::P48)
    } else if bits == 13 {
        Some(Precision::P52)
    } else if bits == 14 {
        Some(Precision::P56)
    } else if bits == 15 {
        Some(Precision::P60)
    } else {
        None
    }
}

/// The register encoding of a precision level.
pub fn encoding(level: Precision) -> (r: u8)
    ensures
        r == spec_encoding(level),
        1 <= r <= 15,
{
    match level {
        Precision::P4 => 1,
        Precision::P8 => 2,
        Precision::P12 => 3,
        Precision::P16 => 4,
        Precision::P20 => 5,
        Precision::P24 => 6,
        Precision::P28 => 7,
        Precision::P32 => 8,
        Precision::P36 => 9,
        Precision::P40 => 10,
        Precision::P44 => 11,
        Precision::P48 => 12,
        Precision::P52 => 13,
        Precision::P56 => 14,
        Precision::P60 => 15,
    }
}

/// Decode a register field value back to its level.
pub fn decoding(bits: u8) -> (r: Option<Precision>)
    ensures
        r == spec_decoding(bits),
{
    match bits {
        1 => Some(Precision::P4),
        2 => Some(Precision::P8),
        3 => Some(Precision::P12),
        4 => Some(Precision::P16),
        5 => Some(Precision::P20),
        6 => Some(Precision::P24),
        7 => Some(Precision::P28),
        8 => Some(Precision::P32),
        9 => Some(Precision::P36),
        10 => Some(Precision::P40),
        11 => Some(Precision::P44),
        12 => Some(Precision::P48),
        13 => Some(Precision::P52),
        14 => Some(Precision::P56),
        15 => Some(Precision::P60),
        _ => None,
    }
}

/// The iteration count a level stands for.
pub fn iterations(level: Precision) -> (r: u32)
    ensures
        r == spec_iterations(level),
{
    4 * (encoding(level) as u32)
}

/// Encoding a precision level into the register field and decoding the
/// field back yields the same level, and with it the same iteration count,
/// for every level.
pub proof fn lemma_precision_roundtrip(level: Precision)
    ensures
        spec_decoding(spec_encoding(level)) == Some(level),
{
}

/// Trait for precision type-states: compile-time tags that each stand for
/// one level.
pub trait State {
    /// The level this tag stands for.
    spec fn spec_level() -> Precision;

    /// The level this tag stands for.
    fn level() -> (r: Precision)
        ensures
            r == Self::spec_level(),
    ;
}

/// 4 iterations.
pub struct P4;

/// 8 iterations.
pub struct P8;

/// 12 iterations.
pub struct P12;

/// 16 iterations.
pub struct P16;

/// 20 iterations.
pub struct P20;

/// 24 iterations.
pub struct P24;

/// 28 iterations.
pub struct P28;

/// 32 iterations.
pub struct P32;

/// 36 iterations.
pub struct P36;

/// 40 iterations.
pub struct P40;

/// 44 iterations.
pub struct P44;

/// 48 iterations.
pub struct P48;

/// 52 iterations.
pub struct P52;

/// 56 iterations.
pub struct P56;

/// 60 iterations.
pub struct P60;

impl State for P4 {
    open spec fn spec_level() -> Precision {
        Precision::P4
    }

    fn level() -> (r: Precision) {
        Precision::P4
    }
}

impl State for P8 {
    open spec fn spec_level() -> Precision {
        Precision::P8
    }

    fn level() -> (r: Precision) {
        Precision::P8
    }
}

impl State for P12 {
    open spec fn spec_level() -> Precision {
        Precision::P12
    }

    fn level() -> (r: Precision) {
        Precision::P12
    }
}

impl State for P16 {
    open spec fn spec_level() -> Precision {
        Precision::P16
    }

    fn level() -> (r: Precision) {
        Precision::P16
    }
}

impl State for P20 {
    open spec fn spec_level() -> Precision {
        Precision::P20
    }

    fn level() -> (r: Precision) {
        Precision::P20
    }
}

impl State for P24 {
    open spec fn spec_level() -> Precision {
        Precision::P24
    }

    fn level() -> (r: Precision) {
        Precision::P24
    }
}

impl State for P28 {
    open spec fn spec_level() -> Precision {
        Precision::P28
    }

    fn level() -> (r: Precision) {
        Precision::P28
    }
}

impl State for P32 {
    open spec fn spec_level() -> Precision {
        Precision::P32
    }

    fn level() -> (r: Precision) {
        Precision::P32
    }
}

impl State for P36 {
    open spec fn spec_level() -> Precision {
        Precision::P36
    }

    fn level() -> (r: Precision) {
        Precision::P36
    }
}

impl State for P40 {
    open spec fn spec_level() -> Precision {
        Precision::P40
    }

    fn level() -> (r: Precision) {
        Precision::P40
    }
}

impl State for P44 {
    open spec fn spec_level() -> Precision {
        Precision::P44
    }

    fn level() -> (r: Precision) {
        Precision::P44
    }
}

impl State for P48 {
    open spec fn spec_level() -> Precision {
        Precision::P48
    }

    fn level() -> (r: Precision) {
        Precision::P48
    }
}

impl State for P52 {
    open spec fn spec_level() -> Precision {
        Precision::P52
    }

    fn level() -> (r: Precision) {
        Precision::P52
    }
}

impl State for P56 {
    open spec fn spec_level() -> Precision {
        Precision::P56
    }

    fn level() -> (r: Precision) {
        Precision::P56
    }
}

impl State for P60 {
    open spec fn spec_level() -> Precision {
        Precision::P60
    }

    fn level() -> (r: Precision) {
        Precision::P60
    }
}

} // verus!
