//! Operand packing and result unpacking.
//!
//! The shape of a transfer — how many values, which width, how they share
//! register words — is decided entirely by the configuration.  Wide values
//! take one full register word each.  Narrow values share one word: the
//! primary value in the low halfword, the secondary in the high halfword.
//! A single narrow operand still has its high halfword filled, with the
//! pattern standing for +1, because the hardware reads both halves
//! whenever the argument format is narrow.

use vstd::prelude::*;
use crate::config::{Config, Format, spec_operand_writes, spec_result_reads};
use crate::fixed_point::{Fix15, Fix31};
use crate::func;

verus! {

/// The high-halfword fill pattern for a single narrow operand: all-ones
/// mantissa, standing for +1.
pub const NARROW_FILL: u16 = 0x7fff;

/// The operand list of one evaluation: as many values as the function
/// consumes, in the width the argument format prescribes.
#[derive(Clone, Copy, PartialEq, Eq, Structural, Debug)]
pub enum Operands {
    /// One wide operand.
    OneWide(Fix31),
    /// Two wide operands: primary, then secondary.
    TwoWide(Fix31, Fix31),
    /// One narrow operand.
    OneNarrow(Fix15),
    /// Two narrow operands: primary, then secondary.
    TwoNarrow(Fix15, Fix15),
}

/// The result list of one evaluation: as many values as the function
/// produces, in the width the result format prescribes.
#[derive(Clone, Copy, PartialEq, Eq, Structural, Debug)]
pub enum Outputs {
    /// One wide result.
    OneWide(Fix31),
    /// Two wide results: primary, then secondary.
    TwoWide(Fix31, Fix31),
    /// One narrow result.
    OneNarrow(Fix15),
    /// Two narrow results: primary, then secondary.
    TwoNarrow(Fix15, Fix15),
}

/// Whether an operand list has the count and width the configuration
/// prescribes.
pub open spec fn matches_shape(ops: Operands, cfg: Config) -> bool {
    match ops {
        Operands::OneWide(_) => cfg.arg == Format::Wide && func::spec_operand_count(cfg.func)
            == 1,
        Operands::TwoWide(_, _) => cfg.arg == Format::Wide && func::spec_operand_count(cfg.func)
            == 2,
        Operands::OneNarrow(_) => cfg.arg == Format::Narrow && func::spec_operand_count(cfg.func)
            == 1,
        Operands::TwoNarrow(_, _) => cfg.arg == Format::Narrow && func::spec_operand_count(
            cfg.func,
        ) == 2,
    }
}

/// A narrow bit pattern placed in the low halfword of a register word.
pub open spec fn spec_half(bits: i16) -> u32 {
    (bits as u16) as u32
}

/// The register words an operand list packs into, in write order.
pub open spec fn spec_packed(ops: Operands) -> Seq<u32> {
    match ops {
        Operands::OneWide(p) => seq![p.bits as u32],
        Operands::TwoWide(p, s) => seq![p.bits as u32, s.bits as u32],
        Operands::OneNarrow(p) => seq![spec_half(p.bits) | ((NARROW_FILL as u32) << 16)],
        Operands::TwoNarrow(p, s) => seq![spec_half(p.bits) | (spec_half(s.bits) << 16)],
    }
}

/// An operand list of the shape a configuration prescribes packs into
/// exactly as many register words as the configuration's operand-write
/// count — the count the register block's two-operand-writes flag
/// advertises to the hardware.
pub proof fn lemma_packed_length(ops: Operands, cfg: Config)
    requires
        matches_shape(ops, cfg),
    ensures
        spec_packed(ops).len() == spec_operand_writes(cfg),
{
}

/// A single narrow operand packs into exactly one register word whose
/// high halfword is the fixed fill pattern and whose low halfword is the
/// operand's 16-bit encoding, for every operand value.
pub proof fn lemma_narrow_single_packing(p: Fix15)
    ensures
        spec_packed(Operands::OneNarrow(p)).len() == 1,
        spec_packed(Operands::OneNarrow(p))[0] >> 16 == NARROW_FILL as u32,
        spec_packed(Operands::OneNarrow(p))[0] & 0xffff == spec_half(p.bits),
{
    let b = p.bits;
    assert((((b as u16) as u32) | ((0x7fffu16 as u32) << 16)) >> 16 == 0x7fffu16 as u32 && (((b
        as u16) as u32) | ((0x7fffu16 as u32) << 16)) & 0xffff == (b as u16) as u32)
        by (bit_vector);
}

/// Two narrow operands pack into exactly one register word: the primary
/// in the low halfword, the secondary in the high halfword, both
/// sign-truncated to 16 bits, for every pair of values.
pub proof fn lemma_narrow_pair_packing(p: Fix15, s: Fix15)
    ensures
        spec_packed(Operands::TwoNarrow(p, s)).len() == 1,
        spec_packed(Operands::TwoNarrow(p, s))[0] & 0xffff == spec_half(p.bits),
        spec_packed(Operands::TwoNarrow(p, s))[0] >> 16 == spec_half(s.bits),
{
    let b = p.bits;
    let c = s.bits;
    assert((((b as u16) as u32) | (((c as u16) as u32) << 16)) & 0xffff == (b as u16) as u32
        && (((b as u16) as u32) | (((c as u16) as u32) << 16)) >> 16 == (c as u16) as u32)
        by (bit_vector);
}

/// Two wide operands pack into exactly two full register words, the
/// primary first and the secondary second, for every pair of values.
pub proof fn lemma_wide_pair_packing(p: Fix31, s: Fix31)
    ensures
        spec_packed(Operands::TwoWide(p, s)).len() == 2,
        spec_packed(Operands::TwoWide(p, s))[0] == p.bits as u32,
        spec_packed(Operands::TwoWide(p, s))[1] == s.bits as u32,
{
}

/// Under a two-result narrow configuration, one register word unpacks
/// into two independent narrow values: the low halfword of the word is
/// the primary value's 16-bit encoding and the high halfword the
/// secondary's, for every word.
pub proof fn lemma_narrow_pair_unpacking(cfg: Config, word: u32)
    requires
        cfg.res == Format::Narrow,
        func::spec_result_count(cfg.func) == 2,
    ensures
        spec_unpacked(cfg, seq![word]) == Outputs::TwoNarrow(
            Fix15 { bits: (word & 0xffff) as i16 },
            Fix15 { bits: (word >> 16) as i16 },
        ),
        spec_half((word & 0xffff) as i16) == word & 0xffff,
        spec_half((word >> 16) as i16) == word >> 16,
{
    assert((((word & 0xffff) as i16 as u16) as u32) == word & 0xffff && (((word >> 16) as i16
        as u16) as u32) == word >> 16) by (bit_vector);
}

/// The result list a sequence of register words unpacks to under a
/// configuration: symmetric to the packing rule.
pub open spec fn spec_unpacked(cfg: Config, words: Seq<u32>) -> Outputs
    recommends
        words.len() == spec_result_reads(cfg),
{
    if cfg.res == Format::Wide {
        if func::spec_result_count(cfg.func) == 2 {
            Outputs::TwoWide(
                Fix31 { bits: words[0] as i32 },
                Fix31 { bits: words[1] as i32 },
            )
        } else {
            Outputs::OneWide(Fix31 { bits: words[0] as i32 })
        }
    } else {
        if func::spec_result_count(cfg.func) == 2 {
            Outputs::TwoNarrow(
                Fix15 { bits: (words[0] & 0xffff) as i16 },
                Fix15 { bits: (words[0] >> 16) as i16 },
            )
        } else {
            Outputs::OneNarrow(Fix15 { bits: (words[0] & 0xffff) as i16 })
        }
    }
}

} // verus!
