//! Configuration state: one concrete combination of the four axes, and its
//! register bit pattern.
//!
//! The control register packs the function field into bits 3:0, the
//! precision field into bits 7:4 and the scale field into bits 10:8.  Four
//! single-bit flags describe the transfer shape: bit 19 (two result reads),
//! bit 20 (two operand writes), bit 21 (narrow result format) and bit 22
//! (narrow argument format).  Bit 16 enables the result-ready interrupt and
//! bit 31 is the read-only result-ready flag.

use vstd::prelude::*;
use crate::func;
use crate::func::Function;
use crate::prec;
use crate::prec::Precision;

verus! {

/// The numeric encoding of an operand or result: 32-bit (1 sign bit and 31
/// fraction bits) or 16-bit (1 sign bit and 15 fraction bits).
#[derive(Clone, Copy, PartialEq, Eq, Structural, Debug)]
pub enum Format {
    /// 32-bit fixed point.
    Wide,
    /// 16-bit fixed point.
    Narrow,
}

/// One admissible combination of argument format, result format, function
/// (with its scale, where the family has one) and precision.
#[derive(Clone, Copy, PartialEq, Eq, Structural, Debug)]
pub struct Config {
    /// The numeric format of every operand.
    pub arg: Format,
    /// The numeric format of every result.
    pub res: Format,
    /// The function the accelerator evaluates.
    pub func: Function,
    /// The iteration count.
    pub prec: Precision,
}

/// The control register's value after a hardware reset: wide argument and
/// result format, cosine, 20 iterations.
pub const CSR_RESET: u32 = 0x50;

/// The function field, bits 3:0.
pub open spec fn field_func(c: u32) -> u32 {
    c & 0xf
}

/// The precision field, bits 7:4.
pub open spec fn field_prec(c: u32) -> u32 {
    (c >> 4) & 0xf
}

/// The scale field, bits 10:8.
pub open spec fn field_scale(c: u32) -> u32 {
    (c >> 8) & 0x7
}

/// The interrupt-enable flag, bit 16.
pub open spec fn flag_ien(c: u32) -> bool {
    c & 0x0001_0000 != 0
}

/// The two-result-reads flag, bit 19.
pub open spec fn flag_nres(c: u32) -> bool {
    c & 0x0008_0000 != 0
}

/// The two-operand-writes flag, bit 20.
pub open spec fn flag_nargs(c: u32) -> bool {
    c & 0x0010_0000 != 0
}

/// The narrow-result-format flag, bit 21.
pub open spec fn flag_ressize(c: u32) -> bool {
    c & 0x0020_0000 != 0
}

/// The narrow-argument-format flag, bit 22.
pub open spec fn flag_argsize(c: u32) -> bool {
    c & 0x0040_0000 != 0
}

/// The result-ready flag, bit 31.
pub open spec fn flag_rrdy(c: u32) -> bool {
    c & 0x8000_0000 != 0
}

/// How many words the operand register takes for one evaluation: two full
/// words only for a two-operand function in the wide format; a narrow
/// two-operand pair shares a single word.
pub open spec fn spec_operand_writes(cfg: Config) -> u32 {
    if func::spec_operand_count(cfg.func) == 2 && cfg.arg == Format::Wide {
        2
    } else {
        1
    }
}

/// How many words the result register yields for one evaluation: two full
/// words only for a two-result function in the wide format; a narrow
/// result pair shares a single word.
pub open spec fn spec_result_reads(cfg: Config) -> u32 {
    if func::spec_result_count(cfg.func) == 2 && cfg.res == Format::Wide {
        2
    } else {
        1
    }
}

/// Whether a register value's configuration fields carry exactly the given
/// configuration.  The interrupt-enable and result-ready flags are not part
/// of the configuration and are left free.
pub open spec fn csr_matches(c: u32, cfg: Config) -> bool {
    &&& field_func(c) == func::spec_code(cfg.func) as u32
    &&& field_prec(c) == prec::spec_encoding(cfg.prec) as u32
    &&& field_scale(c) == func::spec_scale(cfg.func) as u32
    &&& flag_nargs(c) == (func::spec_operand_count(cfg.func) == 2 && cfg.arg == Format::Wide)
    &&& flag_nres(c) == (func::spec_result_count(cfg.func) == 2 && cfg.res == Format::Wide)
    &&& flag_argsize(c) == (cfg.arg == Format::Narrow)
    &&& flag_ressize(c) == (cfg.res == Format::Narrow)
}

impl Config {
    /// The documented post-reset configuration: wide argument and result
    /// format, cosine (one operand, one result, implicit scale 0), 20
    /// iterations.
    pub open spec fn spec_reset() -> Config {
        Config { arg: Format::Wide, res: Format::Wide, func: Function::Cos, prec: Precision::P20 }
    }

    /// The documented post-reset configuration.
    pub fn reset() -> (r: Config)
        ensures
            r == Config::spec_reset(),
    {
        Config { arg: Format::Wide, res: Format::Wide, func: Function::Cos, prec: Precision::P20 }
    }

    /// How many words the operand register takes for one evaluation.
    pub fn operand_writes(&self) -> (r: u32)
        ensures
            r == spec_operand_writes(*self),
    {
        if func::operand_count(self.func) == 2 && self.arg == Format::Wide {
            2
        } else {
            1
        }
    }

    /// How many words the result register yields for one evaluation.
    pub fn result_reads(&self) -> (r: u32)
        ensures
            r == spec_result_reads(*self),
    {
        if func::result_count(self.func) == 2 && self.res == Format::Wide {
            2
        } else {
            1
        }
    }
}

/// The register bit pattern of a configuration: a pure function of the
/// four axes.  The interrupt-enable flag comes out cleared, and the
/// read-only result-ready flag is never set by a write.
pub fn encode_csr(cfg: &Config) -> (r: u32)
    ensures
        csr_matches(r, *cfg),
        !flag_ien(r),
        !flag_rrdy(r),
{
    let f: u32 = func::code(cfg.func) as u32;
    let p: u32 = prec::encoding(cfg.prec) as u32;
    let s: u32 = func::scale_value(cfg.func) as u32;
    let na: u32 = if func::operand_count(cfg.func) == 2 && is_wide(cfg.arg) {
        0x0010_0000
    } else {
        0
    };
    let nr: u32 = if func::result_count(cfg.func) == 2 && is_wide(cfg.res) {
        0x0008_0000
    } else {
        0
    };
    let asz: u32 = if is_wide(cfg.arg) {
        0
    } else {
        0x0040_0000
    };
    let rsz: u32 = if is_wide(cfg.res) {
        0
    } else {
        0x0020_0000
    };
    let r: u32 = f | (p << 4) | (s << 8) | na | nr | asz | rsz;
    proof {
        assert((f | (p << 4) | (s << 8) | na | nr | asz | rsz) & 0xf == f
            && ((f | (p << 4) | (s << 8) | na | nr | asz | rsz) >> 4) & 0xf == p
            && ((f | (p << 4) | (s << 8) | na | nr | asz | rsz) >> 8) & 0x7 == s
            && ((f | (p << 4) | (s << 8) | na | nr | asz | rsz) & 0x0010_0000 != 0) == (na != 0)
            && ((f | (p << 4) | (s << 8) | na | nr | asz | rsz) & 0x0008_0000 != 0) == (nr != 0)
            && ((f | (p << 4) | (s << 8) | na | nr | asz | rsz) & 0x0040_0000 != 0) == (asz != 0)
            && ((f | (p << 4) | (s << 8) | na | nr | asz | rsz) & 0x0020_0000 != 0) == (rsz != 0)
            && (f | (p << 4) | (s << 8) | na | nr | asz | rsz) & 0x0001_0000 == 0
            && (f | (p << 4) | (s << 8) | na | nr | asz | rsz) & 0x8000_0000 == 0) by (bit_vector)
            requires
                f <= 9,
                p <= 15,
                s <= 7,
                na == 0 || na == 0x0010_0000u32,
                nr == 0 || nr == 0x0008_0000u32,
                asz == 0 || asz == 0x0040_0000u32,
                rsz == 0 || rsz == 0x0020_0000u32,
        ;
    }
    r
}

/// Whether a format is the wide one.
fn is_wide(f: Format) -> (r: bool)
    ensures
        r == (f == Format::Wide),
{
    match f {
        Format::Wide => true,
        Format::Narrow => false,
    }
}

/// Clearing the result-ready flag leaves every configuration field and
/// the interrupt-enable flag unchanged.
pub(crate) proof fn lemma_clear_rrdy(c: u32)
    ensures
        field_func(c & 0x7fff_ffff) == field_func(c),
        field_prec(c & 0x7fff_ffff) == field_prec(c),
        field_scale(c & 0x7fff_ffff) == field_scale(c),
        flag_nargs(c & 0x7fff_ffff) == flag_nargs(c),
        flag_nres(c & 0x7fff_ffff) == flag_nres(c),
        flag_argsize(c & 0x7fff_ffff) == flag_argsize(c),
        flag_ressize(c & 0x7fff_ffff) == flag_ressize(c),
        flag_ien(c & 0x7fff_ffff) == flag_ien(c),
        !flag_rrdy(c & 0x7fff_ffff),
{
    assert((c & 0x7fff_ffff) & 0xf == c & 0xf && ((c & 0x7fff_ffff) >> 4) & 0xf == (c >> 4) & 0xf
        && ((c & 0x7fff_ffff) >> 8) & 0x7 == (c >> 8) & 0x7 && (c & 0x7fff_ffff) & 0x0010_0000
        == c & 0x0010_0000 && (c & 0x7fff_ffff) & 0x0008_0000 == c & 0x0008_0000 && (c
        & 0x7fff_ffff) & 0x0040_0000 == c & 0x0040_0000 && (c & 0x7fff_ffff) & 0x0020_0000 == c
        & 0x0020_0000 && (c & 0x7fff_ffff) & 0x0001_0000 == c & 0x0001_0000 && (c & 0x7fff_ffff)
        & 0x8000_0000 == 0) by (bit_vector);
}

/// Setting the result-ready flag leaves every configuration field and
/// the interrupt-enable flag unchanged.
pub(crate) proof fn lemma_set_rrdy(c: u32)
    ensures
        field_func(c | 0x8000_0000) == field_func(c),
        field_prec(c | 0x8000_0000) == field_prec(c),
        field_scale(c | 0x8000_0000) == field_scale(c),
        flag_nargs(c | 0x8000_0000) == flag_nargs(c),
        flag_nres(c | 0x8000_0000) == flag_nres(c),
        flag_argsize(c | 0x8000_0000) == flag_argsize(c),
        flag_ressize(c | 0x8000_0000) == flag_ressize(c),
        flag_ien(c | 0x8000_0000) == flag_ien(c),
        flag_rrdy(c | 0x8000_0000),
{
    assert((c | 0x8000_0000) & 0xf == c & 0xf && ((c | 0x8000_0000) >> 4) & 0xf == (c >> 4) & 0xf
        && ((c | 0x8000_0000) >> 8) & 0x7 == (c >> 8) & 0x7 && (c | 0x8000_0000) & 0x0010_0000
        == c & 0x0010_0000 && (c | 0x8000_0000) & 0x0008_0000 == c & 0x0008_0000 && (c
        | 0x8000_0000) & 0x0040_0000 == c & 0x0040_0000 && (c | 0x8000_0000) & 0x0020_0000 == c
        & 0x0020_0000 && (c | 0x8000_0000) & 0x0001_0000 == c & 0x0001_0000 && (c | 0x8000_0000)
        & 0x8000_0000 != 0) by (bit_vector);
}

/// Setting the interrupt-enable flag leaves every configuration field and
/// the result-ready flag unchanged.
pub(crate) proof fn lemma_set_ien(c: u32)
    ensures
        field_func(c | 0x0001_0000) == field_func(c),
        field_prec(c | 0x0001_0000) == field_prec(c),
        field_scale(c | 0x0001_0000) == field_scale(c),
        flag_nargs(c | 0x0001_0000) == flag_nargs(c),
        flag_nres(c | 0x0001_0000) == flag_nres(c),
        flag_argsize(c | 0x0001_0000) == flag_argsize(c),
        flag_ressize(c | 0x0001_0000) == flag_ressize(c),
        flag_rrdy(c | 0x0001_0000) == flag_rrdy(c),
        flag_ien(c | 0x0001_0000),
{
    assert((c | 0x0001_0000) & 0xf == c & 0xf && ((c | 0x0001_0000) >> 4) & 0xf == (c >> 4) & 0xf
        && ((c | 0x0001_0000) >> 8) & 0x7 == (c >> 8) & 0x7 && (c | 0x0001_0000) & 0x0010_0000
        == c & 0x0010_0000 && (c | 0x0001_0000) & 0x0008_0000 == c & 0x0008_0000 && (c
        | 0x0001_0000) & 0x0040_0000 == c & 0x0040_0000 && (c | 0x0001_0000) & 0x0020_0000 == c
        & 0x0020_0000 && (c | 0x0001_0000) & 0x8000_0000 == c & 0x8000_0000 && (c | 0x0001_0000)
        & 0x0001_0000 != 0) by (bit_vector);
}

/// Clearing the interrupt-enable flag leaves every configuration field and
/// the result-ready flag unchanged.
pub(crate) proof fn lemma_clear_ien(c: u32)
    ensures
        field_func(c & 0xfffe_ffff) == field_func(c),
        field_prec(c & 0xfffe_ffff) == field_prec(c),
        field_scale(c & 0xfffe_ffff) == field_scale(c),
        flag_nargs(c & 0xfffe_ffff) == flag_nargs(c),
        flag_nres(c & 0xfffe_ffff) == flag_nres(c),
        flag_argsize(c & 0xfffe_ffff) == flag_argsize(c),
        flag_ressize(c & 0xfffe_ffff) == flag_ressize(c),
        flag_rrdy(c & 0xfffe_ffff) == flag_rrdy(c),
        !flag_ien(c & 0xfffe_ffff),
{
    assert((c & 0xfffe_ffff) & 0xf == c & 0xf && ((c & 0xfffe_ffff) >> 4) & 0xf == (c >> 4) & 0xf
        && ((c & 0xfffe_ffff) >> 8) & 0x7 == (c >> 8) & 0x7 && (c & 0xfffe_ffff) & 0x0010_0000
        == c & 0x0010_0000 && (c & 0xfffe_ffff) & 0x0008_0000 == c & 0x0008_0000 && (c
        & 0xfffe_ffff) & 0x0040_0000 == c & 0x0040_0000 && (c & 0xfffe_ffff) & 0x0020_0000 == c
        & 0x0020_0000 && (c & 0xfffe_ffff) & 0x8000_0000 == c & 0x8000_0000 && (c & 0xfffe_ffff)
        & 0x0001_0000 == 0) by (bit_vector);
}

/// The reset register value carries exactly the documented reset
/// configuration, with the interrupt disabled and no result pending.
pub proof fn lemma_reset_pattern()
    ensures
        csr_matches(CSR_RESET, Config::spec_reset()),
        !flag_ien(CSR_RESET),
        !flag_rrdy(CSR_RESET),
{
    assert(0x50u32 & 0xf == 0 && (0x50u32 >> 4) & 0xf == 5 && (0x50u32 >> 8) & 0x7 == 0
        && 0x50u32 & 0x0010_0000 == 0 && 0x50u32 & 0x0008_0000 == 0 && 0x50u32 & 0x0040_0000 == 0
        && 0x50u32 & 0x0020_0000 == 0 && 0x50u32 & 0x0001_0000 == 0 && 0x50u32 & 0x8000_0000
        == 0) by (bit_vector);
}

} // verus!
