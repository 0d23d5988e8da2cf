//! The function axis: which operation the accelerator evaluates.
//!
//! Each function fixes how many operands it consumes (one or two), how many
//! results it produces (one or two) and which value goes into the register's
//! function field.  Three function families carry an additional scale
//! exponent; its admissible range differs per family, so each family has a
//! scale enumeration of its own and an out-of-range scale cannot be written
//! down at all.

use core::marker::PhantomData;
use vstd::prelude::*;

pub mod nargs;
pub mod nres;
pub mod scale;

verus! {

/// The scale exponents admissible for the arctangent family: 0 through 7.
#[derive(Clone, Copy, PartialEq, Eq, Structural, Debug)]
pub enum AtanScale {
    /// Scale of 0.
    S0,
    /// Scale of 1.
    S1,
    /// Scale of 2.
    S2,
    /// Scale of 3.
    S3,
    /// Scale of 4.
    S4,
    /// Scale of 5.
    S5,
    /// Scale of 6.
    S6,
    /// Scale of 7.
    S7,
}

/// The scale exponents admissible for the natural logarithm: 1 through 4.
#[derive(Clone, Copy, PartialEq, Eq, Structural, Debug)]
pub enum LnScale {
    /// Scale of 1.
    S1,
    /// Scale of 2.
    S2,
    /// Scale of 3.
    S3,
    /// Scale of 4.
    S4,
}

/// The scale exponents admissible for the square root: 0 through 2.
#[derive(Clone, Copy, PartialEq, Eq, Structural, Debug)]
pub enum SqrtScale {
    /// Scale of 0.
    S0,
    /// Scale of 1.
    S1,
    /// Scale of 2.
    S2,
}

/// One admissible function choice, scale included where the family has one.
#[derive(Clone, Copy, PartialEq, Eq, Structural, Debug)]
pub enum Function {
    /// Cosine of an angle theta divided by pi.
    Cos,
    /// Sine of an angle theta divided by pi.
    Sin,
    /// Sine (primary) and cosine (secondary) of an angle theta divided by pi.
    SinCos,
    /// Modulus (secondary operand) multiplied by the cosine of an angle
    /// theta divided by pi (primary operand).
    CosM,
    /// Modulus (secondary operand) multiplied by the sine of an angle
    /// theta divided by pi (primary operand).
    SinM,
    /// Modulus multiplied by sine (primary result) and cosine (secondary
    /// result) of an angle theta divided by pi.
    SinCosM,
    /// Arctangent of x (primary operand) and y (secondary operand).
    ATan2,
    /// Magnitude of x (primary operand) and y (secondary operand).
    Magnitude,
    /// Arctangent (primary result) and magnitude (secondary result) of
    /// x and y.
    ATan2Magnitude,
    /// Arctangent of x, scaled by 0 through 7.
    ATan(AtanScale),
    /// Hyperbolic cosine of x.
    CosH,
    /// Hyperbolic sine of x.
    SinH,
    /// Hyperbolic sine (primary) and cosine (secondary) of x.
    SinHCosH,
    /// Hyperbolic arctangent of x.
    ATanH,
    /// Natural logarithm of x, scaled by 1 through 4.
    Ln(LnScale),
    /// Square root of x, scaled by 0 through 2.
    Sqrt(SqrtScale),
}

/// How many operands a function consumes: one or two.
pub open spec fn spec_operand_count(f: Function) -> u32 {
    match f {
        Function::CosM => 2,
        Function::SinM => 2,
        Function::SinCosM => 2,
        Function::ATan2 => 2,
        Function::Magnitude => 2,
        Function::ATan2Magnitude => 2,
        _ => 1,
    }
}

/// How many results a function produces: one or two.
pub open spec fn spec_result_count(f: Function) -> u32 {
    match f {
        Function::SinCos => 2,
        Function::SinCosM => 2,
        Function::ATan2Magnitude => 2,
        Function::SinHCosH => 2,
        _ => 1,
    }
}

/// The value of the register's function field for a function choice.
pub open spec fn spec_code(f: Function) -> u8 {
    match f {
        Function::Cos => 0,
        Function::Sin => 1,
        Function::SinCos => 1,
        Function::CosM => 0,
        Function::SinM => 1,
        Function::SinCosM => 1,
        Function::ATan2 => 2,
        Function::Magnitude => 3,
        Function::ATan2Magnitude => 2,
        Function::ATan(_) => 4,
        Function::CosH => 5,
        Function::SinH => 6,
        Function::SinHCosH => 5,
        Function::ATanH => 7,
        Function::Ln(_) => 8,
        Function::Sqrt(_) => 9,
    }
}

/// The scale exponent of an arctangent-family choice.
pub open spec fn spec_atan_scale(s: AtanScale) -> u8 {
    match s {
        AtanScale::S0 => 0,
        AtanScale::S1 => 1,
        AtanScale::S2 => 2,
        AtanScale::S3 => 3,
        AtanScale::S4 => 4,
        AtanScale::S5 => 5,
        AtanScale::S6 => 6,
        AtanScale::S7 => 7,
    }
}

/// The scale exponent of a logarithm-family choice.
pub open spec fn spec_ln_scale(s: LnScale) -> u8 {
    match s {
        LnScale::S1 => 1,
        LnScale::S2 => 2,
        LnScale::S3 => 3,
        LnScale::S4 => 4,
    }
}

/// The scale exponent of a square-root-family choice.
pub open spec fn spec_sqrt_scale(s: SqrtScale) -> u8 {
    match s {
        SqrtScale::S0 => 0,
        SqrtScale::S1 => 1,
        SqrtScale::S2 => 2,
    }
}

/// The value of the register's scale field for a function choice.  The
/// functions without an explicit scale parameter have a fixed implicit
/// scale: 0 for the circular functions, 1 for the hyperbolic ones.
pub open spec fn spec_scale(f: Function) -> u8 {
    match f {
        Function::ATan(s) => spec_atan_scale(s),
        Function::Ln(s) => spec_ln_scale(s),
        Function::Sqrt(s) => spec_sqrt_scale(s),
        Function::CosH => 1,
        Function::SinH => 1,
        Function::SinHCosH => 1,
        Function::ATanH => 1,
        _ => 0,
    }
}

/// How many operands a function consumes.
pub fn operand_count(f: Function) -> (r: u32)
    ensures
        r == spec_operand_count(f),
        1 <= r <= 2,
{
    match f {
        Function::CosM => 2,
        Function::SinM => 2,
        Function::SinCosM => 2,
        Function::ATan2 => 2,
        Function::Magnitude => 2,
        Function::ATan2Magnitude => 2,
        _ => 1,
    }
}

/// How many results a function produces.
pub fn result_count(f: Function) -> (r: u32)
    ensures
        r == spec_result_count(f),
        1 <= r <= 2,
{
    match f {
        Function::SinCos => 2,
        Function::SinCosM => 2,
        Function::ATan2Magnitude => 2,
        Function::SinHCosH => 2,
        _ => 1,
    }
}

/// The value of the register's function field.
pub fn code(f: Function) -> (r: u8)
    ensures
        r == spec_code(f),
        r <= 9,
{
    match f {
        Function::Cos => 0,
        Function::Sin => 1,
        Function::SinCos => 1,
        Function::CosM => 0,
        Function::SinM => 1,
        Function::SinCosM => 1,
        Function::ATan2 => 2,
        Function::Magnitude => 3,
        Function::ATan2Magnitude => 2,
        Function::ATan(_) => 4,
        Function::CosH => 5,
        Function::SinH => 6,
        Function::SinHCosH => 5,
        Function::ATanH => 7,
        Function::Ln(_) => 8,
        Function::Sqrt(_) => 9,
    }
}

/// The value of the register's scale field.
pub fn scale_value(f: Function) -> (r: u8)
    ensures
        r == spec_scale(f),
        r <= 7,
{
    match f {
        Function::ATan(s) => match s {
            AtanScale::S0 => 0,
            AtanScale::S1 => 1,
            AtanScale::S2 => 2,
            AtanScale::S3 => 3,
            AtanScale::S4 => 4,
            AtanScale::S5 => 5,
            AtanScale::S6 => 6,
            AtanScale::S7 => 7,
        },
        Function::Ln(s) => match s {
            LnScale::S1 => 1,
            LnScale::S2 => 2,
            LnScale::S3 => 3,
            LnScale::S4 => 4,
        },
        Function::Sqrt(s) => match s {
            SqrtScale::S0 => 0,
            SqrtScale::S1 => 1,
            SqrtScale::S2 => 2,
        },
        Function::CosH => 1,
        Function::SinH => 1,
        Function::SinHCosH => 1,
        Function::ATanH => 1,
        _ => 0,
    }
}

/// The derived operand and result counts of every function variant, as the
/// documented table gives them: one row per variant, operand count first.
pub proof fn lemma_shape_table()
    ensures
        spec_operand_count(Function::Cos) == 1 && spec_result_count(Function::Cos) == 1,
        spec_operand_count(Function::Sin) == 1 && spec_result_count(Function::Sin) == 1,
        spec_operand_count(Function::SinCos) == 1 && spec_result_count(Function::SinCos) == 2,
        spec_operand_count(Function::CosM) == 2 && spec_result_count(Function::CosM) == 1,
        spec_operand_count(Function::SinM) == 2 && spec_result_count(Function::SinM) == 1,
        spec_operand_count(Function::SinCosM) == 2 && spec_result_count(Function::SinCosM) == 2,
        spec_operand_count(Function::ATan2) == 2 && spec_result_count(Function::ATan2) == 1,
        spec_operand_count(Function::Magnitude) == 2 && spec_result_count(Function::Magnitude)
            == 1,
        spec_operand_count(Function::ATan2Magnitude) == 2 && spec_result_count(
            Function::ATan2Magnitude,
        ) == 2,
        forall|s: AtanScale|
            spec_operand_count(Function::ATan(s)) == 1 && spec_result_count(Function::ATan(s))
                == 1,
        spec_operand_count(Function::CosH) == 1 && spec_result_count(Function::CosH) == 1,
        spec_operand_count(Function::SinH) == 1 && spec_result_count(Function::SinH) == 1,
        spec_operand_count(Function::SinHCosH) == 1 && spec_result_count(Function::SinHCosH) == 2,
        spec_operand_count(Function::ATanH) == 1 && spec_result_count(Function::ATanH) == 1,
        forall|s: LnScale|
            spec_operand_count(Function::Ln(s)) == 1 && spec_result_count(Function::Ln(s)) == 1,
        forall|s: SqrtScale|
            spec_operand_count(Function::Sqrt(s)) == 1 && spec_result_count(Function::Sqrt(s))
                == 1,
{
}

/// Trait for function type-states: compile-time tags that each stand for
/// one function choice, with the derived operand and result counts
/// exposed as type-level tags of their own.
pub trait State {
    /// The operand count the function fixes.
    type Args: nargs::State;

    /// The result count the function fixes.
    type Results: nres::State;

    /// The function choice this tag stands for.
    spec fn spec_func() -> Function;

    /// The function choice this tag stands for.
    fn func() -> (r: Function)
        ensures
            r == Self::spec_func(),
            spec_operand_count(r) == <Self::Args as nargs::State>::spec_count(),
            spec_result_count(r) == <Self::Results as nres::State>::spec_count(),
    ;
}

/// Cosine of an angle theta divided by pi.
pub struct Cos;

/// Sine of an angle theta divided by pi.
pub struct Sin;

/// Sine (primary) and cosine (secondary) of an angle theta divided by pi.
pub struct SinCos;

/// Modulus (secondary) multiplied by the cosine of an angle theta divided
/// by pi (primary).
pub struct CosM;

/// Modulus (secondary) multiplied by the sine of an angle theta divided
/// by pi (primary).
pub struct SinM;

/// Modulus multiplied by sine (primary) and cosine (secondary) of an
/// angle theta divided by pi.
pub struct SinCosM;

/// Arctangent of x (primary) and y (secondary).
pub struct ATan2;

/// Magnitude of x (primary) and y (secondary).
pub struct Magnitude;

/// Arctangent (primary) and magnitude (secondary) of x and y.
pub struct ATan2Magnitude;

/// Arctangent of x.
///
/// This function can be scaled by 0-7.
pub struct ATan<Scale: scale::State> {
    _scale: PhantomData<Scale>,
}

/// Hyperbolic cosine of x.
pub struct CosH;

/// Hyperbolic sine of x.
pub struct SinH;

/// Hyperbolic sine (primary) and cosine (secondary) of x.
pub struct SinHCosH;

/// Hyperbolic arctangent of x.
pub struct ATanH;

/// Natural logarithm of x.
///
/// This function can be scaled by 1-4.
pub struct Ln<Scale: scale::State> {
    _scale: PhantomData<Scale>,
}

/// Square root of x.
///
/// This function can be scaled by 0-2.
pub struct Sqrt<Scale: scale::State> {
    _scale: PhantomData<Scale>,
}

impl State for Cos {
    type Args = nargs::One;

    type Results = nres::One;

    open spec fn spec_func() -> Function {
        Function::Cos
    }

    fn func() -> (r: Function) {
        Function::Cos
    }
}

impl State for Sin {
    type Args = nargs::One;

    type Results = nres::One;

    open spec fn spec_func() -> Function {
        Function::Sin
    }

    fn func() -> (r: Function) {
        Function::Sin
    }
}

impl State for SinCos {
    type Args = nargs::One;

    type Results = nres::Two;

    open spec fn spec_func() -> Function {
        Function::SinCos
    }

    fn func() -> (r: Function) {
        Function::SinCos
    }
}

impl State for CosM {
    type Args = nargs::Two;

    type Results = nres::One;

    open spec fn spec_func() -> Function {
        Function::CosM
    }

    fn func() -> (r: Function) {
        Function::CosM
    }
}

impl State for SinM {
    type Args = nargs::Two;

    type Results = nres::One;

    open spec fn spec_func() -> Function {
        Function::SinM
    }

    fn func() -> (r: Function) {
        Function::SinM
    }
}

impl State for SinCosM {
    type Args = nargs::Two;

    type Results = nres::Two;

    open spec fn spec_func() -> Function {
        Function::SinCosM
    }

    fn func() -> (r: Function) {
        Function::SinCosM
    }
}

impl State for ATan2 {
    type Args = nargs::Two;

    type Results = nres::One;

    open spec fn spec_func() -> Function {
        Function::ATan2
    }

    fn func() -> (r: Function) {
        Function::ATan2
    }
}

impl State for Magnitude {
    type Args = nargs::Two;

    type Results = nres::One;

    open spec fn spec_func() -> Function {
        Function::Magnitude
    }

    fn func() -> (r: Function) {
        Function::Magnitude
    }
}

impl State for ATan2Magnitude {
    type Args = nargs::Two;

    type Results = nres::Two;

    open spec fn spec_func() -> Function {
        Function::ATan2Magnitude
    }

    fn func() -> (r: Function) {
        Function::ATan2Magnitude
    }
}

impl State for ATan<scale::N0> {
    type Args = nargs::One;

    type Results = nres::One;

    open spec fn spec_func() -> Function {
        Function::ATan(AtanScale::S0)
    }

    fn func() -> (r: Function) {
        Function::ATan(AtanScale::S0)
    }
}

impl State for ATan<scale::N1> {
    type Args = nargs::One;

    type Results = nres::One;

    open spec fn spec_func() -> Function {
        Function::ATan(AtanScale::S1)
    }

    fn func() -> (r: Function) {
        Function::ATan(AtanScale::S1)
    }
}

impl State for ATan<scale::N2> {
    type Args = nargs::One;

    type Results = nres::One;

    open spec fn spec_func() -> Function {
        Function::ATan(AtanScale::S2)
    }

    fn func() -> (r: Function) {
        Function::ATan(AtanScale::S2)
    }
}

impl State for ATan<scale::N3> {
    type Args = nargs::One;

    type Results = nres::One;

    open spec fn spec_func() -> Function {
        Function::ATan(AtanScale::S3)
    }

    fn func() -> (r: Function) {
        Function::ATan(AtanScale::S3)
    }
}

impl State for ATan<scale::N4> {
    type Args = nargs::One;

    type Results = nres::One;

    open spec fn spec_func() -> Function {
        Function::ATan(AtanScale::S4)
    }

    fn func() -> (r: Function) {
        Function::ATan(AtanScale::S4)
    }
}

impl State for ATan<scale::N5> {
    type Args = nargs::One;

    type Results = nres::One;

    open spec fn spec_func() -> Function {
        Function::ATan(AtanScale::S5)
    }

    fn func() -> (r: Function) {
        Function::ATan(AtanScale::S5)
    }
}

impl State for ATan<scale::N6> {
    type Args = nargs::One;

    type Results = nres::One;

    open spec fn spec_func() -> Function {
        Function::ATan(AtanScale::S6)
    }

    fn func() -> (r: Function) {
        Function::ATan(AtanScale::S6)
    }
}

impl State for ATan<scale::N7> {
    type Args = nargs::One;

    type Results = nres::One;

    open spec fn spec_func() -> Function {
        Function::ATan(AtanScale::S7)
    }

    fn func() -> (r: Function) {
        Function::ATan(AtanScale::S7)
    }
}

impl State for CosH {
    type Args = nargs::One;

    type Results = nres::One;

    open spec fn spec_func() -> Function {
        Function::CosH
    }

    fn func() -> (r: Function) {
        Function::CosH
    }
}

impl State for SinH {
    type Args = nargs::One;

    type Results = nres::One;

    open spec fn spec_func() -> Function {
        Function::SinH
    }

    fn func() -> (r: Function) {
        Function::SinH
    }
}

impl State for SinHCosH {
    type Args = nargs::One;

    type Results = nres::Two;

    open spec fn spec_func() -> Function {
        Function::SinHCosH
    }

    fn func() -> (r: Function) {
        Function::SinHCosH
    }
}

impl State for ATanH {
    type Args = nargs::One;

    type Results = nres::One;

    open spec fn spec_func() -> Function {
        Function::ATanH
    }

    fn func() -> (r: Function) {
        Function::ATanH
    }
}

impl State for Ln<scale::N1> {
    type Args = nargs::One;

    type Results = nres::One;

    open spec fn spec_func() -> Function {
        Function::Ln(LnScale::S1)
    }

    fn func() -> (r: Function) {
        Function::Ln(LnScale::S1)
    }
}

impl State for Ln<scale::N2> {
    type Args = nargs::One;

    type Results = nres::One;

    open spec fn spec_func() -> Function {
        Function::Ln(LnScale::S2)
    }

    fn func() -> (r: Function) {
        Function::Ln(LnScale::S2)
    }
}

impl State for Ln<scale::N3> {
    type Args = nargs::One;

    type Results = nres::One;

    open spec fn spec_func() -> Function {
        Function::Ln(LnScale::S3)
    }

    fn func() -> (r: Function) {
        Function::Ln(LnScale::S3)
    }
}

impl State for Ln<scale::N4> {
    type Args = nargs::One;

    type Results = nres::One;

    open spec fn spec_func() -> Function {
        Function::Ln(LnScale::S4)
    }

    fn func() -> (r: Function) {
        Function::Ln(LnScale::S4)
    }
}

impl State for Sqrt<scale::N0> {
    type Args = nargs::One;

    type Results = nres::One;

    open spec fn spec_func() -> Function {
        Function::Sqrt(SqrtScale::S0)
    }

    fn func() -> (r: Function) {
        Function::Sqrt(SqrtScale::S0)
    }
}

impl State for Sqrt<scale::N1> {
    type Args = nargs::One;

    type Results = nres::One;

    open spec fn spec_func() -> Function {
        Function::Sqrt(SqrtScale::S1)
    }

    fn func() -> (r: Function) {
        Function::Sqrt(SqrtScale::S1)
    }
}

impl State for Sqrt<scale::N2> {
    type Args = nargs::One;

    type Results = nres::One;

    open spec fn spec_func() -> Function {
        Function::Sqrt(SqrtScale::S2)
    }

    fn func() -> (r: Function) {
        Function::Sqrt(SqrtScale::S2)
    }
}

} // verus!
