//! Fixed-point value types for operands and results.
//!
//! Both widths carry 1 sign bit and only fraction bits besides it, so a bit
//! pattern `b` stands for the value `b / 2^31` (wide) or `b / 2^15`
//! (narrow), and every representable value lies in [-1, 1).  The types here
//! hold the raw bit pattern; the conversions at the bottom exchange values
//! with the `fixed` crate's matching `I1F31` and `I1F15` types bit for bit.

use vstd::prelude::*;

verus! {

/// Trait for type-state tags that stand for fixed-point data of one
/// width: names the value type of that width.
pub trait DataType {
    /// The underlying fixed-point value type.
    type Fixed;
}

/// A wide fixed-point value: 32 bits, 1 sign bit and 31 fraction bits.
#[derive(Clone, Copy, PartialEq, Eq, Structural, Debug)]
pub struct Fix31 {
    /// The raw bit pattern; it stands for the value `bits / 2^31`.
    pub bits: i32,
}

/// A narrow fixed-point value: 16 bits, 1 sign bit and 15 fraction bits.
#[derive(Clone, Copy, PartialEq, Eq, Structural, Debug)]
pub struct Fix15 {
    /// The raw bit pattern; it stands for the value `bits / 2^15`.
    pub bits: i16,
}

#[verifier::external_type_specification]
#[verifier::external_body]
pub struct ExUTerm(typenum::UTerm);

#[verifier::external_type_specification]
#[verifier::external_body]
pub struct ExB0(typenum::B0);

#[verifier::external_type_specification]
#[verifier::external_body]
pub struct ExB1(typenum::B1);

#[verifier::external_type_specification]
#[verifier::external_body]
#[verifier::reject_recursive_types(U)]
#[verifier::reject_recursive_types(B)]
pub struct ExUInt<U, B>(typenum::UInt<U, B>);

#[verifier::external_type_specification]
#[verifier::external_body]
#[verifier::reject_recursive_types(Frac)]
pub struct ExFixedI32<Frac>(fixed::FixedI32<Frac>);

#[verifier::external_type_specification]
#[verifier::external_body]
#[verifier::reject_recursive_types(Frac)]
pub struct ExFixedI16<Frac>(fixed::FixedI16<Frac>);

/// The bit representation of a `fixed` crate 1.31 value, as its `to_bits`
/// returns it.
pub uninterp spec fn spec_i1f31_bits(v: fixed::types::I1F31) -> i32;

/// The bit representation of a `fixed` crate 1.15 value, as its `to_bits`
/// returns it.
pub uninterp spec fn spec_i1f15_bits(v: fixed::types::I1F15) -> i16;

/// Relies on fixed::FixedI32::to_bits: it creates an integer with a bit
/// representation identical to the given fixed-point number.
#[verifier::external_body]
fn i1f31_bits(v: fixed::types::I1F31) -> (r: i32)
    ensures
        r == spec_i1f31_bits(v),
{
    v.to_bits()
}

/// Relies on fixed::FixedI32::from_bits: it creates a fixed-point number
/// with a bit representation identical to the given integer.
#[verifier::external_body]
fn i1f31_of_bits(bits: i32) -> (r: fixed::types::I1F31)
    ensures
        spec_i1f31_bits(r) == bits,
{
    fixed::types::I1F31::from_bits(bits)
}

/// Relies on fixed::FixedI16::to_bits: it creates an integer with a bit
/// representation identical to the given fixed-point number.
#[verifier::external_body]
fn i1f15_bits(v: fixed::types::I1F15) -> (r: i16)
    ensures
        r == spec_i1f15_bits(v),
{
    v.to_bits()
}

/// Relies on fixed::FixedI16::from_bits: it creates a fixed-point number
/// with a bit representation identical to the given integer.
#[verifier::external_body]
fn i1f15_of_bits(bits: i16) -> (r: fixed::types::I1F15)
    ensures
        spec_i1f15_bits(r) == bits,
{
    fixed::types::I1F15::from_bits(bits)
}

impl Fix31 {
    /// The value with the given bit pattern.
    pub fn from_bits(bits: i32) -> (r: Fix31)
        ensures
            r.bits == bits,
    {
        Fix31 { bits }
    }

    /// The value's bit pattern.
    pub fn to_bits(self) -> (r: i32)
        ensures
            r == self.bits,
    {
        self.bits
    }

    /// The value of a `fixed` crate 1.31 number, bit for bit.
    pub fn from_fixed(v: fixed::types::I1F31) -> (r: Fix31)
        ensures
            r.bits == spec_i1f31_bits(v),
    {
        Fix31 { bits: i1f31_bits(v) }
    }

    /// The same value as a `fixed` crate 1.31 number, bit for bit.
    pub fn to_fixed(self) -> (r: fixed::types::I1F31)
        ensures
            spec_i1f31_bits(r) == self.bits,
    {
        i1f31_of_bits(self.bits)
    }
}

impl Fix15 {
    /// The value with the given bit pattern.
    pub fn from_bits(bits: i16) -> (r: Fix15)
        ensures
            r.bits == bits,
    {
        Fix15 { bits }
    }

    /// The value's bit pattern.
    pub fn to_bits(self) -> (r: i16)
        ensures
            r == self.bits,
    {
        self.bits
    }

    /// The value of a `fixed` crate 1.15 number, bit for bit.
    pub fn from_fixed(v: fixed::types::I1F15) -> (r: Fix15)
        ensures
            r.bits == spec_i1f15_bits(v),
    {
        Fix15 { bits: i1f15_bits(v) }
    }

    /// The same value as a `fixed` crate 1.15 number, bit for bit.
    pub fn to_fixed(self) -> (r: fixed::types::I1F15)
        ensures
            spec_i1f15_bits(r) == self.bits,
    {
        i1f15_of_bits(self.bits)
    }
}

} // verus!
