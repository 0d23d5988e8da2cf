//! Operand packing, result unpacking and the fixed-point conversions.

use cordic::arg_type;
use cordic::binding::Ext;
use cordic::config::{Config, Format};
use cordic::fixed_point::{DataType, Fix15, Fix31};
use cordic::res_type;
use cordic::func::Function;
use cordic::prec::Precision;
use cordic::rcc::Rcc;
use cordic::reg::CordicReg;
use cordic::transfer::{Operands, Outputs, NARROW_FILL};
use fixed::types::{I1F15, I1F31};

fn claim_with(cfg: Config) -> cordic::Cordic {
    let mut rcc = Rcc::new();
    CordicReg::new().constrain(&mut rcc).reconfigure(cfg)
}

#[test]
fn narrow_single_operand_fills_high_halfword() {
    let cfg = Config {
        arg: Format::Narrow,
        res: Format::Narrow,
        func: Function::Sin,
        prec: Precision::P24,
    };
    let mut c = claim_with(cfg);
    c.start(Operands::OneNarrow(Fix15::from_bits(0x2000)));
    assert_eq!(c.written().as_slice(), &[0x7fff_2000]);
    assert_eq!(NARROW_FILL, 0x7fff);

    // a negative operand is sign-truncated into the low halfword
    let mut c = claim_with(cfg);
    c.start(Operands::OneNarrow(Fix15::from_bits(-1)));
    assert_eq!(c.written().as_slice(), &[0x7fff_ffff]);
}

#[test]
fn narrow_two_operands_share_one_word() {
    let cfg = Config {
        arg: Format::Narrow,
        res: Format::Narrow,
        func: Function::ATan2,
        prec: Precision::P24,
    };
    let mut c = claim_with(cfg);
    c.start(Operands::TwoNarrow(Fix15::from_bits(0x1234), Fix15::from_bits(-0x8000)));
    assert_eq!(c.written().as_slice(), &[0x8000_1234]);
}

#[test]
fn wide_two_operands_issue_two_writes_in_order() {
    let cfg = Config {
        arg: Format::Wide,
        res: Format::Wide,
        func: Function::ATan2,
        prec: Precision::P20,
    };
    let mut c = claim_with(cfg);
    c.start(Operands::TwoWide(Fix31::from_bits(0x1234_5678), Fix31::from_bits(-0x4000_0000)));
    assert_eq!(c.written().as_slice(), &[0x1234_5678, 0xc000_0000]);
}

#[test]
fn wide_single_operand_issues_one_write() {
    let cfg = Config {
        arg: Format::Wide,
        res: Format::Wide,
        func: Function::Cos,
        prec: Precision::P20,
    };
    let mut c = claim_with(cfg);
    c.start(Operands::OneWide(Fix31::from_bits(-2)));
    assert_eq!(c.written().as_slice(), &[0xffff_fffe]);
}

#[test]
fn narrow_two_results_unpack_low_then_high() {
    let cfg = Config {
        arg: Format::Narrow,
        res: Format::Narrow,
        func: Function::SinCos,
        prec: Precision::P40,
    };
    let mut c = claim_with(cfg);
    c.start(Operands::OneNarrow(Fix15::from_bits(0)));
    c.complete(0xdef0_1234, None);
    let out = c.result();
    assert_eq!(
        out,
        Outputs::TwoNarrow(Fix15::from_bits(0x1234), Fix15::from_bits(0xdef0u16 as i16))
    );
}

#[test]
fn narrow_single_result_is_the_low_halfword() {
    let cfg = Config {
        arg: Format::Narrow,
        res: Format::Narrow,
        func: Function::Sin,
        prec: Precision::P40,
    };
    let mut c = claim_with(cfg);
    c.start(Operands::OneNarrow(Fix15::from_bits(0)));
    c.complete(0xabcd_7fff, None);
    assert_eq!(c.result(), Outputs::OneNarrow(Fix15::from_bits(0x7fff)));
}

#[test]
fn wide_two_results_come_from_two_reads() {
    let cfg = Config {
        arg: Format::Wide,
        res: Format::Wide,
        func: Function::SinCosM,
        prec: Precision::P28,
    };
    let mut c = claim_with(cfg);
    c.start(Operands::TwoWide(Fix31::from_bits(0), Fix31::from_bits(0x7fff_ffff)));
    c.complete(0x8000_0000, Some(0x7fff_ffff));
    assert_eq!(
        c.result(),
        Outputs::TwoWide(Fix31::from_bits(-0x8000_0000), Fix31::from_bits(0x7fff_ffff))
    );
}

#[test]
fn mixed_formats_are_independent() {
    // narrow operands with wide results
    let cfg = Config {
        arg: Format::Narrow,
        res: Format::Wide,
        func: Function::SinCos,
        prec: Precision::P20,
    };
    let mut c = claim_with(cfg);
    c.start(Operands::OneNarrow(Fix15::from_bits(0x1000)));
    assert_eq!(c.written().as_slice(), &[0x7fff_1000]);
    c.complete(11, Some(22));
    assert_eq!(c.result(), Outputs::TwoWide(Fix31::from_bits(11), Fix31::from_bits(22)));
}

#[test]
fn data_type_links_tags_to_value_types() {
    let x: <arg_type::Q31 as DataType>::Fixed = Fix31::from_bits(1);
    assert_eq!(x.to_bits(), 1);
    let y: <res_type::Q15 as DataType>::Fixed = Fix15::from_bits(-2);
    assert_eq!(y.to_bits(), -2);
}

#[test]
fn fixed_crate_wide_conversion_is_bit_exact() {
    let half = I1F31::from_num(0.5f32);
    assert_eq!(Fix31::from_fixed(half).to_bits(), 0x4000_0000);
    assert_eq!(Fix31::from_bits(0x4000_0000).to_fixed(), half);
    let x = Fix31::from_bits(-0x1357_9bdf);
    assert_eq!(Fix31::from_fixed(x.to_fixed()), x);
}

#[test]
fn fixed_crate_narrow_conversion_is_bit_exact() {
    let minus_half = I1F15::from_num(-0.5f32);
    assert_eq!(Fix15::from_fixed(minus_half).to_bits(), -0x4000);
    assert_eq!(Fix15::from_bits(-0x4000).to_fixed(), minus_half);
    let x = Fix15::from_bits(0x2468);
    assert_eq!(Fix15::from_fixed(x.to_fixed()), x);
}
