//! The configuration axes: derived shapes, register codes and the
//! precision round trip.

use cordic::config::{encode_csr, Config, Format, CSR_RESET};
use cordic::func::{operand_count, result_count, scale_value, AtanScale, Function, LnScale, SqrtScale};
use cordic::prec::{decoding, encoding, iterations, Precision};

const ALL_FUNCTIONS: [Function; 16] = [
    Function::Cos,
    Function::Sin,
    Function::SinCos,
    Function::CosM,
    Function::SinM,
    Function::SinCosM,
    Function::ATan2,
    Function::Magnitude,
    Function::ATan2Magnitude,
    Function::ATan(AtanScale::S0),
    Function::CosH,
    Function::SinH,
    Function::SinHCosH,
    Function::ATanH,
    Function::Ln(LnScale::S1),
    Function::Sqrt(SqrtScale::S0),
];

const ALL_PRECISIONS: [Precision; 15] = [
    Precision::P4,
    Precision::P8,
    Precision::P12,
    Precision::P16,
    Precision::P20,
    Precision::P24,
    Precision::P28,
    Precision::P32,
    Precision::P36,
    Precision::P40,
    Precision::P44,
    Precision::P48,
    Precision::P52,
    Precision::P56,
    Precision::P60,
];

#[test]
fn shape_table() {
    let expected: [(Function, u32, u32); 16] = [
        (Function::Cos, 1, 1),
        (Function::Sin, 1, 1),
        (Function::SinCos, 1, 2),
        (Function::CosM, 2, 1),
        (Function::SinM, 2, 1),
        (Function::SinCosM, 2, 2),
        (Function::ATan2, 2, 1),
        (Function::Magnitude, 2, 1),
        (Function::ATan2Magnitude, 2, 2),
        (Function::ATan(AtanScale::S3), 1, 1),
        (Function::CosH, 1, 1),
        (Function::SinH, 1, 1),
        (Function::SinHCosH, 1, 2),
        (Function::ATanH, 1, 1),
        (Function::Ln(LnScale::S2), 1, 1),
        (Function::Sqrt(SqrtScale::S1), 1, 1),
    ];
    for (f, args, results) in expected {
        assert_eq!(operand_count(f), args);
        assert_eq!(result_count(f), results);
    }
}

#[test]
fn precision_roundtrip_all_levels() {
    let mut expected_iterations: u32 = 4;
    let mut expected_encoding: u8 = 1;
    for level in ALL_PRECISIONS {
        assert_eq!(encoding(level), expected_encoding);
        assert_eq!(iterations(level), expected_iterations);
        assert_eq!(decoding(encoding(level)), Some(level));
        expected_iterations += 4;
        expected_encoding += 1;
    }
}

#[test]
fn precision_reserved_values_decode_to_nothing() {
    assert_eq!(decoding(0), None);
    assert_eq!(decoding(16), None);
    assert_eq!(decoding(255), None);
}

#[test]
fn implicit_scales() {
    assert_eq!(scale_value(Function::Cos), 0);
    assert_eq!(scale_value(Function::SinCos), 0);
    assert_eq!(scale_value(Function::Magnitude), 0);
    assert_eq!(scale_value(Function::CosH), 1);
    assert_eq!(scale_value(Function::SinH), 1);
    assert_eq!(scale_value(Function::SinHCosH), 1);
    assert_eq!(scale_value(Function::ATanH), 1);
    assert_eq!(scale_value(Function::ATan(AtanScale::S7)), 7);
    assert_eq!(scale_value(Function::Ln(LnScale::S4)), 4);
    assert_eq!(scale_value(Function::Sqrt(SqrtScale::S2)), 2);
}

#[test]
fn reset_config_encodes_to_reset_pattern() {
    assert_eq!(encode_csr(&Config::reset()), CSR_RESET);
    assert_eq!(CSR_RESET, 0x50);
}

#[test]
fn encode_csr_exact_patterns() {
    // narrow in and out, sine + cosine, 60 iterations: function 1,
    // precision 15, both size flags, no double-transfer flags
    let narrow_sincos = Config {
        arg: Format::Narrow,
        res: Format::Narrow,
        func: Function::SinCos,
        prec: Precision::P60,
    };
    assert_eq!(encode_csr(&narrow_sincos), 0x0060_00f1);

    // wide two-operand magnitude, 32 iterations: function 3, precision 8,
    // two operand writes
    let wide_magnitude = Config {
        arg: Format::Wide,
        res: Format::Wide,
        func: Function::Magnitude,
        prec: Precision::P32,
    };
    assert_eq!(encode_csr(&wide_magnitude), 0x0010_0083);

    // wide arctangent with scale 5, 4 iterations: function 4, precision 1,
    // scale 5
    let atan_scaled = Config {
        arg: Format::Wide,
        res: Format::Wide,
        func: Function::ATan(AtanScale::S5),
        prec: Precision::P4,
    };
    assert_eq!(encode_csr(&atan_scaled), 0x0000_0514);

    // wide sine + cosine, 20 iterations: two result reads
    let wide_sincos = Config {
        arg: Format::Wide,
        res: Format::Wide,
        func: Function::SinCos,
        prec: Precision::P20,
    };
    assert_eq!(encode_csr(&wide_sincos), 0x0008_0051);
}

#[test]
fn every_function_encodes_its_documented_code() {
    let codes: [u8; 16] = [0, 1, 1, 0, 1, 1, 2, 3, 2, 4, 5, 6, 5, 7, 8, 9];
    for (f, code) in ALL_FUNCTIONS.iter().zip(codes) {
        let cfg = Config { arg: Format::Wide, res: Format::Wide, func: *f, prec: Precision::P4 };
        assert_eq!(encode_csr(&cfg) & 0xf, code as u32);
    }
}
