//! Claiming, reconfiguring, readiness, interrupts and release.

use cordic::binding::Ext;
use cordic::config::{encode_csr, Config, Format, CSR_RESET};
use cordic::fixed_point::Fix31;
use cordic::func::{self, AtanScale, Function};
use cordic::prec::{self, Precision};
use cordic::rcc::Rcc;
use cordic::reg::CordicReg;
use cordic::transfer::{Operands, Outputs};
use cordic::{arg_type, res_type, Cordic};
use fixed::types::I1F31;

#[test]
fn claim_starts_at_reset_configuration() {
    let mut rcc = Rcc::new();
    assert!(!rcc.cordic_en);
    let c = CordicReg::new().constrain(&mut rcc);
    assert!(rcc.cordic_en);
    assert!(!c.is_ready());
    assert_eq!(
        c.config(),
        Config { arg: Format::Wide, res: Format::Wide, func: Function::Cos, prec: Precision::P20 }
    );
}

#[test]
fn reconfigure_clears_stale_readiness() {
    let mut rcc = Rcc::new();
    let mut c = CordicReg::new().constrain(&mut rcc);
    // several representative states, scale-bearing ones included
    let states = [
        Config {
            arg: Format::Narrow,
            res: Format::Wide,
            func: Function::SinCosM,
            prec: Precision::P4,
        },
        Config {
            arg: Format::Wide,
            res: Format::Wide,
            func: Function::ATan(AtanScale::S7),
            prec: Precision::P60,
        },
        Config {
            arg: Format::Narrow,
            res: Format::Narrow,
            func: Function::Magnitude,
            prec: Precision::P36,
        },
    ];
    for cfg in states {
        // leave a result pending, then reconfigure: no stale flag survives
        c.start(Operands::OneWide(Fix31::from_bits(0)));
        let second = if c.config().res == Format::Wide
            && func::result_count(c.config().func) == 2
        {
            Some(0)
        } else {
            None
        };
        c.complete(0, second);
        assert!(c.is_ready());
        c = c.reconfigure(cfg);
        assert_eq!(c.config(), cfg);
        assert!(!c.is_ready());
        c = c.reconfigure(Config::reset());
    }
}

#[test]
fn freeze_picks_the_configuration_from_the_tags() {
    let mut rcc = Rcc::new();
    let c = CordicReg::new().constrain(&mut rcc);
    let c: Cordic = c.freeze::<
        arg_type::Q15,
        res_type::Q31,
        func::Sqrt<func::scale::N2>,
        prec::P56,
    >();
    assert_eq!(
        c.config(),
        Config {
            arg: Format::Narrow,
            res: Format::Wide,
            func: Function::Sqrt(func::SqrtScale::S2),
            prec: Precision::P56,
        }
    );
    assert!(!c.is_ready());
}

#[test]
fn end_to_end_sine_cosine_pair() {
    // claim, select wide sine+cosine at 20 iterations, start at half,
    // poll until ready, and read the pair
    let mut rcc = Rcc::new();
    let c = CordicReg::new().constrain(&mut rcc);
    let mut c = c.freeze::<arg_type::Q31, res_type::Q31, func::SinCos, prec::P20>();
    let angle = Fix31::from_fixed(I1F31::from_num(0.5f32));
    c.start(Operands::OneWide(angle));
    assert_eq!(c.written().as_slice(), &[0x4000_0000]);
    // the silicon computes sin and cos of pi/2 and signals readiness
    let mut polls: u32 = 0;
    while !c.is_ready() {
        c.complete(0x7fff_ffff, Some(0));
        polls += 1;
        assert!(polls < 4);
    }
    let out = c.result();
    match out {
        Outputs::TwoWide(sin, cos) => {
            // both values lie in the angular range [-1, 1): here sin ~ +1,
            // cos ~ 0
            assert_eq!(sin, Fix31::from_bits(0x7fff_ffff));
            assert_eq!(cos, Fix31::from_bits(0));
        },
        _ => panic!("a wide sine+cosine configuration yields a wide pair"),
    }
    assert!(!c.is_ready());
}

#[test]
fn listen_toggles_only_the_interrupt_enable() {
    let mut rcc = Rcc::new();
    let mut c = CordicReg::new().constrain(&mut rcc);
    c.listen();
    let cfg = c.config();
    let reg = c.release();
    assert_eq!(reg.csr, CSR_RESET | 0x0001_0000);
    let mut c = Cordic::wrap(CordicReg::new(), cfg);
    c.listen();
    c.unlisten();
    let reg = c.release();
    assert_eq!(reg.csr, CSR_RESET);
}

#[test]
fn wrap_is_a_noop() {
    let reg = CordicReg::new();
    let c = Cordic::wrap(reg, Config::reset());
    assert_eq!(c.config(), Config::reset());
    let reg = c.release();
    assert_eq!(reg.csr, CSR_RESET);
    assert!(reg.written.is_empty());
    assert!(reg.pending.is_empty());
}

#[test]
fn into_reset_restores_the_reset_configuration() {
    let mut rcc = Rcc::new();
    let c = CordicReg::new().constrain(&mut rcc);
    let c = c.reconfigure(Config {
        arg: Format::Narrow,
        res: Format::Narrow,
        func: Function::ATanH,
        prec: Precision::P8,
    });
    let c = c.into_reset();
    assert_eq!(c.config(), Config::reset());
}

#[test]
fn release_and_reset_returns_a_reset_resource() {
    let mut rcc = Rcc::new();
    let c = CordicReg::new().constrain(&mut rcc);
    let mut c = c.reconfigure(Config {
        arg: Format::Wide,
        res: Format::Wide,
        func: Function::SinCos,
        prec: Precision::P60,
    });
    c.start(Operands::OneWide(Fix31::from_bits(5)));
    c.complete(1, Some(2));
    let reg = c.release_and_reset(&mut rcc);
    assert!(!rcc.cordic_en);
    assert_eq!(reg.csr, 0x50);
    assert!(reg.pending.is_empty());
    // the reset resource can be claimed again
    let c2 = reg.constrain(&mut rcc);
    assert!(rcc.cordic_en);
    assert_eq!(c2.config(), Config::reset());
}

#[test]
fn readiness_follows_completion() {
    let mut rcc = Rcc::new();
    let mut c = CordicReg::new().constrain(&mut rcc);
    assert!(!c.is_ready());
    c.start(Operands::OneWide(Fix31::from_bits(7)));
    assert!(!c.is_ready());
    c.complete(0x0123_4567, None);
    assert!(c.is_ready());
    assert_eq!(c.result(), Outputs::OneWide(Fix31::from_bits(0x0123_4567)));
    assert!(!c.is_ready());
}

#[test]
fn starting_supersedes_an_unread_result() {
    let mut rcc = Rcc::new();
    let mut c = CordicReg::new().constrain(&mut rcc);
    c.start(Operands::OneWide(Fix31::from_bits(1)));
    c.complete(41, None);
    assert!(c.is_ready());
    c.start(Operands::OneWide(Fix31::from_bits(2)));
    assert!(!c.is_ready());
    assert_eq!(c.written().as_slice(), &[1, 2]);
}

#[test]
fn set_precision_leaves_the_other_axes_alone() {
    let mut rcc = Rcc::new();
    let c = CordicReg::new().constrain(&mut rcc);
    let c = c.reconfigure(Config {
        arg: Format::Narrow,
        res: Format::Wide,
        func: Function::ATan(AtanScale::S3),
        prec: Precision::P16,
    });
    let c = c.set_precision(Precision::P44);
    assert_eq!(
        c.config(),
        Config {
            arg: Format::Narrow,
            res: Format::Wide,
            func: Function::ATan(AtanScale::S3),
            prec: Precision::P44,
        }
    );
    assert!(!c.is_ready());
}

#[test]
fn reset_pattern_is_the_reset_encoding() {
    assert_eq!(encode_csr(&Config::reset()), CSR_RESET);
}
