//! The resource binding: one register block coupled with the one
//! configuration it is known to hold.
//!
//! The central invariant of the whole crate lives here: at every moment a
//! binding is reachable, the configuration latched in its register block
//! equals the configuration the binding carries.  Reconfiguration consumes
//! the binding and mints a new one, so no binding for a stale
//! configuration can survive; the one place the invariant rests on the
//! caller instead of on a proof is [`Cordic::wrap`].

use vstd::prelude::*;
use crate::arg_type;
use crate::config;
use crate::config::{
    csr_matches, encode_csr, flag_ien, flag_rrdy, spec_result_reads, Config, Format,
};
use crate::fixed_point::{Fix15, Fix31};
use crate::func;
use crate::prec;
use crate::prec::Precision;
use crate::rcc::Rcc;
use crate::reg::CordicReg;
use crate::res_type;
use crate::transfer::{matches_shape, spec_packed, spec_unpacked, Operands, Outputs, NARROW_FILL};

verus! {

/// Extension trait for claiming the peripheral.
pub trait Ext: Sized {
    /// Whether the resource still holds the documented post-reset
    /// configuration, with the interrupt disabled and no result pending.
    spec fn spec_at_reset(self) -> bool;

    /// The register block being claimed.
    spec fn spec_resource(self) -> CordicReg;

    /// Claim the peripheral: enable its clock, confirm the enable bit by
    /// reading it back, and wrap the resource in a binding typed to the
    /// documented reset configuration.
    fn constrain(self, rcc: &mut Rcc) -> (r: Cordic)
        requires
            self.spec_at_reset(),
        ensures
            r.wf(),
            r.spec_config() == Config::spec_reset(),
            r.spec_reg() == self.spec_resource(),
            !r.spec_ready(),
            !r.spec_listening(),
            final(rcc).cordic_en,
    ;
}

impl Ext for CordicReg {
    open spec fn spec_at_reset(self) -> bool {
        &&& csr_matches(self.csr, Config::spec_reset())
        &&& !flag_rrdy(self.csr)
        &&& !flag_ien(self.csr)
        &&& self.pending@.len() == 0
    }

    open spec fn spec_resource(self) -> CordicReg {
        self
    }

    fn constrain(self, rcc: &mut Rcc) -> (r: Cordic) {
        rcc.enable_cordic();
        // lock until enabled
        let _enabled = rcc.cordic_enabled();
        Cordic::wrap(self, Config::reset())
    }
}

/// The accelerator, bound to its latched configuration.
pub struct Cordic {
    rb: CordicReg,
    cfg: Config,
}

impl Cordic {
    /// The configuration this binding is typed to.
    pub closed spec fn spec_config(self) -> Config {
        self.cfg
    }

    /// The register block under the binding.
    pub closed spec fn spec_reg(self) -> CordicReg {
        self.rb
    }

    /// Whether a result is ready to be read.
    pub open spec fn spec_ready(self) -> bool {
        flag_rrdy(self.spec_reg().csr)
    }

    /// Whether the result-ready interrupt is enabled.
    pub open spec fn spec_listening(self) -> bool {
        flag_ien(self.spec_reg().csr)
    }

    /// Every word written to the operand register so far, in order.
    pub open spec fn spec_written(self) -> Seq<u32> {
        self.spec_reg().written@
    }

    /// The result words the read register will deliver, front first.
    pub open spec fn spec_pending(self) -> Seq<u32> {
        self.spec_reg().pending@
    }

    /// The binding's invariant: the register block's configuration fields
    /// carry exactly the binding's configuration, and the read register
    /// holds a full result exactly when the ready flag is set.
    pub closed spec fn wf(self) -> bool {
        &&& csr_matches(self.rb.csr, self.cfg)
        &&& (flag_rrdy(self.rb.csr) ==> self.rb.pending@.len() == spec_result_reads(self.cfg))
        &&& (!flag_rrdy(self.rb.csr) ==> self.rb.pending@.len() == 0)
    }

    /// Wrap the resource as a noop.
    ///
    /// This is the crate's sole trust boundary: the caller must guarantee
    /// on their own that the hardware truly holds the given configuration,
    /// with no result pending.  It is meant to be used exactly once, at
    /// peripheral claim, before any write has been issued, relying on the
    /// documented post-reset default; every other binding comes out of
    /// [`Cordic::reconfigure`], which enforces the invariant itself.
    pub fn wrap(rb: CordicReg, cfg: Config) -> (r: Cordic)
        requires
            csr_matches(rb.csr, cfg),
            !flag_rrdy(rb.csr),
            rb.pending@.len() == 0,
        ensures
            r.wf(),
            r.spec_config() == cfg,
            r.spec_reg() == rb,
    {
        Cordic { rb, cfg }
    }

    /// Write the full configuration register in one transaction and mint
    /// a binding typed to the new configuration.  The input binding is
    /// consumed; no binding for the old configuration survives.  The
    /// write clears the result-ready flag — no stale pending result
    /// survives a reconfiguration — and disables the interrupt.
    pub fn reconfigure(self, next: Config) -> (r: Cordic)
        requires
            self.wf(),
        ensures
            r.wf(),
            r.spec_config() == next,
            !r.spec_ready(),
            !r.spec_listening(),
            r.spec_written() == self.spec_written(),
            r.spec_pending().len() == 0,
    {
        let Cordic { mut rb, cfg: _ } = self;
        rb.csr = encode_csr(&next);
        // the datapath holds nothing meaningful for the new configuration
        rb.pending.clear();
        Cordic { rb, cfg: next }
    }

    /// Reconfigure the resource as dictated by the four type-state tags.
    /// The produced binding represents a frozen configuration; a new
    /// binding must be made — and the old binding is invalidated — to
    /// change it again.
    pub fn freeze<NewArg: arg_type::State, NewRes: res_type::State, NewFunc: func::State, NewPrec: prec::State>(
        self,
    ) -> (r: Cordic)
        requires
            self.wf(),
        ensures
            r.wf(),
            r.spec_config() == (Config {
                arg: NewArg::spec_format(),
                res: NewRes::spec_format(),
                func: NewFunc::spec_func(),
                prec: NewPrec::spec_level(),
            }),
            !r.spec_ready(),
            !r.spec_listening(),
            r.spec_written() == self.spec_written(),
            r.spec_pending().len() == 0,
    {
        self.reconfigure(
            Config {
                arg: NewArg::format(),
                res: NewRes::format(),
                func: NewFunc::func(),
                prec: NewPrec::level(),
            },
        )
    }

    /// Change the precision alone, leaving the other three axes exactly
    /// as they are.
    pub fn set_precision(self, level: Precision) -> (r: Cordic)
        requires
            self.wf(),
        ensures
            r.wf(),
            r.spec_config() == (Config { prec: level, ..self.spec_config() }),
            !r.spec_ready(),
            !r.spec_listening(),
            r.spec_written() == self.spec_written(),
            r.spec_pending().len() == 0,
    {
        let cfg = self.config();
        self.reconfigure(Config { prec: level, ..cfg })
    }

    /// Reconfigure to the documented post-reset configuration.
    pub fn into_reset(self) -> (r: Cordic)
        requires
            self.wf(),
        ensures
            r.wf(),
            r.spec_config() == Config::spec_reset(),
            !r.spec_ready(),
            !r.spec_listening(),
            r.spec_written() == self.spec_written(),
            r.spec_pending().len() == 0,
    {
        self.reconfigure(Config::reset())
    }

    /// Determine whether a result is pending or not.  The query never
    /// blocks and never mutates state.
    pub fn is_ready(&self) -> (r: bool)
        ensures
            r == self.spec_ready(),
    {
        self.rb.csr & 0x8000_0000 != 0
    }

    /// Start evaluating the configured function with the provided
    /// operands.  The operand list's count and width are fixed by the
    /// binding's configuration.  Wide operands take one full register
    /// write each, primary first; narrow operands share one write, the
    /// primary in the low halfword, and a single narrow operand has its
    /// high halfword filled with the pattern for +1 because the hardware
    /// reads both halves in narrow mode.
    pub fn start(&mut self, ops: Operands)
        requires
            old(self).wf(),
            matches_shape(ops, old(self).spec_config()),
        ensures
            final(self).wf(),
            final(self).spec_config() == old(self).spec_config(),
            final(self).spec_listening() == old(self).spec_listening(),
            final(self).spec_written() == old(self).spec_written() + spec_packed(ops),
            !final(self).spec_ready(),
            final(self).spec_pending().len() == 0,
    {
        let ghost before = self.rb.written@;
        // a new evaluation supersedes any unread result
        self.rb.pending.clear();
        let c = self.rb.csr;
        self.rb.csr = c & 0x7fff_ffff;
        proof {
            config::lemma_clear_rrdy(c);
        }
        match ops {
            Operands::OneWide(p) => {
                self.rb.written.push(p.bits as u32);
                proof {
                    assert(self.rb.written@ =~= before + spec_packed(ops));
                }
            },
            Operands::TwoWide(p, s) => {
                self.rb.written.push(p.bits as u32);
                self.rb.written.push(s.bits as u32);
                proof {
                    assert(self.rb.written@ =~= before + spec_packed(ops));
                }
            },
            Operands::OneNarrow(p) => {
                let w: u32 = ((p.bits as u16) as u32) | ((NARROW_FILL as u32) << 16);
                self.rb.written.push(w);
                proof {
                    assert(self.rb.written@ =~= before + spec_packed(ops));
                }
            },
            Operands::TwoNarrow(p, s) => {
                let w: u32 = ((p.bits as u16) as u32) | (((s.bits as u16) as u32) << 16);
                self.rb.written.push(w);
                proof {
                    assert(self.rb.written@ =~= before + spec_packed(ops));
                }
            },
        }
    }

    /// Deliver the words of a finished evaluation into the read register
    /// and raise the result-ready flag, as the silicon does when it
    /// completes.  The computation itself happens outside this model, so
    /// its driver — a test, or the surrounding program — hands the words
    /// in; `second` is present exactly when the configuration takes two
    /// result reads.
    pub fn complete(&mut self, first: u32, second: Option<u32>)
        requires
            old(self).wf(),
            (match second {
                Some(_) => spec_result_reads(old(self).spec_config()) == 2,
                None => spec_result_reads(old(self).spec_config()) == 1,
            }),
        ensures
            final(self).wf(),
            final(self).spec_config() == old(self).spec_config(),
            final(self).spec_listening() == old(self).spec_listening(),
            final(self).spec_written() == old(self).spec_written(),
            final(self).spec_ready(),
            final(self).spec_pending() == (match second {
                Some(s) => seq![first, s],
                None => seq![first],
            }),
    {
        self.rb.pending.clear();
        self.rb.pending.push(first);
        match second {
            Some(s) => {
                self.rb.pending.push(s);
            },
            None => {},
        }
        let c = self.rb.csr;
        self.rb.csr = c | 0x8000_0000;
        proof {
            config::lemma_set_rrdy(c);
            match second {
                Some(s) => {
                    assert(self.rb.pending@ =~= seq![first, s]);
                },
                None => {
                    assert(self.rb.pending@ =~= seq![first]);
                },
            }
        }
    }

    /// Read the evaluation result.  The result list's count and width are
    /// fixed by the binding's configuration, symmetric to the packing
    /// rule: two wide results come from two consecutive reads, two narrow
    /// results from the low and high halfwords of one read.
    ///
    /// In hardware, a read issued while the evaluation is still in flight
    /// stalls the bus until the result is ready — a latency hazard, not a
    /// failure; the model therefore reads only in the ready state, which
    /// is the state such a read returns in.
    pub fn result(&mut self) -> (r: Outputs)
        requires
            old(self).wf(),
            old(self).spec_ready(),
        ensures
            final(self).wf(),
            final(self).spec_config() == old(self).spec_config(),
            final(self).spec_listening() == old(self).spec_listening(),
            final(self).spec_written() == old(self).spec_written(),
            r == spec_unpacked(old(self).spec_config(), old(self).spec_pending()),
            !final(self).spec_ready(),
            final(self).spec_pending().len() == 0,
    {
        let w0 = self.rb.pending[0];
        let two = func::result_count(self.cfg.func) == 2;
        let r = if self.cfg.res == Format::Narrow {
            if two {
                Outputs::TwoNarrow(
                    Fix15 { bits: (w0 & 0xffff) as i16 },
                    Fix15 { bits: (w0 >> 16) as i16 },
                )
            } else {
                Outputs::OneNarrow(Fix15 { bits: (w0 & 0xffff) as i16 })
            }
        } else {
            if two {
                let w1 = self.rb.pending[1];
                Outputs::TwoWide(Fix31 { bits: w0 as i32 }, Fix31 { bits: w1 as i32 })
            } else {
                Outputs::OneWide(Fix31 { bits: w0 as i32 })
            }
        };
        self.rb.pending.clear();
        let c = self.rb.csr;
        self.rb.csr = c & 0x7fff_ffff;
        proof {
            config::lemma_clear_rrdy(c);
        }
        r
    }

    /// Enable the result-ready interrupt.
    pub fn listen(&mut self)
        requires
            old(self).wf(),
        ensures
            final(self).wf(),
            final(self).spec_config() == old(self).spec_config(),
            final(self).spec_ready() == old(self).spec_ready(),
            final(self).spec_written() == old(self).spec_written(),
            final(self).spec_pending() == old(self).spec_pending(),
            final(self).spec_listening(),
    {
        let c = self.rb.csr;
        self.rb.csr = c | 0x0001_0000;
        proof {
            config::lemma_set_ien(c);
        }
    }

    /// Disable the result-ready interrupt.
    pub fn unlisten(&mut self)
        requires
            old(self).wf(),
        ensures
            final(self).wf(),
            final(self).spec_config() == old(self).spec_config(),
            final(self).spec_ready() == old(self).spec_ready(),
            final(self).spec_written() == old(self).spec_written(),
            final(self).spec_pending() == old(self).spec_pending(),
            !final(self).spec_listening(),
    {
        let c = self.rb.csr;
        self.rb.csr = c & 0xfffe_ffff;
        proof {
            config::lemma_clear_ien(c);
        }
    }

    /// Release the binding as a noop, handing the raw register block back
    /// to the caller and ending this crate's management of it.  The
    /// peripheral is not reset.
    pub fn release(self) -> (r: CordicReg)
        ensures
            r == self.spec_reg(),
    {
        self.rb
    }

    /// Release the binding after reconfiguring the peripheral back to the
    /// documented reset configuration and disabling its clock.  The
    /// returned resource is at reset, so it can be claimed again.
    pub fn release_and_reset(self, rcc: &mut Rcc) -> (r: CordicReg)
        requires
            self.wf(),
        ensures
            r.spec_at_reset(),
            r.written@ == self.spec_written(),
            !final(rcc).cordic_en,
    {
        let reset = self.reconfigure(Config::reset());
        rcc.disable_cordic();
        reset.release()
    }

    /// The configuration this binding is typed to.
    pub fn config(&self) -> (r: Config)
        ensures
            r == self.spec_config(),
    {
        self.cfg
    }

    /// Every word written to the operand register so far, in order.
    pub fn written(&self) -> (r: &Vec<u32>)
        ensures
            r@ == self.spec_written(),
    {
        &self.rb.written
    }
}

} // verus!
