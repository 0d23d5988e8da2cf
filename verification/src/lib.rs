//! Configuration layer for a CORDIC arithmetic accelerator.
//!
//! The accelerator computes trigonometric, hyperbolic, logarithmic and
//! related functions in silicon, driven through a memory-mapped register
//! block.  This crate keeps a software binding in exact agreement with the
//! configuration latched in that register block: the caller selects the
//! numeric formats, the function and the iteration count, and every
//! operand-write and result-read operation offered afterwards is proved to
//! match that selection bit for bit.

pub mod arg_type;
pub mod binding;
pub mod config;
pub mod fixed_point;
pub mod func;
pub mod prec;
pub mod rcc;
pub mod reg;
pub mod res_type;
pub mod transfer;

pub use binding::Cordic;
pub use binding::Ext;
