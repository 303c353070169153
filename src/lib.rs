//! An instruction-level simulator for one hardware thread executing a subset
//! of the RV32I base integer instruction set.
//!
//! Registers are 64 bits wide; arithmetic wraps modulo 2^64 and the 12-bit
//! immediate of `addi` is sign-extended to 64 bits.

pub mod base_isa;
pub mod hart;
pub mod isa;
pub mod laws;

pub use base_isa::Rv32i;
pub use hart::{Fault, Hart, RWreg};
pub use isa::{compute_i, compute_r, sign_extend, InstType, Rv32iI, Rv32iR};
