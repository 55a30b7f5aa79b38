//! An interpreter for the RV32I base integer instruction set.
//!
//! The machine fetches 32-bit instruction words from a flat memory, takes
//! them apart, carries them out on 32 registers and moves its program
//! counter on. What each instruction does is stated once, on a model of the
//! machine, in [`semantics`]; the machine in [`cpu`] is proved to do that.

pub mod alu;
pub mod cpu;
pub mod decoder;
pub mod fault;
pub mod instructions;
pub mod memory;
pub mod registers;
pub mod round_trip;
pub mod semantics;

pub use crate::cpu::CPU;
pub use crate::fault::Fault;
pub use crate::memory::RAM;
pub use crate::registers::Registers;
pub use crate::semantics::AuipcMode;
