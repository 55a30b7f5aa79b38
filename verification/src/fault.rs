//! The conditions that stop the machine.

use vstd::prelude::*;

verus! {

/// Why an operation of the machine could not be carried out.
#[derive(Clone, Copy, Debug, PartialEq, Eq, Structural)]
pub enum Fault {
    /// A memory access reached past the end of the memory.
    OutOfRange,
    /// An instruction word matched no known instruction.
    IllegalInstruction,
}

} // verus!
