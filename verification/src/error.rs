//! What can go wrong while loading or running a program.

use crate::vm::Mode;
use vstd::prelude::*;

verus! {

/// The failures the machine reports to its caller.
#[derive(Clone, Copy, Debug, PartialEq, Eq, Structural)]
pub enum VmError {
    /// The opcode's bit fields name no addressing mode.
    InvalidOpcodeMode(u8),
    /// An instruction that writes to its operand ran under a mode that gives
    /// it nothing to write to.
    InvalidStoreMode(Mode),
    /// A program text is not an even number of hexadecimal digits.
    BadHexProgram,
}

} // verus!
