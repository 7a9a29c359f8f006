//! Tables of the documented instruction set, and small helpers.

use crate::error::VmError;
use crate::vm::decode::spec_decode_mode;
use crate::vm::Mode;
use vstd::prelude::*;

verus! {

/// Number of documented opcodes.
pub const N_VALID_OPS: usize = 151;

/// Every documented opcode, in ascending order.
pub const VALID_OPCODES: [u8; 151] = [
    0x00, 0x01, 0x05, 0x06, 0x08, 0x09, 0x0A, 0x0D, 0x0E, 0x10,
    0x11, 0x15, 0x16, 0x18, 0x19, 0x1D, 0x1E, 0x20, 0x21, 0x24,
    0x25, 0x26, 0x28, 0x29, 0x2A, 0x2C, 0x2D, 0x2E, 0x30, 0x31,
    0x35, 0x36, 0x38, 0x39, 0x3D, 0x3E, 0x40, 0x41, 0x45, 0x46,
    0x48, 0x49, 0x4A, 0x4C, 0x4D, 0x4E, 0x50, 0x51, 0x55, 0x56,
    0x58, 0x59, 0x5D, 0x5E, 0x60, 0x61, 0x65, 0x66, 0x68, 0x69,
    0x6A, 0x6C, 0x6D, 0x6E, 0x70, 0x71, 0x75, 0x76, 0x78, 0x79,
    0x7D, 0x7E, 0x81, 0x84, 0x85, 0x86, 0x88, 0x8A, 0x8C, 0x8D,
    0x8E, 0x90, 0x91, 0x94, 0x95, 0x96, 0x98, 0x99, 0x9A, 0x9D,
    0xA0, 0xA1, 0xA2, 0xA4, 0xA5, 0xA6, 0xA8, 0xA9, 0xAA, 0xAC,
    0xAD, 0xAE, 0xB0, 0xB1, 0xB4, 0xB5, 0xB6, 0xB8, 0xB9, 0xBA,
    0xBC, 0xBD, 0xBE, 0xC0, 0xC1, 0xC4, 0xC5, 0xC6, 0xC8, 0xC9,
    0xCA, 0xCC, 0xCD, 0xCE, 0xD0, 0xD1, 0xD5, 0xD6, 0xD8, 0xD9,
    0xDD, 0xDE, 0xE0, 0xE1, 0xE4, 0xE5, 0xE6, 0xE8, 0xE9, 0xEA,
    0xEC, 0xED, 0xEE, 0xF0, 0xF1, 0xF5, 0xF6, 0xF8, 0xF9, 0xFD,
    0xFE,
];

/// The addressing mode of each entry of `VALID_OPCODES`, in the same order.
pub const OP_MODES: [Mode; 151] = [
    Mode::Implied, Mode::IndirectX, Mode::ZeroPage, Mode::ZeroPage,
    Mode::Implied, Mode::Immediate, Mode::Accumulator, Mode::Absolute,
    Mode::Absolute, Mode::Relative, Mode::IndirectY, Mode::ZeroPageX,
    Mode::ZeroPageX, Mode::Implied, Mode::AbsoluteY, Mode::AbsoluteX,
    Mode::AbsoluteX, Mode::Absolute, Mode::IndirectX, Mode::ZeroPage,
    Mode::ZeroPage, Mode::ZeroPage, Mode::Implied, Mode::Immediate,
    Mode::Accumulator, Mode::Absolute, Mode::Absolute, Mode::Absolute,
    Mode::Relative, Mode::IndirectY, Mode::ZeroPageX, Mode::ZeroPageX,
    Mode::Implied, Mode::AbsoluteY, Mode::AbsoluteX, Mode::AbsoluteX,
    Mode::Implied, Mode::IndirectX, Mode::ZeroPage, Mode::ZeroPage,
    Mode::Implied, Mode::Immediate, Mode::Accumulator, Mode::Absolute,
    Mode::Absolute, Mode::Absolute, Mode::Relative, Mode::IndirectY,
    Mode::ZeroPageX, Mode::ZeroPageX, Mode::Implied, Mode::AbsoluteY,
    Mode::AbsoluteX, Mode::AbsoluteX, Mode::Implied, Mode::IndirectX,
    Mode::ZeroPage, Mode::ZeroPage, Mode::Implied, Mode::Immediate,
    Mode::Accumulator, Mode::Indirect, Mode::Absolute, Mode::Absolute,
    Mode::Relative, Mode::IndirectY, Mode::ZeroPageX, Mode::ZeroPageX,
    Mode::Implied, Mode::AbsoluteY, Mode::AbsoluteX, Mode::AbsoluteX,
    Mode::IndirectX, Mode::ZeroPage, Mode::ZeroPage, Mode::ZeroPage,
    Mode::Implied, Mode::Implied, Mode::Absolute, Mode::Absolute,
    Mode::Absolute, Mode::Relative, Mode::IndirectY, Mode::ZeroPageX,
    Mode::ZeroPageX, Mode::ZeroPageY, Mode::Implied, Mode::AbsoluteY,
    Mode::Implied, Mode::AbsoluteX, Mode::Immediate, Mode::IndirectX,
    Mode::Immediate, Mode::ZeroPage, Mode::ZeroPage, Mode::ZeroPage,
    Mode::Implied, Mode::Immediate, Mode::Implied, Mode::Absolute,
    Mode::Absolute, Mode::Absolute, Mode::Relative, Mode::IndirectY,
    Mode::ZeroPageX, Mode::ZeroPageX, Mode::ZeroPageY, Mode::Implied,
    Mode::AbsoluteY, Mode::Implied, Mode::AbsoluteX, Mode::AbsoluteX,
    Mode::AbsoluteY, Mode::Immediate, Mode::IndirectX, Mode::ZeroPage,
    Mode::ZeroPage, Mode::ZeroPage, Mode::Implied, Mode::Immediate,
    Mode::Implied, Mode::Absolute, Mode::Absolute, Mode::Absolute,
    Mode::Relative, Mode::IndirectY, Mode::ZeroPageX, Mode::ZeroPageX,
    Mode::Implied, Mode::AbsoluteY, Mode::AbsoluteX, Mode::AbsoluteX,
    Mode::Immediate, Mode::IndirectX, Mode::ZeroPage, Mode::ZeroPage,
    Mode::ZeroPage, Mode::Implied, Mode::Immediate, Mode::Implied,
    Mode::Absolute, Mode::Absolute, Mode::Absolute, Mode::Relative,
    Mode::IndirectY, Mode::ZeroPageX, Mode::ZeroPageX, Mode::Implied,
    Mode::AbsoluteY, Mode::AbsoluteX, Mode::AbsoluteX,
];

/// Whether `op` is in the table of documented opcodes.
pub open spec fn spec_valid_op(op: u8) -> bool {
    exists|i: int| 0 <= i < N_VALID_OPS && VALID_OPCODES[i] == op
}

/// Whether `op` is a documented opcode.
pub fn valid_op(op: u8) -> (valid: bool)
    ensures
        valid == spec_valid_op(op),
{
    let mut i: usize = 0;
    while i < N_VALID_OPS
        invariant
            i <= N_VALID_OPS,
            forall|j: int| 0 <= j < i ==> VALID_OPCODES[j] != op,
        decreases N_VALID_OPS - i,
    {
        if VALID_OPCODES[i] == op {
            return true;
        }
        i = i + 1;
    }
    false
}

/// Whether `new_pc` lies in another 256-byte page than `pc`.
pub open spec fn page_crossed(pc: u16, new_pc: u16) -> bool {
    new_pc / 256 != pc / 256
}

/// Whether going from `pc` to `new_pc` leaves the page.
pub fn check_page_cross(pc: u16, new_pc: u16) -> (crossed: bool)
    ensures
        crossed == page_crossed(pc, new_pc),
{
    new_pc / 256 != pc / 256
}

/// The ten opcodes that no documented instruction has although the slot
/// their bit fields fall in has an addressing mode: `0x02`, `0x9E`, and
/// `0x12`, `0x32`, ... `0xF2`.
pub open spec fn spare_slot(op: u8) -> bool {
    op == 0x02 || op == 0x9E || op % 32 == 0x12
}

/// The decoder gives every documented opcode the mode the table lists for it.
#[verifier::rlimit(40)]
pub proof fn lemma_table_modes(i: int)
    requires
        0 <= i < N_VALID_OPS,
    ensures
        spec_decode_mode(VALID_OPCODES[i]) == Ok::<Mode, VmError>(OP_MODES[i]),
{
}

/// Outside the spare slots, the opcodes that decode are exactly the
/// documented ones; every other opcode fails with `InvalidOpcodeMode`.
#[verifier::rlimit(40)]
pub proof fn lemma_decodes_iff_documented(op: u8)
    requires
        !spare_slot(op),
    ensures
        spec_decode_mode(op) is Ok <==> spec_valid_op(op),
        !spec_valid_op(op) ==> spec_decode_mode(op) == Err::<Mode, VmError>(
            VmError::InvalidOpcodeMode(op),
        ),
{
    if spec_valid_op(op) {
        let i = choose|i: int| 0 <= i < N_VALID_OPS && VALID_OPCODES[i] == op;
        lemma_table_modes(i);
    }
}

/// A spare slot decodes although the table does not list it.
#[verifier::rlimit(40)]
pub proof fn lemma_spare_slots_decode(op: u8)
    requires
        spare_slot(op),
    ensures
        spec_decode_mode(op) is Ok,
        !spec_valid_op(op),
{
}

} // verus!

