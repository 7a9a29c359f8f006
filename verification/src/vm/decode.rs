//! From opcode byte to addressing mode and operation.
//!
//! An opcode is read as three bit fields `aaabbbcc`.

use crate::error::VmError;
use crate::vm::Mode;
use vstd::prelude::*;

verus! {

/// Bits 7 to 5 of the opcode.
pub open spec fn field_a(op: u8) -> int {
    (op / 32) as int
}

/// Bits 4 to 2 of the opcode.
pub open spec fn field_b(op: u8) -> int {
    ((op / 4) % 8) as int
}

/// Bits 1 and 0 of the opcode.
pub open spec fn field_c(op: u8) -> int {
    (op % 4) as int
}

/// The mode of the slot `(a, b)` in the control group, `cc = 00`.
pub open spec fn control_slot(a: int, b: int) -> Option<Mode> {
    if b == 0 {
        if a == 0 || a == 2 || a == 3 {
            Some(Mode::Implied)
        } else if a == 1 {
            Some(Mode::Absolute)
        } else if 5 <= a <= 7 {
            Some(Mode::Immediate)
        } else {
            None
        }
    } else if b == 1 {
        if a == 1 || 4 <= a <= 7 {
            Some(Mode::ZeroPage)
        } else {
            None
        }
    } else if b == 2 {
        Some(Mode::Implied)
    } else if b == 3 {
        if a == 3 {
            Some(Mode::Indirect)
        } else if a == 1 || a == 2 || 4 <= a <= 7 {
            Some(Mode::Absolute)
        } else {
            None
        }
    } else if b == 4 {
        Some(Mode::Relative)
    } else if b == 5 {
        if a == 4 || a == 5 {
            Some(Mode::ZeroPageX)
        } else {
            None
        }
    } else if b == 6 {
        Some(Mode::Implied)
    } else {
        if a == 5 {
            Some(Mode::AbsoluteX)
        } else {
            None
        }
    }
}

/// The mode of the slot `(a, b)` in the arithmetic group, `cc = 01`.
pub open spec fn alu_slot(a: int, b: int) -> Option<Mode> {
    if b == 0 {
        Some(Mode::IndirectX)
    } else if b == 1 {
        Some(Mode::ZeroPage)
    } else if b == 2 {
        if a == 4 {
            None
        } else {
            Some(Mode::Immediate)
        }
    } else if b == 3 {
        Some(Mode::Absolute)
    } else if b == 4 {
        Some(Mode::IndirectY)
    } else if b == 5 {
        Some(Mode::ZeroPageX)
    } else if b == 6 {
        Some(Mode::AbsoluteY)
    } else {
        Some(Mode::AbsoluteX)
    }
}

/// The mode of the slot `(a, b)` in the shift and transfer group, `cc = 10`.
pub open spec fn shift_slot(a: int, b: int) -> Option<Mode> {
    if b == 0 {
        if a == 0 {
            Some(Mode::Implied)
        } else if a == 5 {
            Some(Mode::Immediate)
        } else {
            None
        }
    } else if b == 1 {
        Some(Mode::ZeroPage)
    } else if b == 2 {
        if a <= 3 {
            Some(Mode::Accumulator)
        } else {
            Some(Mode::Implied)
        }
    } else if b == 3 {
        Some(Mode::Absolute)
    } else if b == 4 {
        Some(Mode::ZeroPageX)
    } else if b == 5 {
        if a == 4 || a == 5 {
            Some(Mode::ZeroPageY)
        } else {
            Some(Mode::ZeroPageX)
        }
    } else if b == 6 {
        if a == 4 || a == 5 {
            Some(Mode::Implied)
        } else {
            None
        }
    } else {
        if a == 5 {
            Some(Mode::AbsoluteY)
        } else {
            Some(Mode::AbsoluteX)
        }
    }
}

/// The mode of the slot that `op` falls in, if the slot has one. Nothing
/// in the group `cc = 11` has.
pub open spec fn slot_mode(op: u8) -> Option<Mode> {
    let a = field_a(op);
    let b = field_b(op);
    let c = field_c(op);
    if c == 0 {
        control_slot(a, b)
    } else if c == 1 {
        alu_slot(a, b)
    } else if c == 2 {
        shift_slot(a, b)
    } else {
        None
    }
}

/// The addressing mode of `op`, or `InvalidOpcodeMode` with the opcode where
/// its slot has none.
pub open spec fn spec_decode_mode(op: u8) -> Result<Mode, VmError> {
    match slot_mode(op) {
        Some(mode) => Ok(mode),
        None => Err(VmError::InvalidOpcodeMode(op)),
    }
}

/// Decodes the addressing mode of `op`.
pub fn decode_mode(op: u8) -> (decoded: Result<Mode, VmError>)
    ensures
        decoded == spec_decode_mode(op),
{
    let a = op / 32;
    let b = (op / 4) % 8;
    let c = op % 4;
    let slot = match c {
        0x00 => match b {
            0x00 => match a {
                0x00 => Some(Mode::Implied),
                0x01 => Some(Mode::Absolute),
                0x02 | 0x03 => Some(Mode::Implied),
                0x05..=0x07 => Some(Mode::Immediate),
                _ => None,
            },
            0x01 => match a {
                0x01 => Some(Mode::ZeroPage),
                0x04..=0x07 => Some(Mode::ZeroPage),
                _ => None,
            },
            0x02 => Some(Mode::Implied),
            0x03 => match a {
                0x03 => Some(Mode::Indirect),
                0x01 | 0x02 | 0x04..=0x07 => Some(Mode::Absolute),
                _ => None,
            },
            0x04 => Some(Mode::Relative),
            0x05 => match a {
                0x04 | 0x05 => Some(Mode::ZeroPageX),
                _ => None,
            },
            0x06 => Some(Mode::Implied),
            _ => match a {
                0x05 => Some(Mode::AbsoluteX),
                _ => None,
            },
        },
        0x01 => match b {
            0x00 => Some(Mode::IndirectX),
            0x01 => Some(Mode::ZeroPage),
            0x02 => match a {
                0x04 => None,
                _ => Some(Mode::Immediate),
            },
            0x03 => Some(Mode::Absolute),
            0x04 => Some(Mode::IndirectY),
            0x05 => Some(Mode::ZeroPageX),
            0x06 => Some(Mode::AbsoluteY),
            _ => Some(Mode::AbsoluteX),
        },
        0x02 => match b {
            0x00 => match a {
                0x00 => Some(Mode::Implied),
                0x05 => Some(Mode::Immediate),
                _ => None,
            },
            0x01 => Some(Mode::ZeroPage),
            0x02 => match a {
                0x00..=0x03 => Some(Mode::Accumulator),
                _ => Some(Mode::Implied),
            },
            0x03 => Some(Mode::Absolute),
            0x04 => Some(Mode::ZeroPageX),
            0x05 => match a {
                0x04 | 0x05 => Some(Mode::ZeroPageY),
                _ => Some(Mode::ZeroPageX),
            },
            0x06 => match a {
                0x04 | 0x05 => Some(Mode::Implied),
                _ => None,
            },
            _ => match a {
                0x05 => Some(Mode::AbsoluteY),
                _ => Some(Mode::AbsoluteX),
            },
        },
        _ => None,
    };
    match slot {
        Some(mode) => Ok(mode),
        None => Err(VmError::InvalidOpcodeMode(op)),
    }
}

/// The 56 operations of the processor.
#[derive(Clone, Copy, Debug, PartialEq, Eq, Structural)]
pub enum Operation {
    Adc,
    And,
    Asl,
    Bcc,
    Bcs,
    Beq,
    Bit,
    Bmi,
    Bne,
    Bpl,
    Brk,
    Bvc,
    Bvs,
    Clc,
    Cld,
    Cli,
    Clv,
    Cmp,
    Cpx,
    Cpy,
    Dec,
    Dex,
    Dey,
    Eor,
    Inc,
    Inx,
    Iny,
    Jmp,
    Jsr,
    Lda,
    Ldx,
    Ldy,
    Lsr,
    Nop,
    Ora,
    Pha,
    Php,
    Pla,
    Plp,
    Rol,
    Ror,
    Rti,
    Rts,
    Sbc,
    Sec,
    Sed,
    Sei,
    Sta,
    Stx,
    Sty,
    Tax,
    Tay,
    Tsx,
    Txa,
    Txs,
    Tya,
}

/// The operation of an opcode that stands alone, outside the groups that
/// the field `a` indexes.
pub open spec fn singleton(op: u8) -> Option<Operation> {
    if op == 0x00 {
        Some(Operation::Brk)
    } else if op == 0x20 {
        Some(Operation::Jsr)
    } else if op == 0x40 {
        Some(Operation::Rti)
    } else if op == 0x60 {
        Some(Operation::Rts)
    } else if op == 0x08 {
        Some(Operation::Php)
    } else if op == 0x28 {
        Some(Operation::Plp)
    } else if op == 0x48 {
        Some(Operation::Pha)
    } else if op == 0x68 {
        Some(Operation::Pla)
    } else if op == 0x88 {
        Some(Operation::Dey)
    } else if op == 0xA8 {
        Some(Operation::Tay)
    } else if op == 0xC8 {
        Some(Operation::Iny)
    } else if op == 0xE8 {
        Some(Operation::Inx)
    } else if op == 0x18 {
        Some(Operation::Clc)
    } else if op == 0x38 {
        Some(Operation::Sec)
    } else if op == 0x58 {
        Some(Operation::Cli)
    } else if op == 0x78 {
        Some(Operation::Sei)
    } else if op == 0x98 {
        Some(Operation::Tya)
    } else if op == 0xB8 {
        Some(Operation::Clv)
    } else if op == 0xD8 {
        Some(Operation::Cld)
    } else if op == 0xF8 {
        Some(Operation::Sed)
    } else if op == 0x8A {
        Some(Operation::Txa)
    } else if op == 0x9A {
        Some(Operation::Txs)
    } else if op == 0xAA {
        Some(Operation::Tax)
    } else if op == 0xBA {
        Some(Operation::Tsx)
    } else if op == 0xCA {
        Some(Operation::Dex)
    } else if op == 0xEA {
        Some(Operation::Nop)
    } else {
        None
    }
}

/// The conditional branch that the field `a` selects.
pub open spec fn branch_operation(a: int) -> Operation {
    if a == 0 {
        Operation::Bpl
    } else if a == 1 {
        Operation::Bmi
    } else if a == 2 {
        Operation::Bvc
    } else if a == 3 {
        Operation::Bvs
    } else if a == 4 {
        Operation::Bcc
    } else if a == 5 {
        Operation::Bcs
    } else if a == 6 {
        Operation::Bne
    } else {
        Operation::Beq
    }
}

/// The operation that the field `a` selects in the control group.
pub open spec fn control_operation(a: int) -> Operation {
    if a == 1 {
        Operation::Bit
    } else if a == 2 || a == 3 {
        Operation::Jmp
    } else if a == 4 {
        Operation::Sty
    } else if a == 5 {
        Operation::Ldy
    } else if a == 6 {
        Operation::Cpy
    } else if a == 7 {
        Operation::Cpx
    } else {
        Operation::Nop
    }
}

/// The operation that the field `a` selects in the arithmetic group.
pub open spec fn alu_operation(a: int) -> Operation {
    if a == 0 {
        Operation::Ora
    } else if a == 1 {
        Operation::And
    } else if a == 2 {
        Operation::Eor
    } else if a == 3 {
        Operation::Adc
    } else if a == 4 {
        Operation::Sta
    } else if a == 5 {
        Operation::Lda
    } else if a == 6 {
        Operation::Cmp
    } else {
        Operation::Sbc
    }
}

/// The operation that the field `a` selects in the shift and transfer group.
pub open spec fn shift_operation(a: int) -> Operation {
    if a == 0 {
        Operation::Asl
    } else if a == 1 {
        Operation::Rol
    } else if a == 2 {
        Operation::Lsr
    } else if a == 3 {
        Operation::Ror
    } else if a == 4 {
        Operation::Stx
    } else if a == 5 {
        Operation::Ldx
    } else if a == 6 {
        Operation::Dec
    } else {
        Operation::Inc
    }
}

/// The operation of `op`: a singleton, a conditional branch (`b = 100` in
/// the control group), or what `a` selects in the group of `cc`. An opcode
/// that fits nowhere is a `Nop`.
pub open spec fn spec_operation(op: u8) -> Operation {
    let a = field_a(op);
    let b = field_b(op);
    let c = field_c(op);
    match singleton(op) {
        Some(operation) => operation,
        None => if c == 1 {
            alu_operation(a)
        } else if c == 2 {
            shift_operation(a)
        } else if c == 0 {
            if b == 4 {
                branch_operation(a)
            } else {
                control_operation(a)
            }
        } else {
            Operation::Nop
        },
    }
}

/// Decodes the operation of `op`.
pub fn decode_operation(op: u8) -> (operation: Operation)
    ensures
        operation == spec_operation(op),
{
    let a = op / 32;
    let b = (op / 4) % 8;
    let c = op % 4;
    match op {
        0x00 => Operation::Brk,
        0x20 => Operation::Jsr,
        0x40 => Operation::Rti,
        0x60 => Operation::Rts,
        0x08 => Operation::Php,
        0x28 => Operation::Plp,
        0x48 => Operation::Pha,
        0x68 => Operation::Pla,
        0x88 => Operation::Dey,
        0xA8 => Operation::Tay,
        0xC8 => Operation::Iny,
        0xE8 => Operation::Inx,
        0x18 => Operation::Clc,
        0x38 => Operation::Sec,
        0x58 => Operation::Cli,
        0x78 => Operation::Sei,
        0x98 => Operation::Tya,
        0xB8 => Operation::Clv,
        0xD8 => Operation::Cld,
        0xF8 => Operation::Sed,
        0x8A => Operation::Txa,
        0x9A => Operation::Txs,
        0xAA => Operation::Tax,
        0xBA => Operation::Tsx,
        0xCA => Operation::Dex,
        0xEA => Operation::Nop,
        _ => match c {
            0x01 => match a {
                0x00 => Operation::Ora,
                0x01 => Operation::And,
                0x02 => Operation::Eor,
                0x03 => Operation::Adc,
                0x04 => Operation::Sta,
                0x05 => Operation::Lda,
                0x06 => Operation::Cmp,
                _ => Operation::Sbc,
            },
            0x02 => match a {
                0x00 => Operation::Asl,
                0x01 => Operation::Rol,
                0x02 => Operation::Lsr,
                0x03 => Operation::Ror,
                0x04 => Operation::Stx,
                0x05 => Operation::Ldx,
                0x06 => Operation::Dec,
                _ => Operation::Inc,
            },
            0x00 => if b == 0x04 {
                match a {
                    0x00 => Operation::Bpl,
                    0x01 => Operation::Bmi,
                    0x02 => Operation::Bvc,
                    0x03 => Operation::Bvs,
                    0x04 => Operation::Bcc,
                    0x05 => Operation::Bcs,
                    0x06 => Operation::Bne,
                    _ => Operation::Beq,
                }
            } else {
                match a {
                    0x01 => Operation::Bit,
                    0x02 | 0x03 => Operation::Jmp,
                    0x04 => Operation::Sty,
                    0x05 => Operation::Ldy,
                    0x06 => Operation::Cpy,
                    0x07 => Operation::Cpx,
                    _ => Operation::Nop,
                }
            },
            _ => Operation::Nop,
        },
    }
}

/// Whether `operation` can run under `mode`. The stores and the operations
/// that rewrite their operand need a mode that gives them a place to write
/// to; every other operation runs under any mode.
pub open spec fn spec_mode_allowed(operation: Operation, mode: Mode) -> bool {
    match operation {
        Operation::Sta => mode == Mode::ZeroPage || mode == Mode::ZeroPageX || mode
            == Mode::Absolute || mode == Mode::AbsoluteX || mode == Mode::AbsoluteY || mode
            == Mode::IndirectX || mode == Mode::IndirectY,
        Operation::Stx => mode == Mode::ZeroPage || mode == Mode::ZeroPageY || mode
            == Mode::Absolute,
        Operation::Sty => mode == Mode::ZeroPage || mode == Mode::ZeroPageX || mode
            == Mode::Absolute,
        Operation::Asl | Operation::Lsr | Operation::Rol | Operation::Ror | Operation::Inc
        | Operation::Dec => rewrite_mode(mode),
        _ => true,
    }
}

/// The modes under which an operand can be rewritten in place: the
/// accumulator, or a cell addressed absolutely or in the zero page, plain or
/// indexed by X.
pub open spec fn rewrite_mode(mode: Mode) -> bool {
    mode == Mode::Accumulator || mode == Mode::ZeroPage || mode == Mode::ZeroPageX || mode
        == Mode::Absolute || mode == Mode::AbsoluteX
}

/// Whether an operand can be rewritten in place under `mode`.
pub fn can_rewrite(mode: Mode) -> (allowed: bool)
    ensures
        allowed == rewrite_mode(mode),
{
    match mode {
        Mode::Accumulator | Mode::ZeroPage | Mode::ZeroPageX | Mode::Absolute
        | Mode::AbsoluteX => true,
        _ => false,
    }
}

/// Whether `operation` can run under `mode`.
pub fn mode_allowed(operation: Operation, mode: Mode) -> (allowed: bool)
    ensures
        allowed == spec_mode_allowed(operation, mode),
{
    match operation {
        Operation::Sta => match mode {
            Mode::ZeroPage | Mode::ZeroPageX | Mode::Absolute | Mode::AbsoluteX | Mode::AbsoluteY
            | Mode::IndirectX | Mode::IndirectY => true,
            _ => false,
        },
        Operation::Stx => match mode {
            Mode::ZeroPage | Mode::ZeroPageY | Mode::Absolute => true,
            _ => false,
        },
        Operation::Sty => match mode {
            Mode::ZeroPage | Mode::ZeroPageX | Mode::Absolute => true,
            _ => false,
        },
        Operation::Asl | Operation::Lsr | Operation::Rol | Operation::Ror | Operation::Inc
        | Operation::Dec => can_rewrite(mode),
        _ => true,
    }
}

} // verus!
