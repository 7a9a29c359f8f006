//! Operand fetch, branching, and the step that runs one instruction.
//!
//! While an instruction runs, the program counter points at its first
//! operand byte; only under `Relative` it still points at the opcode, and
//! the branch moves it.

use crate::error::VmError;
use crate::utils::check_page_cross;
use crate::utils::page_crossed;
use crate::vm::charge;
use crate::vm::decode::decode_mode;
use crate::vm::decode::decode_operation;
use crate::vm::decode::mode_allowed;
use crate::vm::decode::spec_decode_mode;
use crate::vm::decode::spec_mode_allowed;
use crate::vm::decode::spec_operation;
use crate::vm::instructions::after_operation;
use crate::vm::heap::HeapInterface;
use crate::vm::join;
use crate::vm::offset16;
use crate::vm::offset8;
use crate::vm::signed;
use crate::vm::status::nz_assigned;
use crate::vm::word;
use crate::vm::wrap16;
use crate::vm::wrap8;
use crate::vm::MachineState;
use crate::vm::Mode;
use crate::vm::VirtualMachine;
use vstd::prelude::*;

verus! {

/// Number of operand bytes that follow the opcode under `mode`.
pub open spec fn operand_len(mode: Mode) -> int {
    match mode {
        Mode::Accumulator | Mode::Implied => 0,
        Mode::Immediate | Mode::ZeroPage | Mode::ZeroPageX | Mode::ZeroPageY | Mode::Relative
        | Mode::IndirectX | Mode::IndirectY => 1,
        Mode::Absolute | Mode::AbsoluteX | Mode::AbsoluteY | Mode::Indirect => 2,
    }
}

/// The modes whose operand is a sixteen-bit address used as it stands or
/// indexed.
pub open spec fn absolute_family(mode: Mode) -> bool {
    mode == Mode::Absolute || mode == Mode::AbsoluteX || mode == Mode::AbsoluteY
}

/// `cycles` charged with `n` more.
pub fn add_cycles(cycles: u64, n: u64) -> (total: u64)
    ensures
        total == charge(cycles, n as int),
{
    if cycles > u64::MAX - n {
        u64::MAX
    } else {
        cycles + n
    }
}

impl MachineState {
    /// The byte of the instruction stream `k` places after the program
    /// counter.
    pub open spec fn stream_byte(self, k: int) -> u8 {
        self.heap_byte(wrap16(self.registers.pc + k))
    }

    /// The address stored in the zero page at `zp` and the cell after it,
    /// which for `zp = 0xFF` is cell `0x00`.
    pub open spec fn zero_page_word(self, zp: u8) -> u16 {
        word(self.byte_at(zp as u16), self.byte_at(wrap8(zp + 1) as u16))
    }

    /// The effective address of the operand, for the modes that have one.
    /// Indexing in the zero page wraps within the page; indexing a
    /// sixteen-bit address wraps at `0x10000`.
    pub open spec fn operand_address(self) -> Option<u16> {
        let b0 = self.stream_byte(0);
        let b1 = self.stream_byte(1);
        let x = self.registers.x;
        let y = self.registers.y;
        match self.mode {
            Mode::ZeroPage => Some(b0 as u16),
            Mode::ZeroPageX => Some(wrap8(b0 + x) as u16),
            Mode::ZeroPageY => Some(wrap8(b0 + y) as u16),
            Mode::Absolute => Some(word(b0, b1)),
            Mode::Indirect => Some(word(b0, b1)),
            Mode::AbsoluteX => Some(wrap16(word(b0, b1) + x)),
            Mode::AbsoluteY => Some(wrap16(word(b0, b1) + y)),
            Mode::IndirectX => Some(self.zero_page_word(wrap8(b0 + x))),
            Mode::IndirectY => Some(wrap16(self.zero_page_word(b0) + y)),
            _ => None,
        }
    }

    /// The address of the operand, or zero for the modes that have none.
    pub open spec fn operand_address_or_zero(self) -> u16 {
        match self.operand_address() {
            Some(address) => address,
            None => 0,
        }
    }

    /// The value of the operand: the accumulator, nothing (zero), the byte
    /// after the opcode, the displacement of a branch, or the byte at the
    /// effective address.
    pub open spec fn operand_value(self) -> u8 {
        match self.mode {
            Mode::Accumulator => self.registers.ac,
            Mode::Implied => 0,
            Mode::Immediate => self.stream_byte(0),
            Mode::Relative => self.stream_byte(1),
            _ => self.byte_at(self.operand_address_or_zero()),
        }
    }

    /// This machine with the program counter moved past the operand. Under
    /// `Relative` nothing moves: the branch does that.
    pub open spec fn past_operand(self) -> MachineState {
        if self.mode == Mode::Relative {
            self
        } else {
            self.with_pc(wrap16(self.registers.pc + operand_len(self.mode)))
        }
    }

    /// This machine with the program counter moved past the opcode. Under
    /// `Relative` nothing moves: the branch does that.
    pub open spec fn past_opcode(self) -> MachineState {
        if self.mode == Mode::Relative {
            self
        } else {
            self.with_pc(wrap16(self.registers.pc + 1))
        }
    }

    /// What `apply` works on: the accumulator under `Accumulator`, else the
    /// byte at `address`.
    pub open spec fn cell(self, address: u16) -> u8 {
        if self.mode == Mode::Accumulator {
            self.registers.ac
        } else {
            self.byte_at(address)
        }
    }

    /// This machine with `value` in the cell that `apply` works on.
    pub open spec fn with_cell(self, address: u16, value: u8) -> MachineState {
        if self.mode == Mode::Accumulator {
            self.with_ac(value)
        } else {
            self.store(address, value)
        }
    }

    /// The operand of an instruction that rewrites it in place.
    pub open spec fn rewrite_operand(self) -> u8 {
        self.cell(self.operand_address_or_zero())
    }

    /// This machine after its operand was rewritten to `after`: the program
    /// counter is past the operand, the cell holds `after`, and Zero and
    /// Negative describe `after`.
    pub open spec fn rewritten(self, after: u8) -> MachineState {
        let stored = self.past_operand().with_cell(self.operand_address_or_zero(), after);
        stored.with_sr(nz_assigned(stored.registers.sr, after))
    }

    /// This machine after a branch instruction with displacement `offset`.
    /// The program counter moves past the two bytes of the instruction; if
    /// `cond` holds it then moves by `offset`, read as a signed number, for
    /// one more cycle, and for yet another if that leaves the page.
    pub open spec fn branched(self, offset: u8, cond: bool) -> MachineState {
        let next = wrap16(self.registers.pc + 2);
        if cond {
            let target = wrap16(next + signed(offset));
            self.with_pc(target).with_cycles(
                charge(
                    self.cycles,
                    if page_crossed(next, target) {
                        2
                    } else {
                        1
                    },
                ),
            )
        } else {
            self.with_pc(next)
        }
    }
}

impl VirtualMachine {
    /// Reads the byte the program counter points at and moves past it.
    pub fn next_byte(&mut self) -> (byte: u8)
        ensures
            byte == old(self)@.stream_byte(0),
            final(self)@ == old(self)@.with_pc(wrap16(old(self)@.registers.pc + 1)),
    {
        let byte = self.get_heap(self.registers.pc);
        self.registers.pc = offset16(self.registers.pc, 1);
        byte
    }

    /// Reads the address stored in the zero page at `zp`.
    pub fn read_zero_page_word(&self, zp: u8) -> (address: u16)
        ensures
            address == self@.zero_page_word(zp),
    {
        let lo = self.flatmap.read(zp as u16);
        let hi = self.flatmap.read(offset8(zp, 1) as u16);
        join(lo, hi)
    }

    /// Resolves the effective address of the operand and moves the program
    /// counter past the operand bytes. Under a mode without an address
    /// nothing changes.
    pub fn operand_address(&mut self) -> (address: Option<u16>)
        ensures
            address == old(self)@.operand_address(),
            final(self)@ == if address is Some {
                old(self)@.past_operand()
            } else {
                old(self)@
            },
    {
        match self.addr_mode {
            Mode::ZeroPage => {
                let ll = self.next_byte();
                Some(ll as u16)
            },
            Mode::ZeroPageX => {
                let ll = self.next_byte();
                Some(offset8(ll, self.registers.x) as u16)
            },
            Mode::ZeroPageY => {
                let ll = self.next_byte();
                Some(offset8(ll, self.registers.y) as u16)
            },
            Mode::Absolute | Mode::Indirect => {
                let ll = self.next_byte();
                let hh = self.next_byte();
                Some(join(ll, hh))
            },
            Mode::AbsoluteX => {
                let ll = self.next_byte();
                let hh = self.next_byte();
                Some(offset16(join(ll, hh), self.registers.x as u16))
            },
            Mode::AbsoluteY => {
                let ll = self.next_byte();
                let hh = self.next_byte();
                Some(offset16(join(ll, hh), self.registers.y as u16))
            },
            Mode::IndirectX => {
                let ll = self.next_byte();
                Some(self.read_zero_page_word(offset8(ll, self.registers.x)))
            },
            Mode::IndirectY => {
                let ll = self.next_byte();
                Some(offset16(self.read_zero_page_word(ll), self.registers.y as u16))
            },
            _ => None,
        }
    }
}

/// This machine after one step. A halted machine stays as it is. Otherwise
/// the opcode at the program counter is decoded and its mode stored, the
/// program counter moves past the opcode (a branch does that itself), the
/// operation runs, and one cycle is counted. An opcode without a mode, or
/// an operation that cannot run under the mode, halts the machine where it
/// stands.
#[verifier::opaque]
pub open spec fn spec_step(s: MachineState) -> MachineState {
    if s.halted {
        s
    } else {
        let op = s.stream_byte(0);
        match spec_decode_mode(op) {
            Err(_) => s.halt(),
            Ok(mode) => {
                let operation = spec_operation(op);
                if !spec_mode_allowed(operation, mode) {
                    s.with_mode(mode).halt()
                } else {
                    let done = after_operation(s.with_mode(mode).past_opcode(), operation);
                    done.with_cycles(charge(done.cycles, 1))
                }
            },
        }
    }
}

/// What one step returns: the cycle counter after it, or the error that
/// halted the machine.
pub open spec fn spec_step_outcome(s: MachineState) -> Result<u64, VmError> {
    if s.halted {
        Ok(s.cycles)
    } else {
        let op = s.stream_byte(0);
        match spec_decode_mode(op) {
            Err(error) => Err(error),
            Ok(mode) => if spec_mode_allowed(spec_operation(op), mode) {
                Ok(spec_step(s).cycles)
            } else {
                Err(VmError::InvalidStoreMode(mode))
            },
        }
    }
}

/// The control functions of the machine.
pub trait InstructionController: View<V = MachineState> {
    /// Runs the instruction at the program counter and returns the cycle
    /// counter. A halted machine does nothing.
    fn step(&mut self) -> (cycles: Result<u64, VmError>)
        ensures
            final(self)@ == spec_step(old(self)@),
            cycles == spec_step_outcome(old(self)@),
    ;

    /// Decodes the addressing mode of `op`. The machine does not change.
    fn mode(&mut self, op: u8) -> (decoded: Result<Mode, VmError>)
        ensures
            decoded == spec_decode_mode(op),
            final(self)@ == old(self)@,
    ;

    /// Fetches the operand under the mode in force and moves the program
    /// counter past it.
    fn fetch(&mut self) -> (value: u8)
        ensures
            value == old(self)@.operand_value(),
            final(self)@ == old(self)@.past_operand(),
    ;

    /// Fetches the operand under any mode but `Absolute`, `AbsoluteX` and
    /// `AbsoluteY`.
    fn fetch_byte(&mut self) -> (value: u8)
        requires
            !absolute_family(old(self)@.mode),
        ensures
            value == old(self)@.operand_value(),
            final(self)@ == old(self)@.past_operand(),
    ;

    /// Replaces the accumulator (under `Accumulator`) or the byte at
    /// `address` (under any other mode) by what `operation` makes of it, and
    /// returns the new value.
    fn apply<F: Fn(u8) -> u8>(&mut self, address: u16, operation: F) -> (result: u8)
        requires
            forall|value: u8| call_requires(operation, (value,)),
        ensures
            call_ensures(operation, (old(self)@.cell(address),), result),
            final(self)@ == old(self)@.with_cell(address, result),
    ;

    /// Ends a branch instruction whose displacement is `offset`: taken if
    /// `cond` holds.
    fn relative_jump(&mut self, offset: u8, cond: bool)
        ensures
            final(self)@ == old(self)@.branched(offset, cond),
    ;
}

impl InstructionController for VirtualMachine {
    #[verifier::rlimit(40)]
    fn step(&mut self) -> (cycles: Result<u64, VmError>) {
        reveal(spec_step);
        if self.halted {
            return Ok(self.cycles);
        }
        let op = self.get_heap(self.registers.pc);
        let m = match self.mode(op) {
            Ok(m) => m,
            Err(error) => {
                self.halted = true;
                return Err(error);
            },
        };
        self.addr_mode = m;
        let operation = decode_operation(op);
        if !mode_allowed(operation, m) {
            self.halted = true;
            return Err(VmError::InvalidStoreMode(m));
        }
        if self.addr_mode != Mode::Relative {
            self.registers.pc = offset16(self.registers.pc, 1);
        }
        match self.dispatch(operation) {
            Ok(()) => {
                self.cycles = add_cycles(self.cycles, 1);
                Ok(self.cycles)
            },
            Err(error) => Err(error),
        }
    }

    fn mode(&mut self, op: u8) -> (decoded: Result<Mode, VmError>) {
        decode_mode(op)
    }

    fn fetch(&mut self) -> (value: u8) {
        match self.addr_mode {
            Mode::Absolute | Mode::AbsoluteX | Mode::AbsoluteY => {
                match self.operand_address() {
                    Some(address) => self.flatmap.read(address),
                    None => 0,
                }
            },
            _ => self.fetch_byte(),
        }
    }

    fn fetch_byte(&mut self) -> (value: u8) {
        match self.addr_mode {
            Mode::Accumulator => self.registers.ac,
            Mode::Immediate => self.next_byte(),
            Mode::Implied => 0,
            Mode::Relative => self.get_heap(offset16(self.registers.pc, 1)),
            _ => {
                match self.operand_address() {
                    Some(address) => self.flatmap.read(address),
                    None => 0,
                }
            },
        }
    }

    fn apply<F: Fn(u8) -> u8>(&mut self, address: u16, operation: F) -> (result: u8) {
        match self.addr_mode {
            Mode::Accumulator => {
                let result = operation(self.registers.ac);
                self.registers.ac = result;
                result
            },
            _ => {
                let result = operation(self.flatmap.read(address));
                self.flatmap.write(address, result);
                result
            },
        }
    }

    fn relative_jump(&mut self, offset: u8, cond: bool) {
        let next = offset16(self.registers.pc, 2);
        self.registers.pc = next;
        if cond {
            let target = if offset < 0x80 {
                offset16(next, offset as u16)
            } else {
                offset16(next, 0xFF00 + offset as u16)
            };
            let surcharge: u64 = if check_page_cross(next, target) {
                2
            } else {
                1
            };
            self.cycles = add_cycles(self.cycles, surcharge);
            self.registers.pc = target;
        }
    }
}

} // verus!
