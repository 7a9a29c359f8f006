//! The 56 operations of the processor.
//!
//! Each operation is given twice: as a function on `MachineState` that says
//! what the machine is afterwards, and as a method that does it. Decimal
//! mode is not implemented: ADC and SBC are binary whatever the Decimal
//! flag says.

use crate::error::VmError;
use crate::vm::control::InstructionController;
use crate::vm::decode::can_rewrite;
use crate::vm::decode::mode_allowed;
use crate::vm::decode::rewrite_mode;
use crate::vm::decode::spec_mode_allowed;
use crate::vm::decode::Operation;
use crate::vm::heap::HeapInterface;
use crate::vm::high_byte;
use crate::vm::join;
use crate::vm::low_byte;
use crate::vm::lower;
use crate::vm::offset16;
use crate::vm::offset8;
use crate::vm::signed;
use crate::vm::stack::StackInterface;
use crate::vm::status::flag_assigned;
use crate::vm::status::flag_of;
use crate::vm::status::nz_assigned;
use crate::vm::status::Status;
use crate::vm::status::StatusInterface;
use crate::vm::upper;
use crate::vm::word;
use crate::vm::wrap16;
use crate::vm::wrap8;
use crate::vm::MachineState;
use crate::vm::Mode;
use crate::vm::VirtualMachine;
use crate::vm::IRQ_VECTOR;
use vstd::prelude::*;

verus! {

/// The Carry flag of `sr` as a number.
pub open spec fn carry_in(sr: u8) -> int {
    if flag_of(sr, Status::Carry) {
        1
    } else {
        0
    }
}

/// `sr` after an addition or subtraction: Carry and Overflow as given, Zero
/// and Negative describing `result`.
pub open spec fn arith_flags(sr: u8, result: u8, carry: bool, overflow: bool) -> u8 {
    nz_assigned(
        flag_assigned(flag_assigned(sr, Status::Carry, carry), Status::Overflow, overflow),
        result,
    )
}

/// `sr` after `register` was compared with `value`: Carry iff the register
/// is not below the value, Zero iff they are equal, Negative from bit 7 of
/// the difference modulo 256.
pub open spec fn compare_flags(sr: u8, register: u8, value: u8) -> u8 {
    flag_assigned(
        flag_assigned(flag_assigned(sr, Status::Carry, register >= value), Status::Zero, register == value),
        Status::Negative,
        wrap8(register - value) >= 0x80,
    )
}

/// `Ok` where `operation` can run under `mode`, else `InvalidStoreMode`
/// with the mode.
pub open spec fn guard(operation: Operation, mode: Mode) -> Result<(), VmError> {
    if spec_mode_allowed(operation, mode) {
        Ok(())
    } else {
        Err(VmError::InvalidStoreMode(mode))
    }
}

/// The status byte that BRK and PHP push: `sr` with the Break bit set.
pub open spec fn pushed_status(sr: u8) -> u8 {
    sr | 0x10
}

/// The status register that RTI and PLP make of a pulled byte: the byte
/// without the Break and the unused bit.
pub open spec fn pulled_status(byte: u8) -> u8 {
    byte & 0xCF
}

impl MachineState {
    /// This machine with Zero and Negative describing `value`.
    pub open spec fn with_nz(self, value: u8) -> MachineState {
        self.with_sr(nz_assigned(self.registers.sr, value))
    }

    /// This machine with `flag` made equal to `value`.
    pub open spec fn with_flag(self, flag: Status, value: bool) -> MachineState {
        self.with_sr(flag_assigned(self.registers.sr, flag, value))
    }

    /// The sixteen-bit operand that follows the opcode.
    pub open spec fn stream_word(self) -> u16 {
        word(self.stream_byte(0), self.stream_byte(1))
    }
}

/// ADC: `AC + operand + C` goes to the accumulator modulo 256; Carry iff the
/// sum passes 255, Overflow iff the sum of the signed values leaves
/// `-128..=127`.
pub open spec fn after_adc(s: MachineState) -> MachineState {
    let ac = s.registers.ac;
    let value = s.operand_value();
    let carry = carry_in(s.registers.sr);
    let sum = ac + value + carry;
    let signed_sum = signed(ac) + signed(value) + carry;
    let result = wrap8(sum);
    s.past_operand().with_ac(result).with_sr(
        arith_flags(s.registers.sr, result, sum > 0xFF, signed_sum < -128 || signed_sum > 127),
    )
}

/// SBC: `AC - operand - (1 - C)` goes to the accumulator modulo 256; Carry
/// iff nothing was borrowed, Overflow iff the difference of the signed
/// values leaves `-128..=127`.
pub open spec fn after_sbc(s: MachineState) -> MachineState {
    let ac = s.registers.ac;
    let value = s.operand_value();
    let borrow = 1 - carry_in(s.registers.sr);
    let difference = ac - value - borrow;
    let signed_difference = signed(ac) - signed(value) - borrow;
    let result = wrap8(difference);
    s.past_operand().with_ac(result).with_sr(
        arith_flags(
            s.registers.sr,
            result,
            difference >= 0,
            signed_difference < -128 || signed_difference > 127,
        ),
    )
}

/// AND: the accumulator and-ed with the operand.
pub open spec fn after_and(s: MachineState) -> MachineState {
    let result = s.registers.ac & s.operand_value();
    s.past_operand().with_ac(result).with_nz(result)
}

/// EOR: the accumulator xor-ed with the operand.
pub open spec fn after_eor(s: MachineState) -> MachineState {
    let result = s.registers.ac ^ s.operand_value();
    s.past_operand().with_ac(result).with_nz(result)
}

/// ORA: the accumulator or-ed with the operand.
pub open spec fn after_ora(s: MachineState) -> MachineState {
    let result = s.registers.ac | s.operand_value();
    s.past_operand().with_ac(result).with_nz(result)
}

/// BIT: Zero iff accumulator and operand share no bit; Negative and
/// Overflow are bits 7 and 6 of the operand.
pub open spec fn after_bit(s: MachineState) -> MachineState {
    let value = s.operand_value();
    s.past_operand().with_flag(Status::Zero, s.registers.ac & value == 0).with_flag(
        Status::Negative,
        value >= 0x80,
    ).with_flag(Status::Overflow, value & 0x40 != 0)
}

/// This machine after `register` was compared with the operand.
pub open spec fn compared(s: MachineState, register: u8) -> MachineState {
    s.past_operand().with_sr(compare_flags(s.registers.sr, register, s.operand_value()))
}

/// CMP: compares the accumulator with the operand.
pub open spec fn after_cmp(s: MachineState) -> MachineState {
    compared(s, s.registers.ac)
}

/// CPX: compares X with the operand.
pub open spec fn after_cpx(s: MachineState) -> MachineState {
    compared(s, s.registers.x)
}

/// CPY: compares Y with the operand.
pub open spec fn after_cpy(s: MachineState) -> MachineState {
    compared(s, s.registers.y)
}

/// This machine after its operand was rewritten to `after` and the bit
/// shifted out went to Carry; unchanged under a mode that allows no
/// rewriting.
pub open spec fn shifted(s: MachineState, after: u8, carry: bool) -> MachineState {
    if rewrite_mode(s.mode) {
        s.rewritten(after).with_flag(Status::Carry, carry)
    } else {
        s
    }
}

/// ASL: the operand doubled modulo 256; bit 7 goes to Carry.
pub open spec fn after_asl(s: MachineState) -> MachineState {
    let before = s.rewrite_operand();
    shifted(s, wrap8(before * 2), before >= 0x80)
}

/// LSR: the operand halved; bit 0 goes to Carry.
pub open spec fn after_lsr(s: MachineState) -> MachineState {
    let before = s.rewrite_operand();
    shifted(s, before / 2, before % 2 == 1)
}

/// ROL: the operand doubled modulo 256 with Carry coming in as bit 0; bit 7
/// goes to Carry.
pub open spec fn after_rol(s: MachineState) -> MachineState {
    let before = s.rewrite_operand();
    shifted(s, wrap8(before * 2 + carry_in(s.registers.sr)), before >= 0x80)
}

/// ROR: the operand halved with Carry coming in as bit 7; bit 0 goes to
/// Carry.
pub open spec fn after_ror(s: MachineState) -> MachineState {
    let before = s.rewrite_operand();
    shifted(s, wrap8(before / 2 + 128 * carry_in(s.registers.sr)), before % 2 == 1)
}

/// INC: the operand plus one modulo 256.
pub open spec fn after_inc(s: MachineState) -> MachineState {
    if rewrite_mode(s.mode) {
        s.rewritten(wrap8(s.rewrite_operand() + 1))
    } else {
        s
    }
}

/// DEC: the operand minus one modulo 256.
pub open spec fn after_dec(s: MachineState) -> MachineState {
    if rewrite_mode(s.mode) {
        s.rewritten(wrap8(s.rewrite_operand() - 1))
    } else {
        s
    }
}

/// INX: X plus one modulo 256.
pub open spec fn after_inx(s: MachineState) -> MachineState {
    let result = wrap8(s.registers.x + 1);
    s.with_x(result).with_nz(result)
}

/// INY: Y plus one modulo 256.
pub open spec fn after_iny(s: MachineState) -> MachineState {
    let result = wrap8(s.registers.y + 1);
    s.with_y(result).with_nz(result)
}

/// DEX: X minus one modulo 256.
pub open spec fn after_dex(s: MachineState) -> MachineState {
    let result = wrap8(s.registers.x - 1);
    s.with_x(result).with_nz(result)
}

/// DEY: Y minus one modulo 256.
pub open spec fn after_dey(s: MachineState) -> MachineState {
    let result = wrap8(s.registers.y - 1);
    s.with_y(result).with_nz(result)
}

/// LDA: the operand goes to the accumulator.
pub open spec fn after_lda(s: MachineState) -> MachineState {
    let value = s.operand_value();
    s.past_operand().with_ac(value).with_nz(value)
}

/// LDX: the operand goes to X.
pub open spec fn after_ldx(s: MachineState) -> MachineState {
    let value = s.operand_value();
    s.past_operand().with_x(value).with_nz(value)
}

/// LDY: the operand goes to Y.
pub open spec fn after_ldy(s: MachineState) -> MachineState {
    let value = s.operand_value();
    s.past_operand().with_y(value).with_nz(value)
}

/// This machine after `register` was written to the effective address, as
/// `operation`, a store, does it; unchanged under a mode the store cannot
/// run under.
pub open spec fn stored(s: MachineState, operation: Operation, register: u8) -> MachineState {
    if spec_mode_allowed(operation, s.mode) {
        match s.operand_address() {
            Some(address) => s.past_operand().store(address, register),
            None => s,
        }
    } else {
        s
    }
}

/// STA: the accumulator goes to the effective address.
pub open spec fn after_sta(s: MachineState) -> MachineState {
    stored(s, Operation::Sta, s.registers.ac)
}

/// STX: X goes to the effective address.
pub open spec fn after_stx(s: MachineState) -> MachineState {
    stored(s, Operation::Stx, s.registers.x)
}

/// STY: Y goes to the effective address.
pub open spec fn after_sty(s: MachineState) -> MachineState {
    stored(s, Operation::Sty, s.registers.y)
}

/// JMP: the program counter becomes the operand address, or under
/// `Indirect` the address stored there. The high byte of an indirect target
/// comes from the next address even across a page boundary.
pub open spec fn after_jmp(s: MachineState) -> MachineState {
    if s.mode == Mode::Indirect {
        s.with_pc(s.word_at(s.stream_word()))
    } else {
        s.with_pc(s.stream_word())
    }
}

/// JSR: pushes the address of the last byte of the instruction, high byte
/// first, and jumps to the operand address.
pub open spec fn after_jsr(s: MachineState) -> MachineState {
    let last = wrap16(s.registers.pc + 1);
    s.pushed(high_byte(last)).pushed(low_byte(last)).with_pc(s.stream_word())
}

/// RTS: pops the low, then the high byte of an address and continues one
/// past it.
pub open spec fn after_rts(s: MachineState) -> MachineState {
    let lo = s.top();
    let hi = s.popped().top();
    s.popped().popped().with_pc(wrap16(word(lo, hi) + 1))
}

/// RTI: pops the status register, then the low and the high byte of the
/// program counter.
pub open spec fn after_rti(s: MachineState) -> MachineState {
    let sr = pulled_status(s.top());
    let lo = s.popped().top();
    let hi = s.popped().popped().top();
    s.popped().popped().popped().with_sr(sr).with_pc(word(lo, hi))
}

/// BRK: from `0xFFFE` on it halts the machine. Elsewhere it pushes the
/// address after the byte that follows the opcode, high byte first, then
/// the status register with Break set; it sets Interrupt and continues at
/// the address in the IRQ vector.
pub open spec fn after_brk(s: MachineState) -> MachineState {
    if s.registers.pc >= 0xFFFE {
        s.halt()
    } else {
        let resume = wrap16(s.registers.pc + 1);
        let saved = s.with_pc(resume).pushed(high_byte(resume)).pushed(low_byte(resume)).pushed(
            pushed_status(s.registers.sr),
        );
        saved.with_flag(Status::Interrupt, true).with_pc(saved.word_at(IRQ_VECTOR))
    }
}

/// CLC: clears Carry.
pub open spec fn after_clc(s: MachineState) -> MachineState {
    s.with_flag(Status::Carry, false)
}

/// CLD: clears Decimal.
pub open spec fn after_cld(s: MachineState) -> MachineState {
    s.with_flag(Status::Decimal, false)
}

/// CLI: clears Interrupt.
pub open spec fn after_cli(s: MachineState) -> MachineState {
    s.with_flag(Status::Interrupt, false)
}

/// CLV: clears Overflow.
pub open spec fn after_clv(s: MachineState) -> MachineState {
    s.with_flag(Status::Overflow, false)
}

/// SEC: sets Carry.
pub open spec fn after_sec(s: MachineState) -> MachineState {
    s.with_flag(Status::Carry, true)
}

/// SED: sets Decimal.
pub open spec fn after_sed(s: MachineState) -> MachineState {
    s.with_flag(Status::Decimal, true)
}

/// SEI: sets Interrupt.
pub open spec fn after_sei(s: MachineState) -> MachineState {
    s.with_flag(Status::Interrupt, true)
}

/// TAX: the accumulator goes to X.
pub open spec fn after_tax(s: MachineState) -> MachineState {
    s.with_x(s.registers.ac).with_nz(s.registers.ac)
}

/// TXA: X goes to the accumulator.
pub open spec fn after_txa(s: MachineState) -> MachineState {
    s.with_ac(s.registers.x).with_nz(s.registers.x)
}

/// TAY: the accumulator goes to Y.
pub open spec fn after_tay(s: MachineState) -> MachineState {
    s.with_y(s.registers.ac).with_nz(s.registers.ac)
}

/// TYA: Y goes to the accumulator.
pub open spec fn after_tya(s: MachineState) -> MachineState {
    s.with_ac(s.registers.y).with_nz(s.registers.y)
}

/// TSX: the stack pointer goes to X.
pub open spec fn after_tsx(s: MachineState) -> MachineState {
    s.with_x(s.registers.sp).with_nz(s.registers.sp)
}

/// TXS: X goes to the stack pointer; no flag changes.
pub open spec fn after_txs(s: MachineState) -> MachineState {
    s.with_sp(s.registers.x)
}

/// PHA: pushes the accumulator.
pub open spec fn after_pha(s: MachineState) -> MachineState {
    s.pushed(s.registers.ac)
}

/// PHP: pushes the status register with Break set.
pub open spec fn after_php(s: MachineState) -> MachineState {
    s.pushed(pushed_status(s.registers.sr))
}

/// PLA: pops a byte into the accumulator.
pub open spec fn after_pla(s: MachineState) -> MachineState {
    s.popped().with_ac(s.top()).with_nz(s.top())
}

/// PLP: pops the status register.
pub open spec fn after_plp(s: MachineState) -> MachineState {
    s.popped().with_sr(pulled_status(s.top()))
}

/// Whether the branch `operation` is taken under the status register `sr`.
pub open spec fn branch_taken(operation: Operation, sr: u8) -> bool {
    match operation {
        Operation::Bcc => !flag_of(sr, Status::Carry),
        Operation::Bcs => flag_of(sr, Status::Carry),
        Operation::Beq => flag_of(sr, Status::Zero),
        Operation::Bne => !flag_of(sr, Status::Zero),
        Operation::Bpl => !flag_of(sr, Status::Negative),
        Operation::Bmi => flag_of(sr, Status::Negative),
        Operation::Bvc => !flag_of(sr, Status::Overflow),
        Operation::Bvs => flag_of(sr, Status::Overflow),
        _ => false,
    }
}

/// This machine after the branch `operation` with displacement `offset`.
pub open spec fn after_branch(s: MachineState, operation: Operation, offset: u8) -> MachineState {
    s.branched(offset, branch_taken(operation, s.registers.sr))
}

/// `b` read as a two's complement number.
pub fn as_signed(b: u8) -> (n: i16)
    ensures
        n == signed(b),
{
    if b < 128 {
        b as i16
    } else {
        b as i16 - 256
    }
}

impl VirtualMachine {
    /// Sets the flags of an addition or subtraction.
    pub fn set_arith_flags(&mut self, result: u8, carry: bool, overflow: bool)
        ensures
            final(self)@ == old(self)@.with_sr(
                arith_flags(old(self)@.registers.sr, result, carry, overflow),
            ),
    {
        self.set_status(Status::Carry, carry);
        self.set_status(Status::Overflow, overflow);
        self.set_nz(result);
    }

    /// Fetches the operand and compares `register` with it.
    pub fn compare(&mut self, register: u8)
        ensures
            final(self)@ == compared(old(self)@, register),
    {
        let value = self.fetch();
        let difference = if register >= value {
            register - value
        } else {
            (256 - (value - register) as u16) as u8
        };
        self.set_status(Status::Carry, register >= value);
        self.set_status(Status::Zero, register == value);
        self.set_status(Status::Negative, difference >= 0x80);
    }

    /// Writes `register` to the effective address if `operation`, a store,
    /// can run under the mode in force.
    pub fn store_register(&mut self, operation: Operation, register: u8) -> (done: Result<
        (),
        VmError,
    >)
        ensures
            done == guard(operation, old(self)@.mode),
            final(self)@ == stored(old(self)@, operation, register),
    {
        if !mode_allowed(operation, self.addr_mode) {
            return Err(VmError::InvalidStoreMode(self.addr_mode));
        }
        match self.operand_address() {
            Some(address) => self.flatmap.write(address, register),
            None => {},
        }
        Ok(())
    }
}

/// The instruction set. Every method runs one operation on a machine whose
/// program counter is where `step` leaves it for the operation: at the
/// first operand byte, or under `Relative` at the opcode. The ones that
/// write to their operand fail, and change nothing, under a mode that
/// gives them nothing to write to.
pub trait Instructions: View<V = MachineState> {
    /// Rewrites the operand in place by `operation`, sets Zero and Negative
    /// from the new value, and returns the old one.
    fn abs_zp_acc_op<F: Fn(u8) -> u8>(&mut self, operation: F) -> (before: Result<u8, VmError>)
        requires
            forall|value: u8| call_requires(operation, (value,)),
        ensures
            match before {
                Ok(value) => rewrite_mode(old(self)@.mode) && value == old(self)@.rewrite_operand()
                    && exists|after: u8|
                    call_ensures(operation, (value,), after) && final(self)@ == old(self)@.rewritten(after),
                Err(error) => !rewrite_mode(old(self)@.mode) && error == VmError::InvalidStoreMode(
                    old(self)@.mode,
                ) && final(self)@ == old(self)@,
            },
    ;

    /// Add with carry
    fn adc(&mut self)
        ensures
            final(self)@ == after_adc(old(self)@),
    ;

    /// Logical AND
    fn and(&mut self)
        ensures
            final(self)@ == after_and(old(self)@),
    ;

    /// Arithmetic shift left
    fn asl(&mut self) -> (done: Result<(), VmError>)
        ensures
            done == guard(Operation::Asl, old(self)@.mode),
            final(self)@ == after_asl(old(self)@),
    ;

    /// Branch on carry clear
    fn bcc(&mut self, offset: u8)
        ensures
            final(self)@ == after_branch(old(self)@, Operation::Bcc, offset),
    ;

    /// Branch on carry set
    fn bcs(&mut self, offset: u8)
        ensures
            final(self)@ == after_branch(old(self)@, Operation::Bcs, offset),
    ;

    /// Branch on equal (zero set)
    fn beq(&mut self, offset: u8)
        ensures
            final(self)@ == after_branch(old(self)@, Operation::Beq, offset),
    ;

    /// Branch on not equal (zero clear)
    fn bne(&mut self, offset: u8)
        ensures
            final(self)@ == after_branch(old(self)@, Operation::Bne, offset),
    ;

    /// Branch on plus (negative clear)
    fn bpl(&mut self, offset: u8)
        ensures
            final(self)@ == after_branch(old(self)@, Operation::Bpl, offset),
    ;

    /// Branch on minus (negative set)
    fn bmi(&mut self, offset: u8)
        ensures
            final(self)@ == after_branch(old(self)@, Operation::Bmi, offset),
    ;

    /// Branch on overflow clear
    fn bvc(&mut self, offset: u8)
        ensures
            final(self)@ == after_branch(old(self)@, Operation::Bvc, offset),
    ;

    /// Branch on overflow set
    fn bvs(&mut self, offset: u8)
        ensures
            final(self)@ == after_branch(old(self)@, Operation::Bvs, offset),
    ;

    /// Bit test
    fn bit(&mut self)
        ensures
            final(self)@ == after_bit(old(self)@),
    ;

    /// Break
    fn brk(&mut self)
        ensures
            final(self)@ == after_brk(old(self)@),
    ;

    /// Clear carry flag
    fn clc(&mut self)
        ensures
            final(self)@ == after_clc(old(self)@),
    ;

    /// Clear decimal mode
    fn cld(&mut self)
        ensures
            final(self)@ == after_cld(old(self)@),
    ;

    /// Clear interrupt disable bit
    fn cli(&mut self)
        ensures
            final(self)@ == after_cli(old(self)@),
    ;

    /// Clear overflow flag
    fn clv(&mut self)
        ensures
            final(self)@ == after_clv(old(self)@),
    ;

    /// Compare with the accumulator
    fn cmp(&mut self)
        ensures
            final(self)@ == after_cmp(old(self)@),
    ;

    /// Compare with the X register
    fn cpx(&mut self)
        ensures
            final(self)@ == after_cpx(old(self)@),
    ;

    /// Compare with the Y register
    fn cpy(&mut self)
        ensures
            final(self)@ == after_cpy(old(self)@),
    ;

    /// Decrement memory
    fn dec(&mut self) -> (done: Result<(), VmError>)
        ensures
            done == guard(Operation::Dec, old(self)@.mode),
            final(self)@ == after_dec(old(self)@),
    ;

    /// Decrement X register
    fn dex(&mut self)
        ensures
            final(self)@ == after_dex(old(self)@),
    ;

    /// Decrement Y register
    fn dey(&mut self)
        ensures
            final(self)@ == after_dey(old(self)@),
    ;

    /// Exclusive OR
    fn eor(&mut self)
        ensures
            final(self)@ == after_eor(old(self)@),
    ;

    /// Increment memory
    fn inc(&mut self) -> (done: Result<(), VmError>)
        ensures
            done == guard(Operation::Inc, old(self)@.mode),
            final(self)@ == after_inc(old(self)@),
    ;

    /// Increment X register
    fn inx(&mut self)
        ensures
            final(self)@ == after_inx(old(self)@),
    ;

    /// Increment Y register
    fn iny(&mut self)
        ensures
            final(self)@ == after_iny(old(self)@),
    ;

    /// Jump
    fn jmp(&mut self)
        ensures
            final(self)@ == after_jmp(old(self)@),
    ;

    /// Jump to subroutine
    fn jsr(&mut self)
        ensures
            final(self)@ == after_jsr(old(self)@),
    ;

    /// Load accumulator
    fn lda(&mut self)
        ensures
            final(self)@ == after_lda(old(self)@),
    ;

    /// Load X register
    fn ldx(&mut self)
        ensures
            final(self)@ == after_ldx(old(self)@),
    ;

    /// Load Y register
    fn ldy(&mut self)
        ensures
            final(self)@ == after_ldy(old(self)@),
    ;

    /// Logical shift right
    fn lsr(&mut self) -> (done: Result<(), VmError>)
        ensures
            done == guard(Operation::Lsr, old(self)@.mode),
            final(self)@ == after_lsr(old(self)@),
    ;

    /// No operation
    fn nop(&mut self)
        ensures
            final(self)@ == old(self)@,
    ;

    /// Logical inclusive OR
    fn ora(&mut self)
        ensures
            final(self)@ == after_ora(old(self)@),
    ;

    /// Push accumulator
    fn pha(&mut self)
        ensures
            final(self)@ == after_pha(old(self)@),
    ;

    /// Push processor status
    fn php(&mut self)
        ensures
            final(self)@ == after_php(old(self)@),
    ;

    /// Pull accumulator
    fn pla(&mut self)
        ensures
            final(self)@ == after_pla(old(self)@),
    ;

    /// Pull processor status
    fn plp(&mut self)
        ensures
            final(self)@ == after_plp(old(self)@),
    ;

    /// Rotate left
    fn rol(&mut self) -> (done: Result<(), VmError>)
        ensures
            done == guard(Operation::Rol, old(self)@.mode),
            final(self)@ == after_rol(old(self)@),
    ;

    /// Rotate right
    fn ror(&mut self) -> (done: Result<(), VmError>)
        ensures
            done == guard(Operation::Ror, old(self)@.mode),
            final(self)@ == after_ror(old(self)@),
    ;

    /// Return from interrupt
    fn rti(&mut self)
        ensures
            final(self)@ == after_rti(old(self)@),
    ;

    /// Return from subroutine
    fn rts(&mut self)
        ensures
            final(self)@ == after_rts(old(self)@),
    ;

    /// Subtract with carry
    fn sbc(&mut self)
        ensures
            final(self)@ == after_sbc(old(self)@),
    ;

    /// Set carry flag
    fn sec(&mut self)
        ensures
            final(self)@ == after_sec(old(self)@),
    ;

    /// Set decimal mode
    fn sed(&mut self)
        ensures
            final(self)@ == after_sed(old(self)@),
    ;

    /// Set interrupt disable bit
    fn sei(&mut self)
        ensures
            final(self)@ == after_sei(old(self)@),
    ;

    /// Store accumulator
    fn sta(&mut self) -> (done: Result<(), VmError>)
        ensures
            done == guard(Operation::Sta, old(self)@.mode),
            final(self)@ == after_sta(old(self)@),
    ;

    /// Store X register
    fn stx(&mut self) -> (done: Result<(), VmError>)
        ensures
            done == guard(Operation::Stx, old(self)@.mode),
            final(self)@ == after_stx(old(self)@),
    ;

    /// Store Y register
    fn sty(&mut self) -> (done: Result<(), VmError>)
        ensures
            done == guard(Operation::Sty, old(self)@.mode),
            final(self)@ == after_sty(old(self)@),
    ;

    /// Transfer accumulator to X
    fn tax(&mut self)
        ensures
            final(self)@ == after_tax(old(self)@),
    ;

    /// Transfer accumulator to Y
    fn tay(&mut self)
        ensures
            final(self)@ == after_tay(old(self)@),
    ;

    /// Transfer stack pointer to X
    fn tsx(&mut self)
        ensures
            final(self)@ == after_tsx(old(self)@),
    ;

    /// Transfer X to accumulator
    fn txa(&mut self)
        ensures
            final(self)@ == after_txa(old(self)@),
    ;

    /// Transfer X to stack pointer
    fn txs(&mut self)
        ensures
            final(self)@ == after_txs(old(self)@),
    ;

    /// Transfer Y to accumulator
    fn tya(&mut self)
        ensures
            final(self)@ == after_tya(old(self)@),
    ;
}

impl Instructions for VirtualMachine {
    fn abs_zp_acc_op<F: Fn(u8) -> u8>(&mut self, operation: F) -> (before: Result<u8, VmError>) {
        if !can_rewrite(self.addr_mode) {
            return Err(VmError::InvalidStoreMode(self.addr_mode));
        }
        let address = match self.operand_address() {
            Some(address) => address,
            None => 0,
        };
        let value = match self.addr_mode {
            Mode::Accumulator => self.registers.ac,
            _ => self.flatmap.read(address),
        };
        let after = self.apply(address, operation);
        self.set_nz(after);
        proof {
            assert(call_ensures(operation, (value,), after));
            assert(self@ == old(self)@.rewritten(after));
        }
        Ok(value)
    }

    fn brk(&mut self) {
        if self.registers.pc >= u16::MAX - 1 {
            self.halted = true;
            return ;
        }
        self.registers.pc = offset16(self.registers.pc, 1);
        self.push(upper(self.registers.pc));
        self.push(lower(self.registers.pc));
        self.push(self.registers.sr | 0x10);
        self.set_status(Status::Interrupt, true);
        let lo = self.flatmap.read(IRQ_VECTOR);
        let hi = self.flatmap.read(IRQ_VECTOR + 1);
        self.registers.pc = join(lo, hi);
    }

    fn adc(&mut self) {
        let value = self.fetch();
        let ac = self.registers.ac;
        let carry: u8 = if self.get_status(Status::Carry) {
            1
        } else {
            0
        };
        let sum: u16 = ac as u16 + value as u16 + carry as u16;
        let signed_sum: i16 = as_signed(ac) + as_signed(value) + carry as i16;
        let result = (sum % 256) as u8;
        self.registers.ac = result;
        self.set_arith_flags(result, sum > 0xFF, signed_sum < -128 || signed_sum > 127);
    }

    fn sbc(&mut self) {
        let value = self.fetch();
        let ac = self.registers.ac;
        let borrow: u8 = if self.get_status(Status::Carry) {
            0
        } else {
            1
        };
        let difference: i16 = ac as i16 - value as i16 - borrow as i16;
        let signed_difference: i16 = as_signed(ac) - as_signed(value) - borrow as i16;
        let result = if difference >= 0 {
            difference as u8
        } else {
            (difference + 256) as u8
        };
        self.registers.ac = result;
        self.set_arith_flags(
            result,
            difference >= 0,
            signed_difference < -128 || signed_difference > 127,
        );
    }

    fn and(&mut self) {
        let value = self.fetch();
        self.registers.ac = self.registers.ac & value;
        self.set_nz(self.registers.ac);
    }

    fn eor(&mut self) {
        let value = self.fetch();
        self.registers.ac = self.registers.ac ^ value;
        self.set_nz(self.registers.ac);
    }

    fn ora(&mut self) {
        let value = self.fetch();
        self.registers.ac = self.registers.ac | value;
        self.set_nz(self.registers.ac);
    }

    fn bcc(&mut self, offset: u8) {
        let clear = !self.get_status(Status::Carry);
        self.relative_jump(offset, clear);
    }

    fn bcs(&mut self, offset: u8) {
        let set = self.get_status(Status::Carry);
        self.relative_jump(offset, set);
    }

    fn beq(&mut self, offset: u8) {
        let set = self.get_status(Status::Zero);
        self.relative_jump(offset, set);
    }

    fn bne(&mut self, offset: u8) {
        let clear = !self.get_status(Status::Zero);
        self.relative_jump(offset, clear);
    }

    fn bpl(&mut self, offset: u8) {
        let clear = !self.get_status(Status::Negative);
        self.relative_jump(offset, clear);
    }

    fn bmi(&mut self, offset: u8) {
        let set = self.get_status(Status::Negative);
        self.relative_jump(offset, set);
    }

    fn bvc(&mut self, offset: u8) {
        let clear = !self.get_status(Status::Overflow);
        self.relative_jump(offset, clear);
    }

    fn bvs(&mut self, offset: u8) {
        let set = self.get_status(Status::Overflow);
        self.relative_jump(offset, set);
    }

    fn dec(&mut self) -> (done: Result<(), VmError>) {
        let operation = |value: u8| -> (after: u8)
            ensures
                after == wrap8(value - 1),
            { offset8(value, 0xFF) };
        match self.abs_zp_acc_op(operation) {
            Ok(_) => Ok(()),
            Err(error) => Err(error),
        }
    }

    fn inc(&mut self) -> (done: Result<(), VmError>) {
        let operation = |value: u8| -> (after: u8)
            ensures
                after == wrap8(value + 1),
            { offset8(value, 1) };
        match self.abs_zp_acc_op(operation) {
            Ok(_) => Ok(()),
            Err(error) => Err(error),
        }
    }

    fn dex(&mut self) {
        self.registers.x = offset8(self.registers.x, 0xFF);
        self.set_nz(self.registers.x);
    }

    fn dey(&mut self) {
        self.registers.y = offset8(self.registers.y, 0xFF);
        self.set_nz(self.registers.y);
    }

    fn inx(&mut self) {
        self.registers.x = offset8(self.registers.x, 1);
        self.set_nz(self.registers.x);
    }

    fn iny(&mut self) {
        self.registers.y = offset8(self.registers.y, 1);
        self.set_nz(self.registers.y);
    }

    fn lda(&mut self) {
        let data = self.fetch();
        self.registers.ac = data;
        self.set_nz(data);
    }

    fn ldx(&mut self) {
        let data = self.fetch();
        self.registers.x = data;
        self.set_nz(data);
    }

    fn ldy(&mut self) {
        let data = self.fetch();
        self.registers.y = data;
        self.set_nz(data);
    }

    fn bit(&mut self) {
        let value = self.fetch();
        let result = self.registers.ac & value;
        self.set_status(Status::Zero, result == 0);
        self.set_status(Status::Negative, value >= 0x80);
        self.set_status(Status::Overflow, value & 0x40 != 0);
    }

    fn cmp(&mut self) {
        let register = self.registers.ac;
        self.compare(register);
    }

    fn cpx(&mut self) {
        let register = self.registers.x;
        self.compare(register);
    }

    fn cpy(&mut self) {
        let register = self.registers.y;
        self.compare(register);
    }

    fn lsr(&mut self) -> (done: Result<(), VmError>) {
        let operation = |value: u8| -> (after: u8)
            ensures
                after == value / 2,
            { value / 2 };
        match self.abs_zp_acc_op(operation) {
            Ok(before) => {
                self.set_status(Status::Carry, before % 2 == 1);
                Ok(())
            },
            Err(error) => Err(error),
        }
    }

    fn asl(&mut self) -> (done: Result<(), VmError>) {
        let operation = |value: u8| -> (after: u8)
            ensures
                after == wrap8(value * 2),
            { offset8(value, value) };
        match self.abs_zp_acc_op(operation) {
            Ok(before) => {
                self.set_status(Status::Carry, before >= 0x80);
                Ok(())
            },
            Err(error) => Err(error),
        }
    }

    fn rol(&mut self) -> (done: Result<(), VmError>) {
        let carry: u8 = if self.get_status(Status::Carry) {
            1
        } else {
            0
        };
        let operation = |value: u8| -> (after: u8)
            ensures
                after == wrap8(value * 2 + carry),
            { offset8(offset8(value, value), carry) };
        match self.abs_zp_acc_op(operation) {
            Ok(before) => {
                self.set_status(Status::Carry, before >= 0x80);
                Ok(())
            },
            Err(error) => Err(error),
        }
    }

    fn ror(&mut self) -> (done: Result<(), VmError>) {
        let carry: u8 = if self.get_status(Status::Carry) {
            0x80
        } else {
            0
        };
        let operation = |value: u8| -> (after: u8)
            ensures
                after == wrap8(value / 2 + carry),
            { offset8(value / 2, carry) };
        match self.abs_zp_acc_op(operation) {
            Ok(before) => {
                self.set_status(Status::Carry, before % 2 == 1);
                Ok(())
            },
            Err(error) => Err(error),
        }
    }

    fn jmp(&mut self) {
        let ll = self.next_byte();
        let hh = self.next_byte();
        let target = join(ll, hh);
        match self.addr_mode {
            Mode::Indirect => {
                let lo = self.flatmap.read(target);
                let hi = self.flatmap.read(offset16(target, 1));
                self.registers.pc = join(lo, hi);
            },
            _ => {
                self.registers.pc = target;
            },
        }
    }

    fn jsr(&mut self) {
        let ll = self.next_byte();
        let hh = self.get_heap(self.registers.pc);
        let pc = self.registers.pc;
        self.push(upper(pc));
        self.push(lower(pc));
        self.registers.pc = join(ll, hh);
    }

    fn rti(&mut self) {
        let sts = self.pop();
        self.registers.sr = sts & 0b1100_1111;
        let lo = self.pop();
        let hi = self.pop();
        self.registers.pc = join(lo, hi);
    }

    fn rts(&mut self) {
        let lo = self.pop();
        let hi = self.pop();
        self.registers.pc = offset16(join(lo, hi), 1);
    }

    fn clc(&mut self) {
        self.set_status(Status::Carry, false);
    }

    fn cld(&mut self) {
        self.set_status(Status::Decimal, false);
    }

    fn cli(&mut self) {
        self.set_status(Status::Interrupt, false);
    }

    fn clv(&mut self) {
        self.set_status(Status::Overflow, false);
    }

    fn sec(&mut self) {
        self.set_status(Status::Carry, true);
    }

    fn sed(&mut self) {
        self.set_status(Status::Decimal, true);
    }

    fn sei(&mut self) {
        self.set_status(Status::Interrupt, true);
    }

    fn sta(&mut self) -> (done: Result<(), VmError>) {
        let register = self.registers.ac;
        self.store_register(Operation::Sta, register)
    }

    fn stx(&mut self) -> (done: Result<(), VmError>) {
        let register = self.registers.x;
        self.store_register(Operation::Stx, register)
    }

    fn sty(&mut self) -> (done: Result<(), VmError>) {
        let register = self.registers.y;
        self.store_register(Operation::Sty, register)
    }

    fn tax(&mut self) {
        self.registers.x = self.registers.ac;
        self.set_nz(self.registers.x);
    }

    fn txa(&mut self) {
        self.registers.ac = self.registers.x;
        self.set_nz(self.registers.ac);
    }

    fn tay(&mut self) {
        self.registers.y = self.registers.ac;
        self.set_nz(self.registers.y);
    }

    fn tya(&mut self) {
        self.registers.ac = self.registers.y;
        self.set_nz(self.registers.ac);
    }

    fn tsx(&mut self) {
        self.registers.x = self.registers.sp;
        self.set_nz(self.registers.x);
    }

    fn txs(&mut self) {
        self.registers.sp = self.registers.x;
    }

    fn pha(&mut self) {
        self.push(self.registers.ac);
    }

    fn php(&mut self) {
        self.push(self.registers.sr | 0x10);
    }

    fn pla(&mut self) {
        let sts = self.pop();
        self.registers.ac = sts;
        self.set_nz(sts);
    }

    fn plp(&mut self) {
        let sts = self.pop();
        self.registers.sr = sts & 0b1100_1111;
    }

    fn nop(&mut self) {
    }
}

/// This machine after `operation` ran on it. A branch takes its
/// displacement from the operand.
#[verifier::opaque]
pub open spec fn after_operation(s: MachineState, operation: Operation) -> MachineState {
    match operation {
        Operation::Adc => after_adc(s),
        Operation::And => after_and(s),
        Operation::Asl => after_asl(s),
        Operation::Bit => after_bit(s),
        Operation::Brk => after_brk(s),
        Operation::Clc => after_clc(s),
        Operation::Cld => after_cld(s),
        Operation::Cli => after_cli(s),
        Operation::Clv => after_clv(s),
        Operation::Cmp => after_cmp(s),
        Operation::Cpx => after_cpx(s),
        Operation::Cpy => after_cpy(s),
        Operation::Dec => after_dec(s),
        Operation::Dex => after_dex(s),
        Operation::Dey => after_dey(s),
        Operation::Eor => after_eor(s),
        Operation::Inc => after_inc(s),
        Operation::Inx => after_inx(s),
        Operation::Iny => after_iny(s),
        Operation::Jmp => after_jmp(s),
        Operation::Jsr => after_jsr(s),
        Operation::Lda => after_lda(s),
        Operation::Ldx => after_ldx(s),
        Operation::Ldy => after_ldy(s),
        Operation::Lsr => after_lsr(s),
        Operation::Ora => after_ora(s),
        Operation::Pha => after_pha(s),
        Operation::Php => after_php(s),
        Operation::Pla => after_pla(s),
        Operation::Plp => after_plp(s),
        Operation::Rol => after_rol(s),
        Operation::Ror => after_ror(s),
        Operation::Rti => after_rti(s),
        Operation::Rts => after_rts(s),
        Operation::Sbc => after_sbc(s),
        Operation::Sec => after_sec(s),
        Operation::Sed => after_sed(s),
        Operation::Sei => after_sei(s),
        Operation::Sta => after_sta(s),
        Operation::Stx => after_stx(s),
        Operation::Sty => after_sty(s),
        Operation::Tax => after_tax(s),
        Operation::Tay => after_tay(s),
        Operation::Tsx => after_tsx(s),
        Operation::Txa => after_txa(s),
        Operation::Txs => after_txs(s),
        Operation::Tya => after_tya(s),
        Operation::Nop => s,
        Operation::Bcc | Operation::Bcs | Operation::Beq | Operation::Bne | Operation::Bpl | Operation::Bmi | Operation::Bvc | Operation::Bvs => after_branch(
            s.past_operand(),
            operation,
            s.operand_value(),
        ),
    }
}

impl VirtualMachine {
    /// Runs `operation` under the mode in force.
#[verifier::rlimit(40)]
    pub fn dispatch(&mut self, operation: Operation) -> (done: Result<(), VmError>)
        ensures
            done == guard(operation, old(self)@.mode),
            final(self)@ == after_operation(old(self)@, operation),
    {
        reveal(after_operation);
        match operation {
            Operation::Adc => {
                self.adc();
                Ok(())
            },
            Operation::And => {
                self.and();
                Ok(())
            },
            Operation::Asl => self.asl(),
            Operation::Bcc => {
                let offset = self.fetch();
                self.bcc(offset);
                Ok(())
            },
            Operation::Bcs => {
                let offset = self.fetch();
                self.bcs(offset);
                Ok(())
            },
            Operation::Beq => {
                let offset = self.fetch();
                self.beq(offset);
                Ok(())
            },
            Operation::Bit => {
                self.bit();
                Ok(())
            },
            Operation::Bmi => {
                let offset = self.fetch();
                self.bmi(offset);
                Ok(())
            },
            Operation::Bne => {
                let offset = self.fetch();
                self.bne(offset);
                Ok(())
            },
            Operation::Bpl => {
                let offset = self.fetch();
                self.bpl(offset);
                Ok(())
            },
            Operation::Brk => {
                self.brk();
                Ok(())
            },
            Operation::Bvc => {
                let offset = self.fetch();
                self.bvc(offset);
                Ok(())
            },
            Operation::Bvs => {
                let offset = self.fetch();
                self.bvs(offset);
                Ok(())
            },
            Operation::Clc => {
                self.clc();
                Ok(())
            },
            Operation::Cld => {
                self.cld();
                Ok(())
            },
            Operation::Cli => {
                self.cli();
                Ok(())
            },
            Operation::Clv => {
                self.clv();
                Ok(())
            },
            Operation::Cmp => {
                self.cmp();
                Ok(())
            },
            Operation::Cpx => {
                self.cpx();
                Ok(())
            },
            Operation::Cpy => {
                self.cpy();
                Ok(())
            },
            Operation::Dec => self.dec(),
            Operation::Dex => {
                self.dex();
                Ok(())
            },
            Operation::Dey => {
                self.dey();
                Ok(())
            },
            Operation::Eor => {
                self.eor();
                Ok(())
            },
            Operation::Inc => self.inc(),
            Operation::Inx => {
                self.inx();
                Ok(())
            },
            Operation::Iny => {
                self.iny();
                Ok(())
            },
            Operation::Jmp => {
                self.jmp();
                Ok(())
            },
            Operation::Jsr => {
                self.jsr();
                Ok(())
            },
            Operation::Lda => {
                self.lda();
                Ok(())
            },
            Operation::Ldx => {
                self.ldx();
                Ok(())
            },
            Operation::Ldy => {
                self.ldy();
                Ok(())
            },
            Operation::Lsr => self.lsr(),
            Operation::Nop => {
                self.nop();
                Ok(())
            },
            Operation::Ora => {
                self.ora();
                Ok(())
            },
            Operation::Pha => {
                self.pha();
                Ok(())
            },
            Operation::Php => {
                self.php();
                Ok(())
            },
            Operation::Pla => {
                self.pla();
                Ok(())
            },
            Operation::Plp => {
                self.plp();
                Ok(())
            },
            Operation::Rol => self.rol(),
            Operation::Ror => self.ror(),
            Operation::Rti => {
                self.rti();
                Ok(())
            },
            Operation::Rts => {
                self.rts();
                Ok(())
            },
            Operation::Sbc => {
                self.sbc();
                Ok(())
            },
            Operation::Sec => {
                self.sec();
                Ok(())
            },
            Operation::Sed => {
                self.sed();
                Ok(())
            },
            Operation::Sei => {
                self.sei();
                Ok(())
            },
            Operation::Sta => self.sta(),
            Operation::Stx => self.stx(),
            Operation::Sty => self.sty(),
            Operation::Tax => {
                self.tax();
                Ok(())
            },
            Operation::Tay => {
                self.tay();
                Ok(())
            },
            Operation::Tsx => {
                self.tsx();
                Ok(())
            },
            Operation::Txa => {
                self.txa();
                Ok(())
            },
            Operation::Txs => {
                self.txs();
                Ok(())
            },
            Operation::Tya => {
                self.tya();
                Ok(())
            },
        }
    }
}

} // verus!
