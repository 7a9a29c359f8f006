//! What holds of the machine whatever it runs.

use crate::error::VmError;
use crate::memory::lands_once;
use crate::memory::lemma_short_lands_once;
use crate::memory::lemma_written_window;
use crate::memory::window_of;
use crate::memory::MEMORY_SIZE;
use crate::vm::charge;
use crate::vm::control::spec_step;
use crate::vm::control::spec_step_outcome;
use crate::vm::decode::spec_decode_mode;
use crate::vm::decode::spec_mode_allowed;
use crate::vm::decode::spec_operation;
use crate::vm::decode::Operation;
use crate::vm::heap::heap_address;
use crate::vm::high_byte;
use crate::vm::instructions::after_adc;
use crate::vm::instructions::after_jsr;
use crate::vm::instructions::after_operation;
use crate::vm::instructions::after_pha;
use crate::vm::instructions::after_pla;
use crate::vm::instructions::after_rts;
use crate::vm::instructions::after_sbc;
use crate::vm::instructions::arith_flags;
use crate::vm::instructions::carry_in;
use crate::vm::instructions::compare_flags;
use crate::vm::instructions::pulled_status;
use crate::vm::low_byte;
use crate::vm::signed;
use crate::vm::stack::stack_slot;
use crate::vm::status::flag_assigned;
use crate::vm::status::flag_of;
use crate::vm::status::lemma_flags_independent;
use crate::vm::status::lemma_set_then_get;
use crate::vm::status::nz_assigned;
use crate::vm::status::Status;
use crate::vm::word;
use crate::vm::wrap16;
use crate::vm::MachineState;
use crate::vm::Mode;
use crate::vm::HEAP_BASE;
use crate::vm::STACK_BASE;
use crate::vm::STACK_TOP;
use vstd::prelude::*;

verus! {

/// A fresh machine meets what construction promises: memory of full size
/// and all zero, registers and cycles zero, not halted.
pub proof fn lemma_fresh_machine()
    ensures
        MachineState::fresh().wf(),
        forall|addr: u16| MachineState::fresh().byte_at(addr) == 0,
        MachineState::fresh().registers.pc == 0,
        MachineState::fresh().registers.ac == 0,
        MachineState::fresh().registers.x == 0,
        MachineState::fresh().registers.y == 0,
        MachineState::fresh().registers.sr == 0,
        MachineState::fresh().registers.sp == 0,
        MachineState::fresh().cycles == 0,
        !MachineState::fresh().halted,
        MachineState::fresh().mode == Mode::Absolute,
{
}

/// Every slot of the stack lies in the stack page, and a push changes no
/// byte of memory but the one in the slot it writes.
pub proof fn lemma_stack_stays_in_its_page(s: MachineState, value: u8, addr: u16)
    requires
        s.wf(),
    ensures
        STACK_BASE <= stack_slot(s.registers.sp) <= STACK_TOP,
        addr != stack_slot(s.registers.sp) ==> s.pushed(value).byte_at(addr) == s.byte_at(addr),
        s.popped().memory == s.memory,
{
}

/// A push below saturation raises the stack pointer by one, and the pop
/// that follows lowers it again; what that pop returns is the byte in the
/// slot above the one just written, which the push did not touch.
pub proof fn lemma_push_then_pop(s: MachineState, value: u8)
    requires
        s.wf(),
        s.registers.sp < 0xFF,
    ensures
        s.pushed(value).byte_at(stack_slot(s.registers.sp)) == value,
        s.pushed(value).top() == s.byte_at(stack_slot((s.registers.sp + 1) as u8)),
        s.pushed(value).popped().registers.sp == s.registers.sp,
{
}

/// Where the slot above already holds `value`, a push of `value` followed
/// by a pop returns `value` and restores the stack pointer.
pub proof fn lemma_push_pop_round_trip(s: MachineState, value: u8)
    requires
        s.wf(),
        s.registers.sp < 0xFF,
        s.byte_at(stack_slot((s.registers.sp + 1) as u8)) == value,
    ensures
        s.pushed(value).top() == value,
        s.pushed(value).popped().registers.sp == s.registers.sp,
{
}

/// At saturation a push overwrites the last slot and the pop that follows
/// returns the byte pushed.
pub proof fn lemma_push_pop_saturated(s: MachineState, value: u8)
    requires
        s.wf(),
        s.registers.sp == 0xFF,
    ensures
        s.pushed(value).registers.sp == 0xFF,
        s.pushed(value).top() == value,
        s.pushed(value).popped().registers.sp == 0xFE,
{
}

/// The flags after an addition or subtraction: Carry, Overflow, Zero and
/// Negative are what was asked for, and no other flag changes.
pub proof fn lemma_arith_flags(sr: u8, result: u8, carry: bool, overflow: bool)
    ensures
        flag_of(arith_flags(sr, result, carry, overflow), Status::Carry) == carry,
        flag_of(arith_flags(sr, result, carry, overflow), Status::Overflow) == overflow,
        flag_of(arith_flags(sr, result, carry, overflow), Status::Zero) == (result == 0),
        flag_of(arith_flags(sr, result, carry, overflow), Status::Negative) == (result >= 0x80),
        flag_of(arith_flags(sr, result, carry, overflow), Status::Decimal) == flag_of(
            sr,
            Status::Decimal,
        ),
        flag_of(arith_flags(sr, result, carry, overflow), Status::Interrupt) == flag_of(
            sr,
            Status::Interrupt,
        ),
        flag_of(arith_flags(sr, result, carry, overflow), Status::Break) == flag_of(
            sr,
            Status::Break,
        ),
{
    let c = flag_assigned(sr, Status::Carry, carry);
    let v = flag_assigned(c, Status::Overflow, overflow);
    let z = flag_assigned(v, Status::Zero, result == 0);
    let n = flag_assigned(z, Status::Negative, result >= 0x80);
    assert(n == arith_flags(sr, result, carry, overflow));
    lemma_set_then_get(sr, Status::Carry, carry);
    lemma_set_then_get(c, Status::Overflow, overflow);
    lemma_set_then_get(v, Status::Zero, result == 0);
    lemma_set_then_get(z, Status::Negative, result >= 0x80);
    lemma_flags_independent(c, Status::Overflow, overflow, Status::Carry);
    lemma_flags_independent(v, Status::Zero, result == 0, Status::Carry);
    lemma_flags_independent(z, Status::Negative, result >= 0x80, Status::Carry);
    lemma_flags_independent(v, Status::Zero, result == 0, Status::Overflow);
    lemma_flags_independent(z, Status::Negative, result >= 0x80, Status::Overflow);
    lemma_flags_independent(z, Status::Negative, result >= 0x80, Status::Zero);
    lemma_flags_independent(sr, Status::Carry, carry, Status::Decimal);
    lemma_flags_independent(c, Status::Overflow, overflow, Status::Decimal);
    lemma_flags_independent(v, Status::Zero, result == 0, Status::Decimal);
    lemma_flags_independent(z, Status::Negative, result >= 0x80, Status::Decimal);
    lemma_flags_independent(sr, Status::Carry, carry, Status::Interrupt);
    lemma_flags_independent(c, Status::Overflow, overflow, Status::Interrupt);
    lemma_flags_independent(v, Status::Zero, result == 0, Status::Interrupt);
    lemma_flags_independent(z, Status::Negative, result >= 0x80, Status::Interrupt);
    lemma_flags_independent(sr, Status::Carry, carry, Status::Break);
    lemma_flags_independent(c, Status::Overflow, overflow, Status::Break);
    lemma_flags_independent(v, Status::Zero, result == 0, Status::Break);
    lemma_flags_independent(z, Status::Negative, result >= 0x80, Status::Break);
}

/// Zero and Negative after a load, transfer or logical operation describe
/// the value, and no other flag changes.
pub proof fn lemma_nz_flags(sr: u8, value: u8, other: Status)
    requires
        other != Status::Zero,
        other != Status::Negative,
    ensures
        flag_of(nz_assigned(sr, value), Status::Zero) == (value == 0),
        flag_of(nz_assigned(sr, value), Status::Negative) == (value >= 0x80),
        flag_of(nz_assigned(sr, value), other) == flag_of(sr, other),
{
    let z = flag_assigned(sr, Status::Zero, value == 0);
    lemma_set_then_get(sr, Status::Zero, value == 0);
    lemma_set_then_get(z, Status::Negative, value >= 0x80);
    lemma_flags_independent(z, Status::Negative, value >= 0x80, Status::Zero);
    lemma_flags_independent(sr, Status::Zero, value == 0, other);
    lemma_flags_independent(z, Status::Negative, value >= 0x80, other);
}

/// ADC leaves `(AC + operand + C) mod 256` in the accumulator; Carry is set
/// iff the sum is 256 or more, Zero iff the result is zero, Negative iff
/// bit 7 of the result is set, and Overflow iff the signed sum does not fit
/// a signed byte.
pub proof fn lemma_adc(s: MachineState)
    ensures
        ({
            let sum = s.registers.ac + s.operand_value() + carry_in(s.registers.sr);
            let signed_sum = signed(s.registers.ac) + signed(s.operand_value()) + carry_in(
                s.registers.sr,
            );
            let t = after_adc(s);
            &&& t.registers.ac == sum % 256
            &&& flag_of(t.registers.sr, Status::Carry) == (sum >= 256)
            &&& flag_of(t.registers.sr, Status::Zero) == (t.registers.ac == 0)
            &&& flag_of(t.registers.sr, Status::Negative) == (t.registers.ac >= 0x80)
            &&& flag_of(t.registers.sr, Status::Overflow) == (signed_sum < -128 || signed_sum
                > 127)
        }),
{
    let sum = s.registers.ac + s.operand_value() + carry_in(s.registers.sr);
    let signed_sum = signed(s.registers.ac) + signed(s.operand_value()) + carry_in(
        s.registers.sr,
    );
    lemma_arith_flags(
        s.registers.sr,
        (sum % 256) as u8,
        sum > 0xFF,
        signed_sum < -128 || signed_sum > 127,
    );
}

/// SBC leaves `(AC - operand - (1 - C)) mod 256` in the accumulator; Carry
/// is set iff nothing was borrowed, Zero iff the result is zero, Negative
/// iff bit 7 of the result is set, and Overflow iff the signed difference
/// does not fit a signed byte.
pub proof fn lemma_sbc(s: MachineState)
    ensures
        ({
            let difference = s.registers.ac - s.operand_value() - (1 - carry_in(s.registers.sr));
            let signed_difference = signed(s.registers.ac) - signed(s.operand_value()) - (1
                - carry_in(s.registers.sr));
            let t = after_sbc(s);
            &&& t.registers.ac == difference % 256
            &&& flag_of(t.registers.sr, Status::Carry) == (difference >= 0)
            &&& flag_of(t.registers.sr, Status::Zero) == (t.registers.ac == 0)
            &&& flag_of(t.registers.sr, Status::Negative) == (t.registers.ac >= 0x80)
            &&& flag_of(t.registers.sr, Status::Overflow) == (signed_difference < -128
                || signed_difference > 127)
        }),
{
    let difference = s.registers.ac - s.operand_value() - (1 - carry_in(s.registers.sr));
    let signed_difference = signed(s.registers.ac) - signed(s.operand_value()) - (1 - carry_in(
        s.registers.sr,
    ));
    lemma_arith_flags(
        s.registers.sr,
        (difference % 256) as u8,
        difference >= 0,
        signed_difference < -128 || signed_difference > 127,
    );
}

/// A program reads back from the heap exactly as it was inserted, unless
/// it is so long that a later byte went over an earlier, different one.
#[verifier::rlimit(40)]
pub proof fn lemma_program_reads_back(s: MachineState, offset: u16, bytes: Seq<u8>)
    requires
        s.wf(),
        lands_once(bytes),
    ensures
        s.loaded(offset, bytes).wf(),
        forall|i: int|
            0 <= i < bytes.len() ==> s.loaded(offset, bytes).heap_byte(wrap16(offset + i))
                == bytes[i],
{
    let size = MEMORY_SIZE as int;
    let start = heap_address(offset);
    lemma_written_window(s.memory, start, bytes);
    let after = s.loaded(offset, bytes);
    assert forall|i: int| 0 <= i < bytes.len() implies after.heap_byte(wrap16(offset + i))
        == bytes[i] by {
        let window = window_of(after.memory, start, bytes.len());
        assert(window[i] == bytes[i]);
        vstd::arithmetic::div_mod::lemma_add_mod_noop_right(HEAP_BASE as int, offset + i, size);
        vstd::arithmetic::div_mod::lemma_add_mod_noop_right(i, HEAP_BASE + offset, size);
        assert(heap_address(wrap16(offset + i)) == (HEAP_BASE + offset + i) % size);
        assert((start + i) % size == (HEAP_BASE + offset + i) % size);
    }
}

/// A program of at most 65,536 bytes reads back from the heap exactly as it
/// was inserted.
pub proof fn lemma_short_program_reads_back(s: MachineState, offset: u16, bytes: Seq<u8>)
    requires
        s.wf(),
        bytes.len() <= MEMORY_SIZE,
    ensures
        forall|i: int|
            0 <= i < bytes.len() ==> s.loaded(offset, bytes).heap_byte(wrap16(offset + i))
                == bytes[i],
{
    lemma_short_lands_once(bytes);
    lemma_program_reads_back(s, offset, bytes);
}

/// No operation lowers the cycle counter.
#[verifier::rlimit(40)]
pub proof fn lemma_operation_counts_up(s: MachineState, operation: Operation)
    ensures
        after_operation(s, operation).cycles >= s.cycles,
{
    reveal(after_operation);
}

/// A step counts cycles up, never down.
pub proof fn lemma_step_counts_up(s: MachineState)
    ensures
        spec_step(s).cycles >= s.cycles,
{
    reveal(spec_step);
    if !s.halted {
        let op = s.stream_byte(0);
        match spec_decode_mode(op) {
            Ok(mode) => {
                lemma_operation_counts_up(s.with_mode(mode).past_opcode(), spec_operation(op));
            },
            Err(_) => {},
        }
    }
}

/// No operation changes the size of memory.
#[verifier::rlimit(40)]
pub proof fn lemma_operation_keeps_memory_size(s: MachineState, operation: Operation)
    requires
        s.wf(),
    ensures
        after_operation(s, operation).wf(),
{
    reveal(after_operation);
}

/// A step never changes the size of memory.
pub proof fn lemma_step_keeps_memory_size(s: MachineState)
    requires
        s.wf(),
    ensures
        spec_step(s).wf(),
{
    reveal(spec_step);
    if !s.halted {
        let op = s.stream_byte(0);
        match spec_decode_mode(op) {
            Ok(mode) => {
                lemma_operation_keeps_memory_size(
                    s.with_mode(mode).past_opcode(),
                    spec_operation(op),
                );
            },
            Err(_) => {},
        }
    }
}

/// A halted machine does not move: a step leaves it as it is.
pub proof fn lemma_halted_blocks_step(s: MachineState)
    requires
        s.halted,
    ensures
        spec_step(s) == s,
        spec_step_outcome(s) == Ok::<u64, VmError>(s.cycles),
{
    reveal(spec_step);
}

/// A step fails exactly when it halts a running machine on an opcode
/// without a mode or on an operation that cannot run under the mode; the
/// machine then stands where it stood, with at most the mode changed.
pub proof fn lemma_fault_halts(s: MachineState)
    ensures
        spec_step_outcome(s) is Err ==> !s.halted && spec_step(s).halted && spec_step(
            s,
        ).registers == s.registers && spec_step(s).memory == s.memory && spec_step(s).cycles
            == s.cycles,
        spec_step_outcome(s) matches Err(error) ==> error == VmError::InvalidOpcodeMode(
            s.stream_byte(0),
        ) || error == VmError::InvalidStoreMode(spec_step(s).mode),
{
    reveal(spec_step);
}

/// What a step does on a machine that is running, in terms of the opcode
/// at the program counter.
pub proof fn lemma_step_unfolds(s: MachineState, mode: Mode, operation: Operation)
    requires
        !s.halted,
        spec_decode_mode(s.stream_byte(0)) == Ok::<Mode, VmError>(mode),
        spec_operation(s.stream_byte(0)) == operation,
        spec_mode_allowed(operation, mode),
    ensures
        spec_step(s) == ({
            let done = after_operation(s.with_mode(mode).past_opcode(), operation);
            done.with_cycles(charge(done.cycles, 1))
        }),
        spec_step_outcome(s) == Ok::<u64, VmError>(spec_step(s).cycles),
{
    reveal(spec_step);
}

/// A step on the opcode of PHA pushes the accumulator, moves past the
/// opcode and counts a cycle.
#[verifier::rlimit(40)]
pub proof fn lemma_step_pha(s: MachineState)
    requires
        !s.halted,
        s.stream_byte(0) == 0x48,
    ensures
        spec_step(s) == s.with_mode(Mode::Implied).with_pc(wrap16(s.registers.pc + 1)).pushed(
            s.registers.ac,
        ).with_cycles(charge(s.cycles, 1)),
{
    let at_pha = s.with_mode(Mode::Implied).past_opcode();
    assert(after_operation(at_pha, Operation::Pha) == after_pha(at_pha)) by {
        reveal(after_operation);
    }
    lemma_step_unfolds(s, Mode::Implied, Operation::Pha);
}

/// A step on the opcode of PLA pops a byte into the accumulator, sets Zero
/// and Negative from it, moves past the opcode and counts a cycle.
#[verifier::rlimit(40)]
pub proof fn lemma_step_pla(s: MachineState)
    requires
        !s.halted,
        s.stream_byte(0) == 0x68,
    ensures
        spec_step(s) == s.with_mode(Mode::Implied).with_pc(wrap16(s.registers.pc + 1)).popped().with_ac(
            s.top(),
        ).with_sr(nz_assigned(s.registers.sr, s.top())).with_cycles(charge(s.cycles, 1)),
{
    let at_pla = s.with_mode(Mode::Implied).past_opcode();
    assert(after_operation(at_pla, Operation::Pla) == after_pla(at_pla)) by {
        reveal(after_operation);
    }
    lemma_step_unfolds(s, Mode::Implied, Operation::Pla);
}

/// A step on the opcode of JSR pushes the address of the last byte of the
/// instruction, high byte first, jumps to the operand address and counts a
/// cycle.
#[verifier::rlimit(40)]
pub proof fn lemma_step_jsr(s: MachineState)
    requires
        !s.halted,
        s.stream_byte(0) == 0x20,
    ensures
        spec_step(s) == s.with_mode(Mode::Absolute).pushed(
            high_byte(wrap16(s.registers.pc + 2)),
        ).pushed(low_byte(wrap16(s.registers.pc + 2))).with_pc(
            word(s.stream_byte(1), s.stream_byte(2)),
        ).with_cycles(charge(s.cycles, 1)),
{
    let at_jsr = s.with_mode(Mode::Absolute).past_opcode();
    assert(after_operation(at_jsr, Operation::Jsr) == after_jsr(at_jsr)) by {
        reveal(after_operation);
    }
    lemma_step_unfolds(s, Mode::Absolute, Operation::Jsr);
    assert(at_jsr.stream_byte(0) == s.stream_byte(1));
    assert(at_jsr.stream_byte(1) == s.stream_byte(2));
    assert(wrap16(at_jsr.registers.pc + 1) == wrap16(s.registers.pc + 2));
}

/// A step on the opcode of RTS pops the low, then the high byte of an
/// address, continues one past it and counts a cycle.
#[verifier::rlimit(40)]
pub proof fn lemma_step_rts(s: MachineState)
    requires
        !s.halted,
        s.stream_byte(0) == 0x60,
    ensures
        spec_step(s) == s.with_mode(Mode::Implied).popped().popped().with_pc(
            wrap16(word(s.top(), s.popped().top()) + 1),
        ).with_cycles(charge(s.cycles, 1)),
{
    let at_rts = s.with_mode(Mode::Implied).past_opcode();
    assert(after_operation(at_rts, Operation::Rts) == after_rts(at_rts)) by {
        reveal(after_operation);
    }
    lemma_step_unfolds(s, Mode::Implied, Operation::Rts);
}

/// PHA followed by PLA, below stack saturation and with the slot above the
/// one written already holding the accumulator: accumulator and stack
/// pointer are as before, and Zero and Negative describe the accumulator.
#[verifier::rlimit(40)]
pub proof fn lemma_pha_pla(s: MachineState)
    requires
        s.wf(),
        !s.halted,
        s.stream_byte(0) == 0x48,
        spec_step(s).stream_byte(0) == 0x68,
        s.registers.sp < 0xFF,
        s.byte_at(stack_slot((s.registers.sp + 1) as u8)) == s.registers.ac,
    ensures
        spec_step(spec_step(s)).registers.ac == s.registers.ac,
        spec_step(spec_step(s)).registers.sp == s.registers.sp,
        spec_step(spec_step(s)).registers.pc == wrap16(s.registers.pc + 2),
        flag_of(spec_step(spec_step(s)).registers.sr, Status::Zero) == (s.registers.ac == 0),
        flag_of(spec_step(spec_step(s)).registers.sr, Status::Negative) == (s.registers.ac
            >= 0x80),
{
    lemma_step_pha(s);
    lemma_step_pla(spec_step(s));
    lemma_nz_flags(s.registers.sr, s.registers.ac, Status::Carry);
}

/// JSR followed, at its target, by RTS: where the two bytes that RTS pops
/// are the return address that JSR pushed, the program counter ends up
/// right after the operand of the JSR.
#[verifier::rlimit(40)]
pub proof fn lemma_jsr_rts(s: MachineState)
    requires
        s.wf(),
        !s.halted,
        s.stream_byte(0) == 0x20,
        spec_step(s).stream_byte(0) == 0x60,
        spec_step(s).top() == low_byte(wrap16(s.registers.pc + 2)),
        spec_step(s).popped().top() == high_byte(wrap16(s.registers.pc + 2)),
    ensures
        spec_step(spec_step(s)).registers.pc == wrap16(s.registers.pc + 3),
{
    lemma_step_jsr(s);
    lemma_step_rts(spec_step(s));
    let last = wrap16(s.registers.pc + 2);
    assert(word(low_byte(last), high_byte(last)) == last);
}

/// With room for exactly one more byte on the stack, JSR followed by RTS
/// returns right after the operand of the JSR whatever memory holds: the
/// second push saturates, and the two pops find both bytes.
#[verifier::rlimit(40)]
pub proof fn lemma_jsr_rts_near_saturation(s: MachineState)
    requires
        s.wf(),
        !s.halted,
        s.stream_byte(0) == 0x20,
        spec_step(s).stream_byte(0) == 0x60,
        s.registers.sp == 0xFE,
    ensures
        spec_step(spec_step(s)).registers.pc == wrap16(s.registers.pc + 3),
        spec_step(spec_step(s)).registers.sp == 0xFD,
{
    lemma_step_jsr(s);
    let called = spec_step(s);
    assert(called.registers.sp == 0xFF);
    assert(called.top() == low_byte(wrap16(s.registers.pc + 2)));
    assert(called.popped().top() == high_byte(wrap16(s.registers.pc + 2)));
    lemma_step_rts(called);
    lemma_jsr_rts(s);
}

/// Whether a status register is one that the processor itself can hold:
/// neither the Break bit nor the unused bit is set.
pub open spec fn live_status(sr: u8) -> bool {
    sr & 0x30 == 0
}

/// Assigning a flag other than Break keeps a live status register live, and
/// a byte pulled from the stack always becomes one.
pub proof fn lemma_live_status_kept()
    ensures
        forall|sr: u8, flag: Status, value: bool|
            live_status(sr) && flag != Status::Break ==> live_status(
                #[trigger] flag_assigned(sr, flag, value),
            ),
        forall|byte: u8| live_status(#[trigger] pulled_status(byte)),
        forall|sr: u8, value: u8| live_status(sr) ==> live_status(#[trigger] nz_assigned(sr, value)),
        forall|sr: u8, result: u8, carry: bool, overflow: bool|
            live_status(sr) ==> live_status(#[trigger] arith_flags(sr, result, carry, overflow)),
        forall|sr: u8, register: u8, value: u8|
            live_status(sr) ==> live_status(#[trigger] compare_flags(sr, register, value)),
{
    assert forall|sr: u8, flag: Status, value: bool|
        live_status(sr) && flag != Status::Break implies live_status(
        #[trigger] flag_assigned(sr, flag, value),
    ) by {
        let m = crate::vm::status::spec_status(flag);
        assert((sr | m) & 0x30 == 0 && (sr & !m) & 0x30 == 0) by (bit_vector)
            requires
                sr & 0x30 == 0,
                m == 0x80 || m == 0x40 || m == 0x08 || m == 0x04 || m == 0x02 || m == 0x01 || m
                    == 0,
        ;
    }
    assert forall|byte: u8| live_status(#[trigger] pulled_status(byte)) by {
        assert((byte & 0xCF) & 0x30 == 0) by (bit_vector);
    }
}

/// No operation sets the Break bit or the unused bit of the live status
/// register.
#[verifier::rlimit(40)]
pub proof fn lemma_operation_keeps_status_live(s: MachineState, operation: Operation)
    requires
        live_status(s.registers.sr),
    ensures
        live_status(after_operation(s, operation).registers.sr),
{
    lemma_live_status_kept();
    assert(live_status(after_operation(s, operation).registers.sr)) by {
        reveal(after_operation);
    }
}

/// A step never sets the Break bit or the unused bit of the status
/// register: they show only in the bytes that BRK and PHP push.
pub proof fn lemma_step_keeps_status_live(s: MachineState)
    requires
        live_status(s.registers.sr),
    ensures
        live_status(spec_step(s).registers.sr),
{
    reveal(spec_step);
    if !s.halted {
        let op = s.stream_byte(0);
        match spec_decode_mode(op) {
            Ok(mode) => {
                lemma_operation_keeps_status_live(
                    s.with_mode(mode).past_opcode(),
                    spec_operation(op),
                );
            },
            Err(_) => {},
        }
    }
}

} // verus!
