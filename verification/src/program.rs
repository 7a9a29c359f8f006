//! Loading programs and running them.

use crate::clock::clock_elapsed;
use crate::clock::clock_now;
use crate::clock::duration_nanos;
use crate::clock::nanos_of;
use crate::error::VmError;
use crate::hexcode::decode_program;
use crate::hexcode::hex_bytes;
use crate::hexcode::is_hex_text;
use crate::memory::written;
use crate::vm::control::spec_step;
use crate::vm::control::spec_step_outcome;
use crate::vm::control::InstructionController;
use crate::vm::heap::heap_address;
use crate::vm::laws::lemma_fault_halts;
use crate::vm::laws::lemma_halted_blocks_step;
use crate::vm::laws::lemma_step_counts_up;
use crate::vm::high_byte;
use crate::vm::low_byte;
use crate::vm::lower;
use crate::vm::offset16;
use crate::vm::registers::Registers;
use crate::vm::stack::StackInterface;
use crate::vm::upper;
use crate::vm::MachineState;
use crate::vm::VirtualMachine;
use crate::vm::HEAP_BASE;
use crate::vm::IRQ_VECTOR;
use crate::vm::NMI_VECTOR;
use crate::vm::RESET_VECTOR;
use std::time::Duration;
use vstd::prelude::*;

verus! {

/// Most bytes that `fill_stack` pushes.
pub const STACK_FILL_LIMIT: usize = 0x100;

impl MachineState {
    /// This machine with `bytes` written to the heap from the heap cell
    /// `offset` on.
    pub open spec fn loaded(self, offset: u16, bytes: Seq<u8>) -> MachineState {
        MachineState { memory: written(self.memory, heap_address(offset), bytes), ..self }
    }

    /// This machine with `value` stored low byte first at the flat address
    /// `addr` and the one after it.
    pub open spec fn with_vector(self, addr: u16, value: u16) -> MachineState {
        self.store(addr, low_byte(value)).store((addr + 1) as u16, high_byte(value))
    }

    /// This machine after the first `count` of `ops` went through the
    /// accumulator onto the stack.
    pub open spec fn stack_filled(self, ops: Seq<u8>, count: nat) -> MachineState
        decreases count,
    {
        if count == 0 {
            self
        } else {
            let byte = ops[count - 1];
            self.stack_filled(ops, (count - 1) as nat).with_ac(byte).pushed(byte)
        }
    }

    /// This machine after `steps` steps.
    pub open spec fn stepped(self, steps: nat) -> MachineState
        decreases steps,
    {
        if steps == 0 {
            self
        } else {
            spec_step(self.stepped((steps - 1) as nat))
        }
    }

    /// The error that halted this machine within `steps` steps, if one did.
    pub open spec fn fault_within(self, steps: nat) -> Option<VmError>
        decreases steps,
    {
        if steps == 0 {
            None
        } else {
            match self.fault_within((steps - 1) as nat) {
                Some(error) => Some(error),
                None => match spec_step_outcome(self.stepped((steps - 1) as nat)) {
                    Ok(_) => None,
                    Err(error) => Some(error),
                },
            }
        }
    }

    /// This machine after one round of a run: a step, after which a
    /// program counter at the IRQ vector halts the machine, as the program
    /// has run off its end.
    pub open spec fn ticked(self) -> MachineState {
        if self.halted {
            self
        } else {
            let next = spec_step(self);
            if next.registers.pc == IRQ_VECTOR {
                next.halt()
            } else {
                next
            }
        }
    }

    /// This machine after `rounds` rounds of a run.
    pub open spec fn run_for(self, rounds: nat) -> MachineState
        decreases rounds,
    {
        if rounds == 0 {
            self
        } else {
            self.run_for((rounds - 1) as nat).ticked()
        }
    }

    /// The error that halted this machine within `rounds` rounds of a run,
    /// if one did.
    pub open spec fn run_fault(self, rounds: nat) -> Option<VmError>
        decreases rounds,
    {
        if rounds == 0 {
            None
        } else {
            match self.run_fault((rounds - 1) as nat) {
                Some(error) => Some(error),
                None => match spec_step_outcome(self.run_for((rounds - 1) as nat)) {
                    Ok(_) => None,
                    Err(error) => Some(error),
                },
            }
        }
    }
}

/// What a run that took the machine from `before` to `after` returns: the
/// error that halted it, or the cycles it counted.
pub open spec fn run_outcome(before: MachineState, after: MachineState, fault: Option<VmError>) -> Result<
    u64,
    VmError,
> {
    match fault {
        Some(error) => Err(error),
        None => Ok((after.cycles - before.cycles) as u64),
    }
}

/// Loading programs, setting the machine up, and running it.
pub trait ProgramController: View<V = MachineState> {
    /// Writes `bytes` to the heap from the heap cell `offset` on, going
    /// round from the last memory address to the first.
    fn insert_bytes(&mut self, offset: u16, bytes: &[u8])
        ensures
            final(self)@ == old(self)@.loaded(offset, bytes@),
    ;

    /// Writes the bytes that the hexadecimal text `prog` spells to the heap
    /// from the heap cell `offset` on. A text that is not an even number of
    /// hexadecimal digits is refused, and nothing changes.
    fn insert_program(&mut self, offset: u16, prog: &str) -> (done: Result<(), VmError>)
        ensures
            is_hex_text(prog@) ==> done == Ok::<(), VmError>(()),
            is_hex_text(prog@) ==> final(self)@ == old(self)@.loaded(offset, hex_bytes(prog@)),
            !is_hex_text(prog@) ==> done == Err::<(), VmError>(VmError::BadHexProgram),
            !is_hex_text(prog@) ==> final(self)@ == old(self)@,
    ;

    /// As `insert_program`, and points the program counter at `offset`.
    fn set_program(&mut self, offset: u16, prog: &str) -> (done: Result<(), VmError>)
        ensures
            is_hex_text(prog@) ==> done == Ok::<(), VmError>(()),
            is_hex_text(prog@) ==> final(self)@ == old(self)@.loaded(
                offset,
                hex_bytes(prog@),
            ).with_pc(offset),
            !is_hex_text(prog@) ==> done == Err::<(), VmError>(VmError::BadHexProgram),
            !is_hex_text(prog@) ==> final(self)@ == old(self)@,
    ;

    /// Stores the three interrupt vectors, each low byte first: `nmi` at
    /// `0xFFFA`, `irq` at `0xFFFC` and `brk` at `0xFFFE`.
    fn set_interrupt_vectors(&mut self, nmi: u16, irq: u16, brk: u16)
        ensures
            final(self)@ == old(self)@.with_vector(NMI_VECTOR, nmi).with_vector(
                RESET_VECTOR,
                irq,
            ).with_vector(IRQ_VECTOR, brk),
    ;

    /// Makes every interrupt vector hold its own address.
    fn default_interrupt_vectors(&mut self)
        ensures
            final(self)@ == old(self)@.with_vector(NMI_VECTOR, NMI_VECTOR).with_vector(
                RESET_VECTOR,
                RESET_VECTOR,
            ).with_vector(IRQ_VECTOR, IRQ_VECTOR),
    ;

    /// Steps until the machine halts, for at most `u64::MAX` steps, and
    /// returns the cycles counted or the error that halted the machine.
    fn execute(&mut self) -> (cycles: Result<u64, VmError>)
        ensures
            final(self)@ == old(self)@.stepped(u64::MAX as nat),
            cycles == run_outcome(
                old(self)@,
                final(self)@,
                old(self)@.fault_within(u64::MAX as nat),
            ),
    ;

    /// One round of a run: a step, after which a program counter at the IRQ
    /// vector halts the machine.
    fn tick(&mut self) -> (cycles: Result<u64, VmError>)
        ensures
            final(self)@ == old(self)@.ticked(),
            cycles == spec_step_outcome(old(self)@),
    ;

    /// Runs `rounds` rounds and returns the cycles counted or the error
    /// that halted the machine.
    fn run_steps(&mut self, rounds: u64) -> (cycles: Result<u64, VmError>)
        ensures
            final(self)@ == old(self)@.run_for(rounds as nat),
            cycles == run_outcome(old(self)@, final(self)@, old(self)@.run_fault(rounds as nat)),
    ;

    /// Runs rounds while the machine is not halted and less than `duration`
    /// has gone by on the monotonic clock, for at most `u64::MAX` rounds.
    /// Returns the cycles counted, with the time the run took, or the error
    /// that halted the machine. How many rounds fit in the time is for the
    /// clock to say; with no time at all, or on a halted machine, none is
    /// run.
    fn run(&mut self, duration: Duration) -> (outcome: Result<(u64, Duration), VmError>)
        ensures
            exists|rounds: nat|
                final(self)@ == old(self)@.run_for(rounds) && match outcome {
                    Ok((cycles, _)) => Ok::<u64, VmError>(cycles),
                    Err(error) => Err::<u64, VmError>(error),
                } == run_outcome(old(self)@, final(self)@, old(self)@.run_fault(rounds)),
            duration_nanos(duration) == 0 || old(self)@.halted ==> final(self)@ == old(self)@,
            duration_nanos(duration) == 0 || old(self)@.halted ==> (outcome matches Ok(
                (cycles, _),
            ) && cycles == 0),
    ;

    /// Pushes the first 256 bytes of `ops`, each through the accumulator.
    fn fill_stack(&mut self, ops: Vec<u8>)
        ensures
            final(self)@ == old(self)@.stack_filled(
                ops@,
                if ops@.len() <= STACK_FILL_LIMIT {
                    ops@.len()
                } else {
                    STACK_FILL_LIMIT as nat
                },
            ),
    ;

    /// Zeroes memory, registers and the cycle counter, and clears the halt
    /// flag. The mode stays.
    fn reset(&mut self)
        ensures
            final(self)@ == MachineState::fresh().with_mode(old(self)@.mode),
    ;
}

/// A halted machine stays as it is, however many steps it is asked for.
pub proof fn lemma_halted_stays(s: MachineState, steps: nat)
    requires
        s.halted,
    ensures
        s.stepped(steps) == s,
        s.run_for(steps) == s,
    decreases steps,
{
    if steps > 0 {
        lemma_halted_stays(s, (steps - 1) as nat);
        lemma_halted_blocks_step(s);
    }
}

/// Cycles never go down over a run, round by round or step by step.
pub proof fn lemma_run_counts_up(s: MachineState, steps: nat)
    ensures
        s.stepped(steps).cycles >= s.cycles,
        s.run_for(steps).cycles >= s.cycles,
    decreases steps,
{
    if steps > 0 {
        lemma_run_counts_up(s, (steps - 1) as nat);
        lemma_step_counts_up(s.stepped((steps - 1) as nat));
        lemma_step_counts_up(s.run_for((steps - 1) as nat));
    }
}

/// Once a machine has halted after `steps` steps, more steps change
/// nothing and bring no further error.
pub proof fn lemma_halt_is_final(s: MachineState, steps: nat, more: nat)
    requires
        s.stepped(steps).halted,
        steps <= more,
    ensures
        s.stepped(more) == s.stepped(steps),
        s.fault_within(more) == s.fault_within(steps),
    decreases more,
{
    if steps < more {
        lemma_halt_is_final(s, steps, (more - 1) as nat);
        lemma_halted_blocks_step(s.stepped(steps));
    }
}

/// The same for the rounds of a run.
pub proof fn lemma_run_halt_is_final(s: MachineState, rounds: nat, more: nat)
    requires
        s.run_for(rounds).halted,
        rounds <= more,
    ensures
        s.run_for(more) == s.run_for(rounds),
        s.run_fault(more) == s.run_fault(rounds),
    decreases more,
{
    if rounds < more {
        lemma_run_halt_is_final(s, rounds, (more - 1) as nat);
        lemma_halted_blocks_step(s.run_for(rounds));
    }
}

impl ProgramController for VirtualMachine {
    fn insert_bytes(&mut self, offset: u16, bytes: &[u8]) {
        let start = offset16(HEAP_BASE, offset);
        self.flatmap.write_bytes(start, bytes);
    }

    fn insert_program(&mut self, offset: u16, prog: &str) -> (done: Result<(), VmError>) {
        match decode_program(prog) {
            Ok(decoded) => {
                self.insert_bytes(offset, decoded.as_slice());
                Ok(())
            },
            Err(error) => Err(error),
        }
    }

    fn set_program(&mut self, offset: u16, prog: &str) -> (done: Result<(), VmError>) {
        match self.insert_program(offset, prog) {
            Ok(()) => {
                self.registers.pc = offset;
                Ok(())
            },
            Err(error) => Err(error),
        }
    }

    fn set_interrupt_vectors(&mut self, nmi: u16, irq: u16, brk: u16) {
        self.flatmap.write(NMI_VECTOR, lower(nmi));
        self.flatmap.write(NMI_VECTOR + 1, upper(nmi));
        self.flatmap.write(RESET_VECTOR, lower(irq));
        self.flatmap.write(RESET_VECTOR + 1, upper(irq));
        self.flatmap.write(IRQ_VECTOR, lower(brk));
        self.flatmap.write(IRQ_VECTOR + 1, upper(brk));
    }

    fn default_interrupt_vectors(&mut self) {
        self.set_interrupt_vectors(0xFFFA, 0xFFFC, 0xFFFE);
    }

    fn execute(&mut self) -> (cycles: Result<u64, VmError>) {
        let old_cycles = self.cycles;
        let mut fault: Option<VmError> = None;
        let mut steps: u64 = 0;
        while !self.halted && steps < u64::MAX
            invariant
                self@ == old(self)@.stepped(steps as nat),
                fault == old(self)@.fault_within(steps as nat),
                fault is Some ==> self.halted,
                old_cycles == old(self)@.cycles,
            decreases u64::MAX - steps,
        {
            proof {
                lemma_fault_halts(self@);
            }
            match self.step() {
                Ok(_) => {},
                Err(error) => {
                    fault = Some(error);
                },
            }
            steps = steps + 1;
        }
        proof {
            if steps < u64::MAX {
                lemma_halt_is_final(old(self)@, steps as nat, u64::MAX as nat);
            }
            lemma_run_counts_up(old(self)@, u64::MAX as nat);
        }
        match fault {
            Some(error) => Err(error),
            None => Ok(self.cycles - old_cycles),
        }
    }

    fn tick(&mut self) -> (cycles: Result<u64, VmError>) {
        if self.halted {
            return Ok(self.cycles);
        }
        let cycles = self.step();
        if self.registers.pc == IRQ_VECTOR {
            self.halted = true;
        }
        cycles
    }

    fn run_steps(&mut self, rounds: u64) -> (cycles: Result<u64, VmError>) {
        let old_cycles = self.cycles;
        let mut fault: Option<VmError> = None;
        let mut done: u64 = 0;
        while done < rounds
            invariant
                done <= rounds,
                self@ == old(self)@.run_for(done as nat),
                fault == old(self)@.run_fault(done as nat),
                fault is Some ==> self.halted,
            decreases rounds - done,
        {
            proof {
                lemma_fault_halts(self@);
                if self.halted {
                    lemma_halted_blocks_step(self@);
                }
            }
            match self.tick() {
                Ok(_) => {},
                Err(error) => {
                    fault = Some(error);
                },
            }
            done = done + 1;
        }
        proof {
            lemma_run_counts_up(old(self)@, rounds as nat);
        }
        match fault {
            Some(error) => Err(error),
            None => Ok(self.cycles - old_cycles),
        }
    }

    fn run(&mut self, duration: Duration) -> (outcome: Result<(u64, Duration), VmError>) {
        let old_cycles = self.cycles;
        let budget = nanos_of(&duration);
        let start = clock_now();
        let mut fault: Option<VmError> = None;
        let mut rounds: u64 = 0;
        while rounds < u64::MAX
            invariant
                self@ == old(self)@.run_for(rounds as nat),
                fault == old(self)@.run_fault(rounds as nat),
                fault is Some ==> self.halted,
                budget == duration_nanos(duration),
                budget == 0 || old(self)@.halted ==> rounds == 0,
            decreases u64::MAX - rounds,
        {
            let elapsed = nanos_of(&clock_elapsed(&start));
            if elapsed >= budget || self.halted {
                break ;
            }
            proof {
                lemma_fault_halts(self@);
            }
            match self.tick() {
                Ok(_) => {},
                Err(error) => {
                    fault = Some(error);
                },
            }
            rounds = rounds + 1;
        }
        proof {
            lemma_run_counts_up(old(self)@, rounds as nat);
        }
        match fault {
            Some(error) => Err(error),
            None => Ok((self.cycles - old_cycles, clock_elapsed(&start))),
        }
    }

    fn fill_stack(&mut self, ops: Vec<u8>) {
        let mut i: usize = 0;
        while i < ops.len() && i < STACK_FILL_LIMIT
            invariant
                i <= ops@.len(),
                i <= STACK_FILL_LIMIT,
                self@ == old(self)@.stack_filled(ops@, i as nat),
            decreases ops@.len() - i,
        {
            self.registers.ac = ops[i];
            self.push(self.registers.ac);
            i = i + 1;
        }
    }

    fn reset(&mut self) {
        self.flatmap.clear();
        self.registers = Registers::new();
        self.cycles = 0;
        self.halted = false;
    }
}

} // verus!
