//! The virtual machine and its mathematical model.

use crate::memory::Memory;
use crate::memory::MEMORY_SIZE;
use vstd::prelude::*;

pub mod control;
pub mod decode;
pub mod heap;
pub mod inspect;
pub mod instructions;
pub mod laws;
pub mod registers;
pub mod stack;
pub mod status;

use registers::Registers;

verus! {

/// First address of the heap, where programs live.
pub const HEAP_BASE: u16 = 0x0200;

/// Last address of the heap.
pub const HEAP_END: u16 = 0xFFFF;

/// First address of the stack page.
pub const STACK_BASE: u16 = 0x0100;

/// Last address of the stack page; the stack grows down from here.
pub const STACK_TOP: u16 = 0x01FF;

/// Address of the low byte of the NMI vector.
pub const NMI_VECTOR: u16 = 0xFFFA;

/// Address of the low byte of the RESET vector.
pub const RESET_VECTOR: u16 = 0xFFFC;

/// Address of the low byte of the IRQ/BRK vector.
pub const IRQ_VECTOR: u16 = 0xFFFE;

/// The thirteen addressing modes.
#[derive(Clone, Copy, Debug, PartialEq, Eq, Structural)]
pub enum Mode {
    Accumulator,
    Implied,
    Immediate,
    ZeroPage,
    ZeroPageX,
    ZeroPageY,
    Relative,
    Absolute,
    AbsoluteX,
    AbsoluteY,
    Indirect,
    IndirectX,
    IndirectY,
}

/// `n` reduced to sixteen bits.
pub open spec fn wrap16(n: int) -> u16 {
    (n % 0x10000) as u16
}

/// `n` reduced to eight bits.
pub open spec fn wrap8(n: int) -> u8 {
    (n % 0x100) as u8
}

/// The sixteen-bit value with low byte `lo` and high byte `hi`.
pub open spec fn word(lo: u8, hi: u8) -> u16 {
    (lo + 256 * hi) as u16
}

/// Bits 0 to 7 of `w`.
pub open spec fn low_byte(w: u16) -> u8 {
    (w % 256) as u8
}

/// Bits 8 to 15 of `w`.
pub open spec fn high_byte(w: u16) -> u8 {
    (w / 256) as u8
}

/// `b` read as a two's complement number.
pub open spec fn signed(b: u8) -> int {
    if b < 128 {
        b as int
    } else {
        b - 256
    }
}

/// `cycles + n`, held at the largest counter value.
pub open spec fn charge(cycles: u64, n: int) -> u64 {
    if cycles + n > u64::MAX {
        u64::MAX
    } else {
        (cycles + n) as u64
    }
}

pub fn join(lo: u8, hi: u8) -> (w: u16)
    ensures
        w == word(lo, hi),
{
    lo as u16 + 256 * (hi as u16)
}

pub fn lower(w: u16) -> (b: u8)
    ensures
        b == low_byte(w),
{
    (w % 256) as u8
}

pub fn upper(w: u16) -> (b: u8)
    ensures
        b == high_byte(w),
{
    (w / 256) as u8
}

/// `base + delta` modulo `0x10000`.
pub fn offset16(base: u16, delta: u16) -> (sum: u16)
    ensures
        sum == wrap16(base + delta),
{
    ((base as u32 + delta as u32) % 0x10000) as u16
}

/// `base + delta` modulo `0x100`.
pub fn offset8(base: u8, delta: u8) -> (sum: u8)
    ensures
        sum == wrap8(base + delta),
{
    ((base as u16 + delta as u16) % 0x100) as u8
}

/// The machine as a mathematical value.
pub struct MachineState {
    pub registers: Registers,
    pub memory: Seq<u8>,
    pub mode: Mode,
    pub cycles: u64,
    pub halted: bool,
}

impl MachineState {
    /// Memory spans the whole sixteen-bit address space.
    pub open spec fn wf(self) -> bool {
        self.memory.len() == MEMORY_SIZE
    }

    /// The machine as constructed: zeroed registers and memory, no cycles
    /// counted, running, with `Absolute` as the placeholder mode.
    pub open spec fn fresh() -> MachineState {
        MachineState {
            registers: Registers::zeroed(),
            memory: Seq::new(MEMORY_SIZE as nat, |i: int| 0u8),
            mode: Mode::Absolute,
            cycles: 0,
            halted: false,
        }
    }

    /// The byte at the flat address `addr`.
    pub open spec fn byte_at(self, addr: u16) -> u8 {
        self.memory[addr as int]
    }

    /// The sixteen-bit value stored low byte first at `addr` and the
    /// address after it.
    pub open spec fn word_at(self, addr: u16) -> u16 {
        word(self.byte_at(addr), self.byte_at(wrap16(addr + 1)))
    }

    /// This machine with `byte` stored at the flat address `addr`.
    pub open spec fn store(self, addr: u16, byte: u8) -> MachineState {
        MachineState { memory: self.memory.update(addr as int, byte), ..self }
    }

    pub open spec fn with_registers(self, registers: Registers) -> MachineState {
        MachineState { registers, ..self }
    }

    pub open spec fn with_pc(self, pc: u16) -> MachineState {
        self.with_registers(Registers { pc, ..self.registers })
    }

    pub open spec fn with_ac(self, ac: u8) -> MachineState {
        self.with_registers(Registers { ac, ..self.registers })
    }

    pub open spec fn with_x(self, x: u8) -> MachineState {
        self.with_registers(Registers { x, ..self.registers })
    }

    pub open spec fn with_y(self, y: u8) -> MachineState {
        self.with_registers(Registers { y, ..self.registers })
    }

    pub open spec fn with_sr(self, sr: u8) -> MachineState {
        self.with_registers(Registers { sr, ..self.registers })
    }

    pub open spec fn with_sp(self, sp: u8) -> MachineState {
        self.with_registers(Registers { sp, ..self.registers })
    }

    pub open spec fn with_mode(self, mode: Mode) -> MachineState {
        MachineState { mode, ..self }
    }

    pub open spec fn with_cycles(self, cycles: u64) -> MachineState {
        MachineState { cycles, ..self }
    }

    /// This machine, stopped.
    pub open spec fn halt(self) -> MachineState {
        MachineState { halted: true, ..self }
    }
}

/// A 6502 processor with its memory.
pub struct VirtualMachine {
    /// The register file.
    pub registers: Registers,
    /// Memory, in one linear layout.
    pub flatmap: Memory,
    /// Addressing mode of the instruction in flight; `step` sets it.
    pub addr_mode: Mode,
    /// Cycles counted since construction or the last reset.
    pub cycles: u64,
    /// Once set, `step` does nothing until `reset`.
    pub halted: bool,
}

impl View for VirtualMachine {
    type V = MachineState;

    open spec fn view(&self) -> MachineState {
        MachineState {
            registers: self.registers,
            memory: self.flatmap@,
            mode: self.addr_mode,
            cycles: self.cycles,
            halted: self.halted,
        }
    }
}

impl VirtualMachine {
    pub fn new() -> (vm: VirtualMachine)
        ensures
            vm@ == MachineState::fresh(),
    {
        VirtualMachine {
            registers: Registers::new(),
            flatmap: Memory::new(),
            addr_mode: Mode::Absolute,
            cycles: 0,
            halted: false,
        }
    }

    /// Bounds of the zero page, the end exclusive.
    pub fn zero_bounds(&self) -> (bounds: (usize, usize))
        ensures
            bounds == (0x0000usize, 0x0100usize),
    {
        (0x0000, 0x0100)
    }

    /// First and last address of the stack page.
    pub fn stack_bounds(&self) -> (bounds: (usize, usize))
        ensures
            bounds == (0x0100usize, 0x01FFusize),
    {
        (0x0100, 0x01FF)
    }

    /// First and last address of the heap.
    pub fn heap_bounds(&self) -> (bounds: (usize, usize))
        ensures
            bounds == (0x0200usize, 0xFFFFusize),
    {
        (0x0200, 0xFFFF)
    }

    /// First and last program counter value.
    pub fn vheap_bounds(&self) -> (bounds: (usize, usize))
        ensures
            bounds == (0x0000usize, 0xFFFFusize),
    {
        (0x0000, 0xFFFF)
    }

    /// Addresses of the two bytes of the NMI vector.
    pub fn interrupt_bounds(&self) -> (bounds: (usize, usize))
        ensures
            bounds == (0xFFFAusize, 0xFFFBusize),
    {
        (0xFFFA, 0xFFFB)
    }

    /// Addresses of the two bytes of the RESET vector.
    pub fn reset_bounds(&self) -> (bounds: (usize, usize))
        ensures
            bounds == (0xFFFCusize, 0xFFFDusize),
    {
        (0xFFFC, 0xFFFD)
    }

    /// Addresses of the two bytes of the IRQ/BRK vector.
    pub fn irq_bounds(&self) -> (bounds: (usize, usize))
        ensures
            bounds == (0xFFFEusize, 0xFFFFusize),
    {
        (0xFFFE, 0xFFFF)
    }
}

impl Default for VirtualMachine {
    fn default() -> (vm: VirtualMachine)
        ensures
            vm@ == MachineState::fresh(),
    {
        VirtualMachine::new()
    }
}

} // verus!
