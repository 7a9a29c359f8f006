//! A read-only picture of the machine for a frontend to show.

use crate::memory::window_of;
use crate::vm::heap::HeapInterface;
use crate::vm::high_byte;
use crate::vm::registers::Registers;
use crate::vm::upper;
use crate::vm::MachineState;
use crate::vm::Mode;
use crate::vm::VirtualMachine;
use crate::vm::HEAP_BASE;
use crate::vm::STACK_BASE;
use vstd::prelude::*;

verus! {

/// Bytes in a page.
pub const PAGE_SIZE: usize = 0x100;

/// The registers, the state flags and four windows of memory.
pub struct Snapshot {
    pub registers: Registers,
    pub mode: Mode,
    pub cycles: u64,
    pub halted: bool,
    /// The 256 bytes of the zero page.
    pub zero_page: Vec<u8>,
    /// The 256 bytes of the stack page.
    pub stack: Vec<u8>,
    /// The first 256 bytes of the heap.
    pub heap_head: Vec<u8>,
    /// The 256 bytes of the flat page whose number is the high byte of the
    /// program counter.
    pub page: Vec<u8>,
    /// The byte the program counter points at.
    pub byte_at_pc: u8,
}

impl MachineState {
    /// Whether `snapshot` pictures this machine.
    pub open spec fn pictured_by(self, snapshot: Snapshot) -> bool {
        &&& snapshot.registers == self.registers
        &&& snapshot.mode == self.mode
        &&& snapshot.cycles == self.cycles
        &&& snapshot.halted == self.halted
        &&& snapshot.zero_page@ == window_of(self.memory, 0, PAGE_SIZE as nat)
        &&& snapshot.stack@ == window_of(self.memory, STACK_BASE, PAGE_SIZE as nat)
        &&& snapshot.heap_head@ == window_of(self.memory, HEAP_BASE, PAGE_SIZE as nat)
        &&& snapshot.page@ == window_of(
            self.memory,
            (high_byte(self.registers.pc) * 256) as u16,
            PAGE_SIZE as nat,
        )
        &&& snapshot.byte_at_pc == self.heap_byte(self.registers.pc)
    }
}

impl VirtualMachine {
    /// Takes a picture of the machine.
    pub fn snapshot(&self) -> (snapshot: Snapshot)
        ensures
            self@.pictured_by(snapshot),
    {
        let page_start: u16 = upper(self.registers.pc) as u16 * 256;
        Snapshot {
            registers: self.registers,
            mode: self.addr_mode,
            cycles: self.cycles,
            halted: self.halted,
            zero_page: self.flatmap.window(0, PAGE_SIZE),
            stack: self.flatmap.window(STACK_BASE, PAGE_SIZE),
            heap_head: self.flatmap.window(HEAP_BASE, PAGE_SIZE),
            page: self.flatmap.window(page_start, PAGE_SIZE),
            byte_at_pc: self.get_heap(self.registers.pc),
        }
    }
}

} // verus!
