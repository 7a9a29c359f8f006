//! The heap: memory as the program counter sees it.

use crate::vm::high_byte;
use crate::vm::join;
use crate::vm::low_byte;
use crate::vm::lower;
use crate::vm::offset16;
use crate::vm::upper;
use crate::vm::word;
use crate::vm::wrap16;
use crate::vm::MachineState;
use crate::vm::VirtualMachine;
use crate::vm::HEAP_BASE;
use crate::vm::HEAP_END;
use vstd::prelude::*;

verus! {

/// The flat address of the heap cell `virt_addr`.
pub open spec fn heap_address(virt_addr: u16) -> u16 {
    wrap16(HEAP_BASE + virt_addr)
}

impl MachineState {
    /// The byte of the heap cell `virt_addr`.
    pub open spec fn heap_byte(self, virt_addr: u16) -> u8 {
        self.byte_at(heap_address(virt_addr))
    }
}

/// Low-level access to the heap, which is addressed from `HEAP_BASE` and
/// wraps round the end of memory.
pub trait HeapInterface: View<V = MachineState> {
    /// The byte of the heap cell `virt_addr`.
    fn get_heap(&self, virt_addr: u16) -> (byte: u8)
        ensures
            byte == self@.heap_byte(virt_addr),
    ;

    /// Stores `byte` in the heap cell `virt_addr`.
    fn set_heap(&mut self, virt_addr: u16, byte: u8)
        ensures
            final(self)@ == old(self)@.store(heap_address(virt_addr), byte),
    ;

    /// The page the program counter is in: its high byte.
    fn get_page_offset(&self) -> (page: u8)
        ensures
            page == high_byte(self@.registers.pc),
    ;

    /// Moves the program counter to page `virt_addr`, keeping its low byte.
    fn set_page_offset(&mut self, virt_addr: u8)
        ensures
            final(self)@ == old(self)@.with_pc(word(low_byte(old(self)@.registers.pc), virt_addr)),
    ;

    /// Whether the flat address `virt_addr` lies in the heap.
    fn bounds_check(&self, virt_addr: usize) -> (inside: bool)
        ensures
            inside == (HEAP_BASE <= virt_addr <= HEAP_END),
    ;
}

impl HeapInterface for VirtualMachine {
    fn get_heap(&self, virt_addr: u16) -> (byte: u8) {
        let addr = offset16(HEAP_BASE, virt_addr);
        self.flatmap.read(addr)
    }

    fn set_heap(&mut self, virt_addr: u16, byte: u8) {
        let addr = offset16(HEAP_BASE, virt_addr);
        self.flatmap.write(addr, byte);
    }

    fn get_page_offset(&self) -> (page: u8) {
        upper(self.registers.pc)
    }

    fn set_page_offset(&mut self, virt_addr: u8) {
        let new_pc = join(lower(self.registers.pc), virt_addr);
        self.registers.pc = new_pc;
    }

    fn bounds_check(&self, virt_addr: usize) -> (inside: bool) {
        if virt_addr < HEAP_BASE as usize {
            false
        } else if virt_addr > HEAP_END as usize {
            false
        } else {
            true
        }
    }
}

} // verus!
