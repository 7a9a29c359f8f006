//! The stack page, indexed through the stack pointer.

use crate::vm::MachineState;
use crate::vm::VirtualMachine;
use crate::vm::STACK_TOP;
use vstd::prelude::*;

verus! {

/// The flat address that a stack pointer of `sp` designates: the stack
/// starts at `STACK_TOP` and grows down as the pointer goes up.
pub open spec fn stack_slot(sp: u8) -> u16 {
    (STACK_TOP - sp) as u16
}

impl MachineState {
    /// The byte in the slot the stack pointer designates.
    pub open spec fn top(self) -> u8 {
        self.byte_at(stack_slot(self.registers.sp))
    }

    /// This machine after a push of `value`: the byte goes to the slot the
    /// stack pointer designates, then the pointer goes up by one unless it
    /// is already `0xFF`.
    pub open spec fn pushed(self, value: u8) -> MachineState {
        let sp = self.registers.sp;
        self.store(stack_slot(sp), value).with_sp(
            if sp < 0xFF {
                (sp + 1) as u8
            } else {
                sp
            },
        )
    }

    /// This machine after a pop: the pointer goes down by one unless it is
    /// already zero. The byte popped is `self.top()`.
    pub open spec fn popped(self) -> MachineState {
        let sp = self.registers.sp;
        self.with_sp(
            if sp > 0 {
                (sp - 1) as u8
            } else {
                sp
            },
        )
    }
}

/// The stack of the processor. The pointer saturates at both ends instead of
/// wrapping.
pub trait StackInterface: View<V = MachineState> {
    /// Reads the designated slot, then lowers the pointer.
    fn pop(&mut self) -> (value: u8)
        ensures
            value == old(self)@.top(),
            final(self)@ == old(self)@.popped(),
    ;

    /// Reads the designated slot and changes nothing.
    fn peek(&mut self) -> (value: u8)
        ensures
            value == old(self)@.top(),
            final(self)@ == old(self)@,
    ;

    /// Writes `value` to the designated slot, then raises the pointer.
    fn push(&mut self, value: u8)
        ensures
            final(self)@ == old(self)@.pushed(value),
    ;
}

impl StackInterface for VirtualMachine {
    fn pop(&mut self) -> (value: u8) {
        let value = self.flatmap.read(STACK_TOP - self.registers.sp as u16);
        if self.registers.sp > u8::MIN {
            self.registers.sp -= 1;
        }
        value
    }

    fn peek(&mut self) -> (value: u8) {
        let value = self.flatmap.read(STACK_TOP - self.registers.sp as u16);
        value
    }

    fn push(&mut self, value: u8) {
        self.flatmap.write(STACK_TOP - self.registers.sp as u16, value);
        if self.registers.sp < u8::MAX {
            self.registers.sp += 1;
        }
    }
}

} // verus!
