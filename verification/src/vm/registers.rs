//! The register file.

use vstd::prelude::*;

verus! {

/// The six architectural registers.
#[derive(Clone, Copy, Debug, PartialEq, Eq, Structural)]
pub struct Registers {
    /// Program counter.
    pub pc: u16,
    /// Accumulator.
    pub ac: u8,
    /// X index register.
    pub x: u8,
    /// Y index register.
    pub y: u8,
    /// Status register, `NV-BDIZC` from bit 7 down to bit 0.
    pub sr: u8,
    /// Stack pointer, an index into the stack page.
    pub sp: u8,
}

impl Registers {
    /// The register file after power-up: every register zero.
    pub open spec fn zeroed() -> Registers {
        Registers { pc: 0, ac: 0, x: 0, y: 0, sr: 0, sp: 0 }
    }

    pub fn new() -> (registers: Registers)
        ensures
            registers == Registers::zeroed(),
    {
        Registers { pc: 0x0000, ac: 0x00, x: 0x00, y: 0x00, sr: 0x00, sp: 0x00 }
    }
}

} // verus!
