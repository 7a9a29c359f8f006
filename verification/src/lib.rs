//! An emulator core for the MOS 6502 microprocessor.
//!
//! The machine is a register file, 64 KiB of flat memory, the addressing
//! mode of the instruction in flight, a cycle counter and a halt flag.
//! Every operation on it carries a contract over [`vm::MachineState`], the
//! mathematical model of the machine, and is proved against it.
//!
//! # Address spaces
//!
//! Data addresses are flat: the zero page is `0x0000..0x0100`, the stack
//! page `0x0100..0x0200`, and the interrupt vectors sit at `0xFFFA..=0xFFFF`.
//! The instruction stream is addressed relative to the heap, which starts at
//! `0x0200`: the byte the program counter points at is the memory cell
//! `(0x0200 + PC) mod 0x10000`, and jump targets, return addresses and the
//! interrupt vectors hold program counter values of that kind.
//!
//! # Choices
//!
//! - The stack pointer designates the slot `0x01FF - SP`. A push writes
//!   there and then raises the pointer; a pop reads there and then lowers
//!   it. The pointer saturates at `0x00` and `0xFF`.
//! - An opcode whose bit fields name no addressing mode halts the machine
//!   with an error, and so does a store or an in-place operation under a
//!   mode that gives it nothing to write to.
//! - BRK halts the machine when the program counter, moved past the
//!   opcode, is `0xFFFE` or `0xFFFF`.
//! - An indirect JMP takes the high byte of its target from the address
//!   after the low byte, also across a page boundary.
//! - Indexing in the zero page wraps within the page, and so does the
//!   second byte of a pointer read from it.
//! - ADC and SBC are binary whatever the Decimal flag says.
//! - Each instruction counts one cycle; a branch taken counts one more, and
//!   one more again if it leaves the page. The counter stops at `u64::MAX`.

pub mod clock;
pub mod error;
pub mod hexcode;
pub mod memory;
pub mod prelude;
pub mod program;
pub mod stack;
pub mod utils;
pub mod vm;
