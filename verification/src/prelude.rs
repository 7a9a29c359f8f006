//! Everything a frontend needs, in one import.

pub use crate::error::VmError;
pub use crate::memory::Memory;
pub use crate::program::ProgramController;
pub use crate::utils::check_page_cross;
pub use crate::utils::valid_op;
pub use crate::utils::N_VALID_OPS;
pub use crate::utils::OP_MODES;
pub use crate::utils::VALID_OPCODES;
pub use crate::vm::control::InstructionController;
pub use crate::vm::decode::decode_mode;
pub use crate::vm::decode::decode_operation;
pub use crate::vm::decode::Operation;
pub use crate::vm::heap::HeapInterface;
pub use crate::vm::instructions::Instructions;
pub use crate::vm::registers::Registers;
pub use crate::vm::stack::StackInterface;
pub use crate::vm::status::make_status;
pub use crate::vm::status::status;
pub use crate::vm::status::Status;
pub use crate::vm::status::StatusInterface;
pub use crate::vm::Mode;
pub use crate::vm::VirtualMachine;
