use vm6502::prelude::InstructionController;
use vm6502::prelude::VirtualMachine;
use vm6502::prelude::OP_MODES;
use vm6502::prelude::VALID_OPCODES;

#[test]
fn test_mode() {
    let mut vm = VirtualMachine::new();

    for (i, op) in VALID_OPCODES.iter().enumerate() {
        let mode = vm.mode(*op);

        assert_eq!(mode, Ok(OP_MODES[i]));
    }
}
