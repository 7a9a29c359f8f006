use vm6502::prelude::check_page_cross;
use vm6502::prelude::InstructionController;
use vm6502::prelude::ProgramController;
use vm6502::prelude::VirtualMachine;
use vm6502::prelude::OP_MODES;
use vm6502::prelude::VALID_OPCODES;

#[test]
fn cmp_optable_nops_against_valid_ops() {
    for (i, op) in VALID_OPCODES.iter().enumerate() {
        let mut vm = VirtualMachine::new();
        vm.insert_bytes(0, &[*op]);
        vm.step().unwrap();

        assert_eq!(vm.addr_mode, OP_MODES[i]);
    }
}

#[test]
fn page_cross_compares_the_high_bytes() {
    assert!(!check_page_cross(0x1200, 0x12FF));
    assert!(check_page_cross(0x12FF, 0x1300));
    assert!(check_page_cross(0x0000, 0xFFFF));
    assert!(!check_page_cross(0xFFFF, 0xFF00));
}
