use vm6502::prelude::InstructionController;
use vm6502::prelude::ProgramController;
use vm6502::prelude::Status;
use vm6502::prelude::VirtualMachine;
use vm6502::prelude::status;

#[test]
fn adc_imd() {
    let mut vm = VirtualMachine::new();
    let offset = 0x0000;
    vm.insert_program(offset, "69F06901").unwrap();
    vm.registers.pc = offset as u16;
    vm.registers.ac = 0x0F;
    vm.step().unwrap();

    assert_eq!(vm.registers.ac, 0xFF);

    vm.step().unwrap();
    assert_eq!(vm.registers.sr & status(Status::Carry), 1);
    assert_eq!(vm.registers.ac, 0x00);
}

#[test]
fn and_imd() {
    let mut vm = VirtualMachine::new();
    let offset = 0x0000;
    vm.insert_program(offset, "29FF29002900").unwrap();
    vm.registers.pc = offset as u16;
    vm.registers.ac = 0xFF;

    vm.step().unwrap();
    assert_eq!(vm.registers.ac, 0xFF);

    vm.step().unwrap();
    assert_eq!(vm.registers.ac, 0x00);
}

#[test]
fn asl_cover() {
    let mut vm = VirtualMachine::new();
    let prog = "0A0A0A0A0A0A0A0A0A";
    vm.insert_program(vm.vheap_bounds().0 as u16, prog).unwrap();
    vm.registers.ac = 0x01;

    for i in 1..8 {
        vm.step().unwrap();
        println!("i: {}, ac: {}", 1 << i, vm.registers.ac);

        assert_eq!(vm.registers.ac, 1 << i);
    }
}
