use vm6502::prelude::InstructionController;
use vm6502::prelude::ProgramController;
use vm6502::prelude::VirtualMachine;

#[test]
fn bcc_paging_cover_0xff() {
    let mut vm = VirtualMachine::new();
    let prog = "90FF";
    let mut slide = vm.vheap_bounds().0;

    println!(
        "Start slide:   0x{:04X}, pc: 0x{:04X}",
        slide, vm.registers.pc
    );
    assert_eq!(vm.registers.pc, slide as u16);

    for i in vm.heap_bounds().0..=0xFF {
        println!("|page 0x{:02X}", i);
        vm.insert_program(slide as u16, prog).unwrap();
        vm.step().unwrap();
        slide += 0xFF;
        println!("|\tslide: 0x{:04X}, pc: 0x{:04X}", slide, vm.registers.pc);
        assert_eq!(vm.registers.pc, slide as u16);
    }
}

#[test]
fn bcc_paging_cover0xfe() {
    let mut vm = VirtualMachine::new();
    let prog = "90FE";
    let mut slide = vm.vheap_bounds().0;

    println!(
        "Start slide:   0x{:04X}, pc: 0x{:04X}",
        slide, vm.registers.pc
    );
    assert_eq!(vm.registers.pc, slide as u16);

    // Can we run this inclusively?
    for i in vm.heap_bounds().0..0xFF {
        println!("|page 0x{:02X}", i);
        vm.insert_program(slide as u16, prog).unwrap();
        vm.step().unwrap();
        slide += 0xFE;
        println!("|\tslide: 0x{:04X}, pc: 0x{:04X}", slide, vm.registers.pc);
        assert_eq!(vm.registers.pc, slide as u16);
    }
}

#[test]
fn bcs_paging_cover0xfe() {}
