use std::time::Duration;

use vm6502::prelude::HeapInterface;
use vm6502::prelude::InstructionController;
use vm6502::prelude::Mode;
use vm6502::prelude::ProgramController;
use vm6502::prelude::StackInterface;
use vm6502::prelude::Status;
use vm6502::prelude::StatusInterface;
use vm6502::prelude::VirtualMachine;
use vm6502::prelude::VmError;

fn machine_with(program: &str) -> VirtualMachine {
    let mut vm = VirtualMachine::new();
    vm.set_program(0x0000, program).unwrap();
    vm
}

#[test]
fn adc_without_carry_out_sets_negative() {
    let mut vm = machine_with("69F0");
    vm.registers.ac = 0x0F;
    vm.set_status(Status::Carry, false);

    assert_eq!(vm.step(), Ok(1));

    assert_eq!(vm.registers.ac, 0xFF);
    assert!(!vm.get_status(Status::Carry));
    assert!(!vm.get_status(Status::Zero));
    assert!(vm.get_status(Status::Negative));
    assert_eq!(vm.registers.pc, 2);
    assert_eq!(vm.addr_mode, Mode::Immediate);
}

#[test]
fn adc_twice_wraps_to_zero_with_carry() {
    let mut vm = machine_with("690169FF");
    vm.registers.ac = 0x00;

    vm.step().unwrap();
    assert_eq!(vm.registers.ac, 0x01);
    vm.step().unwrap();

    assert_eq!(vm.registers.ac, 0x00);
    assert!(vm.get_status(Status::Carry));
    assert!(vm.get_status(Status::Zero));
    assert_eq!(vm.cycles, 2);
}

#[test]
fn lda_then_sta_zero_page() {
    let mut vm = machine_with("A9428510");

    vm.step().unwrap();
    vm.step().unwrap();

    assert_eq!(vm.registers.ac, 0x42);
    assert_eq!(vm.flatmap.read(0x0010), 0x42);
    assert_eq!(vm.registers.pc, 4);
}

#[test]
fn countdown_loop_runs_its_body_three_times() {
    let mut vm = machine_with("A203CAD0FD00");
    vm.set_interrupt_vectors(0xFFFA, 0xFFFC, 0x0000);

    let mut bodies = 0;
    for _ in 0..7 {
        if vm.flatmap.read(0x0200 + vm.registers.pc) == 0xCA {
            bodies += 1;
        }
        vm.step().unwrap();
    }

    assert_eq!(bodies, 3);
    assert_eq!(vm.registers.x, 0x00);
    assert!(vm.get_status(Status::Zero));
    assert_eq!(vm.registers.pc, 5);
    assert_eq!(vm.cycles, 9);

    // The trailing BRK goes through the IRQ vector, back to the start.
    vm.step().unwrap();
    assert_eq!(vm.registers.pc, 0x0000);
    assert!(vm.get_status(Status::Interrupt));
    assert!(!vm.halted);
}

#[test]
fn countdown_loop_halts_through_the_default_vector() {
    let mut vm = machine_with("A203CAD0FD00");
    vm.default_interrupt_vectors();

    let cycles = vm.run_steps(1000).unwrap();

    assert!(vm.halted);
    assert_eq!(vm.registers.pc, 0xFFFE);
    assert_eq!(vm.registers.x, 0x00);
    assert!(vm.get_status(Status::Zero));
    assert_eq!(cycles, 10);
}

#[test]
fn jsr_inx_rts_with_the_stack_one_short_of_full() {
    let mut vm = machine_with("200600000000E860");
    vm.registers.sp = 0xFE;

    vm.step().unwrap();
    assert_eq!(vm.registers.pc, 0x0006);
    assert_eq!(vm.flatmap.read(0x0101), 0x00);
    assert_eq!(vm.flatmap.read(0x0100), 0x02);
    vm.step().unwrap();
    vm.step().unwrap();

    assert_eq!(vm.registers.x, 0x01);
    assert_eq!(vm.registers.pc, 0x0003);
}

#[test]
fn jsr_inx_rts_on_an_empty_stack_reads_below_the_return_address() {
    let mut vm = machine_with("200600000000E860");

    vm.step().unwrap();
    assert_eq!(vm.registers.sp, 2);
    assert_eq!(vm.flatmap.read(0x01FF), 0x00);
    assert_eq!(vm.flatmap.read(0x01FE), 0x02);
    vm.step().unwrap();
    vm.step().unwrap();

    assert_eq!(vm.registers.x, 0x01);
    // RTS pops the untouched slot 0x01FD as low byte and the pushed low
    // byte as high byte.
    assert_eq!(vm.registers.pc, 0x0201);
    assert_eq!(vm.registers.sp, 0);
}

#[test]
fn four_pushes_into_the_last_slots_pop_in_reverse() {
    let mut vm = VirtualMachine::new();
    vm.registers.sp = 0xFC;

    for byte in [0xDE, 0xAD, 0xBE, 0xEF] {
        vm.push(byte);
    }
    assert_eq!(vm.registers.sp, 0xFF);

    let popped = [vm.pop(), vm.pop(), vm.pop(), vm.pop()];
    assert_eq!(popped, [0xEF, 0xBE, 0xAD, 0xDE]);
    assert_eq!(vm.registers.sp, 0xFB);
}

#[test]
fn four_pushes_on_an_empty_stack_pop_from_the_free_slot_first() {
    let mut vm = VirtualMachine::new();

    for byte in [0xDE, 0xAD, 0xBE, 0xEF] {
        vm.push(byte);
    }
    assert_eq!(vm.registers.sp, 4);
    assert_eq!(vm.flatmap.window(0x01FC, 4), vec![0xEF, 0xBE, 0xAD, 0xDE]);

    let popped = [vm.pop(), vm.pop(), vm.pop(), vm.pop()];
    assert_eq!(popped, [0x00, 0xEF, 0xBE, 0xAD]);
    assert_eq!(vm.registers.sp, 0);
}

#[test]
fn branch_back_by_one_across_a_page() {
    let mut vm = VirtualMachine::new();
    vm.insert_program(0x00FE, "90FF").unwrap();
    vm.registers.pc = 0x00FE;
    vm.set_status(Status::Carry, false);

    vm.step().unwrap();

    // One below the address after the branch, which is in the next page.
    assert_eq!(vm.registers.pc, 0x00FF);
    assert_eq!(vm.cycles, 3);
}

#[test]
fn branch_back_by_one_within_a_page() {
    let mut vm = VirtualMachine::new();
    vm.insert_program(0x0010, "90FF").unwrap();
    vm.registers.pc = 0x0010;

    vm.step().unwrap();

    assert_eq!(vm.registers.pc, 0x0011);
    assert_eq!(vm.cycles, 2);
}

#[test]
fn branch_not_taken_moves_past_the_instruction() {
    let mut vm = VirtualMachine::new();
    vm.insert_program(0x0010, "90FF").unwrap();
    vm.registers.pc = 0x0010;
    vm.set_status(Status::Carry, true);

    vm.step().unwrap();

    assert_eq!(vm.registers.pc, 0x0012);
    assert_eq!(vm.cycles, 1);
}

#[test]
fn zero_page_x_wraps_within_the_zero_page() {
    let mut vm = machine_with("B5FF");
    vm.registers.x = 0x02;
    vm.flatmap.write(0x0001, 0x77);
    vm.flatmap.write(0x0101, 0x55);

    vm.step().unwrap();

    assert_eq!(vm.registers.ac, 0x77);
}

#[test]
fn thirty_additions_then_brk() {
    let program = format!("{}00", "6901".repeat(30));
    let mut vm = machine_with(&program);
    vm.default_interrupt_vectors();

    let (cycles, _elapsed) = vm.run(Duration::from_millis(1000)).unwrap();

    assert!(vm.halted);
    assert_eq!(vm.registers.ac, 30);
    assert!(!vm.get_status(Status::Carry));
    assert!(!vm.get_status(Status::Zero));
    assert_eq!(cycles, 31);
}

#[test]
fn three_hundred_additions_wrap_and_carry_feeds_back() {
    let program = format!("{}00", "6901".repeat(300));
    let mut vm = machine_with(&program);
    vm.default_interrupt_vectors();

    vm.run_steps(1000).unwrap();

    // The 256th addition wraps to zero with carry, which the 257th adds.
    assert!(vm.halted);
    assert_eq!(vm.registers.ac, 45);
    assert!(!vm.get_status(Status::Carry));
}

#[test]
fn run_with_no_time_runs_nothing() {
    let mut vm = machine_with("6901690100");
    vm.default_interrupt_vectors();

    let (cycles, _elapsed) = vm.run(Duration::from_nanos(0)).unwrap();

    assert_eq!(cycles, 0);
    assert_eq!(vm.registers.pc, 0);
    assert_eq!(vm.registers.ac, 0);
    assert!(!vm.halted);
}

#[test]
fn run_reports_the_error_that_halted_it() {
    let mut vm = machine_with("A905FF");

    let outcome = vm.run(Duration::from_millis(1000));

    assert_eq!(outcome, Err(VmError::InvalidOpcodeMode(0xFF)));
    assert!(vm.halted);
    assert_eq!(vm.registers.ac, 5);
    assert_eq!(vm.registers.pc, 2);
}

#[test]
fn execute_stops_at_an_opcode_without_mode() {
    let mut vm = machine_with("A905FF");

    assert_eq!(vm.execute(), Err(VmError::InvalidOpcodeMode(0xFF)));
    assert!(vm.halted);
    assert_eq!(vm.registers.ac, 5);
    assert_eq!(vm.cycles, 1);
}

#[test]
fn execute_halts_on_brk_at_the_end_of_the_address_space() {
    let mut vm = VirtualMachine::new();
    vm.registers.pc = 0xFFFD;

    assert_eq!(vm.execute(), Ok(1));
    assert!(vm.halted);
    assert_eq!(vm.registers.pc, 0xFFFE);
    assert_eq!(vm.registers.sp, 0);
}

#[test]
fn halted_machine_does_not_step() {
    let mut vm = machine_with("6901");
    vm.halted = true;
    vm.cycles = 7;

    assert_eq!(vm.step(), Ok(7));
    assert_eq!(vm.registers.pc, 0);
    assert_eq!(vm.registers.ac, 0);

    vm.reset();
    assert!(!vm.halted);
    assert_eq!(vm.cycles, 0);
}

#[test]
fn step_leaves_the_program_counter_after_the_instruction() {
    let mut vm = VirtualMachine::new();

    vm.insert_program(0x00, "69FFFF").unwrap();
    vm.registers.pc = 0x00;

    vm.step().unwrap();

    assert_eq!(vm.registers.pc, 2);
    assert_eq!(
        vm.flatmap
            .read(vm.registers.pc + vm.heap_bounds().0 as u16),
        0xFF
    );
}

#[test]
fn mode_of_adc_immediate() {
    let mut vm = VirtualMachine::new();
    let mode = vm.mode(0x69);

    assert_eq!(mode, Ok(Mode::Immediate));
}

#[test]
fn fetch_reads_the_heap_and_moves_on() {
    let mut vm = VirtualMachine::new();
    let byte = 0x01;

    vm.set_heap(0x0000, 0x69);
    vm.set_heap(0x0001, byte);

    assert_ne!(vm.flatmap.read(0x0001), byte);
    assert_eq!(byte, vm.flatmap.read(0x0201));

    vm.registers.pc = 0x01;
    vm.addr_mode = Mode::Immediate;
    let fetched = vm.fetch();
    assert_eq!(vm.registers.pc, 0x02);

    assert_eq!(fetched, byte);
}
