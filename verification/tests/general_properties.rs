use vm6502::prelude::decode_mode;
use vm6502::prelude::valid_op;
use vm6502::prelude::HeapInterface;
use vm6502::prelude::InstructionController;
use vm6502::prelude::Instructions;
use vm6502::prelude::Mode;
use vm6502::prelude::ProgramController;
use vm6502::prelude::Registers;
use vm6502::prelude::StackInterface;
use vm6502::prelude::Status;
use vm6502::prelude::StatusInterface;
use vm6502::prelude::VirtualMachine;
use vm6502::prelude::VmError;
use vm6502::prelude::N_VALID_OPS;
use vm6502::prelude::VALID_OPCODES;

const REAL_FLAGS: [Status; 7] = [
    Status::Negative,
    Status::Overflow,
    Status::Break,
    Status::Decimal,
    Status::Interrupt,
    Status::Zero,
    Status::Carry,
];

fn spare_slot(op: u8) -> bool {
    op == 0x02 || op == 0x9E || op % 32 == 0x12
}

#[test]
fn decoder_accepts_the_documented_opcodes_and_the_spare_slots() {
    let mut documented = 0;
    for op in 0..=255u8 {
        let decoded = decode_mode(op);
        assert_eq!(decoded.is_ok(), valid_op(op) || spare_slot(op), "opcode {:02X}", op);
        if decoded.is_err() {
            assert_eq!(decoded, Err(VmError::InvalidOpcodeMode(op)));
        }
        if valid_op(op) {
            documented += 1;
            assert!(!spare_slot(op));
        }
    }
    assert_eq!(documented, 151);
    assert_eq!(N_VALID_OPS, 151);
    assert_eq!(VALID_OPCODES.len(), 151);
}

#[test]
fn decoder_rejects_the_two_named_illegal_slots() {
    assert_eq!(decode_mode(0x0C), Err(VmError::InvalidOpcodeMode(0x0C)));
    assert_eq!(decode_mode(0x89), Err(VmError::InvalidOpcodeMode(0x89)));
    assert_eq!(decode_mode(0xFF), Err(VmError::InvalidOpcodeMode(0xFF)));
}

#[test]
fn decoder_gives_the_spare_slots_the_mode_of_their_slot() {
    assert_eq!(decode_mode(0x02), Ok(Mode::Implied));
    assert_eq!(decode_mode(0x12), Ok(Mode::ZeroPageX));
    assert_eq!(decode_mode(0xF2), Ok(Mode::ZeroPageX));
    assert_eq!(decode_mode(0x9E), Ok(Mode::AbsoluteX));
    assert!(!valid_op(0x02) && !valid_op(0x12) && !valid_op(0x9E));
}

#[test]
fn valid_op_knows_the_table() {
    assert!(valid_op(0x00));
    assert!(valid_op(0xEA));
    assert!(valid_op(0xFE));
    assert!(!valid_op(0xFF));
    assert!(!valid_op(0x80));
}

#[test]
fn set_then_get_for_every_real_flag_and_register_value() {
    let mut vm = VirtualMachine::new();
    for flag in REAL_FLAGS {
        for sr in 0..=255u8 {
            vm.registers.sr = sr;
            vm.set_status(flag, true);
            assert!(vm.get_status(flag));
            vm.registers.sr = sr;
            vm.set_status(flag, false);
            assert!(!vm.get_status(flag));
        }
    }
}

#[test]
fn flip_is_its_own_inverse() {
    let mut vm = VirtualMachine::new();
    for flag in REAL_FLAGS {
        for sr in 0..=255u8 {
            vm.registers.sr = sr;
            vm.flip_status(flag);
            assert_ne!(vm.registers.sr, sr);
            vm.flip_status(flag);
            assert_eq!(vm.registers.sr, sr);
        }
    }
}

#[test]
fn unused_flag_has_no_bit() {
    let mut vm = VirtualMachine::new();
    vm.registers.sr = 0xFF;
    assert!(!vm.get_status(Status::Unused));
    vm.set_status(Status::Unused, true);
    assert_eq!(vm.registers.sr, 0xFF);
    vm.set_status(Status::Unused, false);
    assert_eq!(vm.registers.sr, 0xFF);
    vm.flip_status(Status::Unused);
    assert_eq!(vm.registers.sr, 0xFF);
}

#[test]
fn setting_one_flag_leaves_the_others() {
    let mut vm = VirtualMachine::new();
    vm.registers.sr = 0b0100_0001;
    vm.set_status(Status::Zero, true);
    assert_eq!(vm.registers.sr, 0b0100_0011);
    vm.set_status(Status::Overflow, false);
    assert_eq!(vm.registers.sr, 0b0000_0011);
    vm.reset_status();
    assert_eq!(vm.registers.sr, 0);
}

#[test]
fn adc_for_every_accumulator_operand_and_carry() {
    let mut vm = VirtualMachine::new();
    for ac in 0..=255u16 {
        for operand in 0..=255u16 {
            for carry in 0..=1u16 {
                vm.registers = Registers::new();
                vm.registers.ac = ac as u8;
                vm.addr_mode = Mode::Immediate;
                vm.set_heap(0, operand as u8);
                vm.set_status(Status::Carry, carry == 1);

                vm.adc();

                let sum = ac + operand + carry;
                let signed = (ac as u8 as i8) as i16 + (operand as u8 as i8) as i16 + carry as i16;
                assert_eq!(vm.registers.ac as u16, sum % 256);
                assert_eq!(vm.get_status(Status::Carry), sum >= 256);
                assert_eq!(vm.get_status(Status::Zero), sum % 256 == 0);
                assert_eq!(vm.get_status(Status::Negative), sum % 256 >= 128);
                assert_eq!(vm.get_status(Status::Overflow), !(-128..=127).contains(&signed));
                assert_eq!(vm.registers.pc, 1);
            }
        }
    }
}

#[test]
fn sbc_for_every_accumulator_operand_and_carry() {
    let mut vm = VirtualMachine::new();
    for ac in 0..=255i16 {
        for operand in 0..=255i16 {
            for carry in 0..=1i16 {
                vm.registers = Registers::new();
                vm.registers.ac = ac as u8;
                vm.addr_mode = Mode::Immediate;
                vm.set_heap(0, operand as u8);
                vm.set_status(Status::Carry, carry == 1);

                vm.sbc();

                let difference = ac - operand - (1 - carry);
                let signed = (ac as u8 as i8) as i16 - (operand as u8 as i8) as i16 - (1 - carry);
                assert_eq!(vm.registers.ac, difference.rem_euclid(256) as u8);
                assert_eq!(vm.get_status(Status::Carry), difference >= 0);
                assert_eq!(vm.get_status(Status::Zero), difference.rem_euclid(256) == 0);
                assert_eq!(vm.get_status(Status::Negative), difference.rem_euclid(256) >= 128);
                assert_eq!(vm.get_status(Status::Overflow), !(-128..=127).contains(&signed));
            }
        }
    }
}

#[test]
fn reset_restores_what_construction_gives() {
    let mut vm = VirtualMachine::new();
    vm.set_program(0x0010, "A9428510").unwrap();
    vm.default_interrupt_vectors();
    vm.step().unwrap();
    vm.step().unwrap();
    vm.push(0xAA);
    vm.halted = true;
    vm.addr_mode = Mode::IndirectY;

    vm.reset();

    assert_eq!(vm.registers, Registers::new());
    assert_eq!(vm.cycles, 0);
    assert!(!vm.halted);
    assert_eq!(vm.flatmap.window(0, 0x10000), vec![0u8; 0x10000]);
    assert_eq!(vm.addr_mode, Mode::IndirectY);
}

#[test]
fn new_machine_is_zeroed() {
    let vm = VirtualMachine::new();
    assert_eq!(vm.registers, Registers::new());
    assert_eq!(vm.registers.pc, 0);
    assert_eq!(vm.addr_mode, Mode::Absolute);
    assert_eq!(vm.cycles, 0);
    assert!(!vm.halted);
    assert_eq!(vm.flatmap.len(), 0x10000);
    assert_eq!(vm.flatmap.window(0, 0x10000), vec![0u8; 0x10000]);

    let other = VirtualMachine::default();
    assert_eq!(other.registers, vm.registers);
    assert_eq!(other.addr_mode, Mode::Absolute);
}

#[test]
fn bounds_are_the_documented_regions() {
    let vm = VirtualMachine::new();
    assert_eq!(vm.zero_bounds(), (0x0000, 0x0100));
    assert_eq!(vm.stack_bounds(), (0x0100, 0x01FF));
    assert_eq!(vm.heap_bounds(), (0x0200, 0xFFFF));
    assert_eq!(vm.vheap_bounds(), (0x0000, 0xFFFF));
    assert_eq!(vm.interrupt_bounds(), (0xFFFA, 0xFFFB));
    assert_eq!(vm.reset_bounds(), (0xFFFC, 0xFFFD));
    assert_eq!(vm.irq_bounds(), (0xFFFE, 0xFFFF));
}

#[test]
fn inserted_program_reads_back() {
    let mut vm = VirtualMachine::new();
    let text = "00112233445566778899AABBCCDDEEFFdeadbeef";
    let bytes = hex::decode(text).unwrap();
    let offset = 0x1234;

    vm.insert_program(offset, text).unwrap();

    for (i, byte) in bytes.iter().enumerate() {
        assert_eq!(vm.get_heap(offset + i as u16), *byte);
        assert_eq!(vm.flatmap.read(0x0200 + offset + i as u16), *byte);
    }
    assert_eq!(vm.flatmap.window(0x0200 + offset, bytes.len()), bytes);
    assert_eq!(vm.flatmap.read(0x0200 + offset - 1), 0);
    assert_eq!(vm.flatmap.read(0x0200 + offset + bytes.len() as u16), 0);
    assert_eq!(vm.registers.pc, 0);
}

#[test]
fn inserted_program_wraps_round_the_end_of_memory() {
    let mut vm = VirtualMachine::new();
    let bytes = [1u8, 2, 3, 4, 5, 6];

    vm.insert_bytes(0xFDFC, &bytes);

    assert_eq!(vm.flatmap.window(0xFFFC, 6), bytes.to_vec());
    assert_eq!(vm.flatmap.read(0xFFFC), 1);
    assert_eq!(vm.flatmap.read(0xFFFF), 4);
    assert_eq!(vm.flatmap.read(0x0000), 5);
    assert_eq!(vm.flatmap.read(0x0001), 6);
    for (i, byte) in bytes.iter().enumerate() {
        assert_eq!(vm.get_heap(0xFDFCu16.wrapping_add(i as u16)), *byte);
    }
}

#[test]
fn set_program_points_the_program_counter_at_it() {
    let mut vm = VirtualMachine::new();
    vm.set_program(0x0300, "EAEA").unwrap();
    assert_eq!(vm.registers.pc, 0x0300);
    assert_eq!(vm.flatmap.read(0x0500), 0xEA);
    assert_eq!(vm.flatmap.read(0x0501), 0xEA);
}

#[test]
fn bad_program_text_is_refused_before_anything_changes() {
    let mut vm = VirtualMachine::new();
    vm.registers.pc = 0x0042;

    assert_eq!(vm.insert_program(0, "ABC"), Err(VmError::BadHexProgram));
    assert_eq!(vm.insert_program(0, "ZZ"), Err(VmError::BadHexProgram));
    assert_eq!(vm.insert_program(0, "é0"), Err(VmError::BadHexProgram));
    assert_eq!(vm.set_program(0x10, "A9 42"), Err(VmError::BadHexProgram));

    assert_eq!(vm.registers.pc, 0x0042);
    assert_eq!(vm.flatmap.window(0, 0x10000), vec![0u8; 0x10000]);

    assert_eq!(vm.insert_program(0, ""), Ok(()));
    assert_eq!(vm.insert_program(0, "aB"), Ok(()));
    assert_eq!(vm.flatmap.read(0x0200), 0xAB);
}

#[test]
fn pha_then_pla_with_the_slot_above_holding_the_accumulator() {
    let mut vm = VirtualMachine::new();
    vm.set_program(0, "4868").unwrap();
    vm.registers.ac = 0x80;
    vm.registers.sp = 0x10;
    vm.flatmap.write(0x01FF - 0x11, 0x80);

    vm.step().unwrap();
    assert_eq!(vm.registers.sp, 0x11);
    assert_eq!(vm.flatmap.read(0x01FF - 0x10), 0x80);
    vm.registers.ac = 0;
    vm.step().unwrap();

    assert_eq!(vm.registers.ac, 0x80);
    assert_eq!(vm.registers.sp, 0x10);
    assert!(vm.get_status(Status::Negative));
    assert!(!vm.get_status(Status::Zero));
    assert_eq!(vm.registers.pc, 2);
}

#[test]
fn pha_then_pla_pulls_the_slot_above_the_one_pushed() {
    let mut vm = VirtualMachine::new();
    vm.set_program(0, "4868").unwrap();
    vm.registers.ac = 0x42;

    vm.step().unwrap();
    vm.step().unwrap();

    assert_eq!(vm.registers.ac, 0x00);
    assert_eq!(vm.registers.sp, 0);
    assert!(vm.get_status(Status::Zero));
    assert_eq!(vm.flatmap.read(0x01FF), 0x42);
}

#[test]
fn push_then_pop_restores_the_stack_pointer() {
    for sp in 0..0xFFu8 {
        let mut vm = VirtualMachine::new();
        vm.registers.sp = sp;
        vm.flatmap.write(0x01FE - sp as u16, 0x5A);

        vm.push(0xC3);
        assert_eq!(vm.registers.sp, sp + 1);
        assert_eq!(vm.flatmap.read(0x01FF - sp as u16), 0xC3);
        assert_eq!(vm.peek(), 0x5A);
        assert_eq!(vm.pop(), 0x5A);
        assert_eq!(vm.registers.sp, sp);
    }
}

#[test]
fn stack_pointer_saturates_at_both_ends() {
    let mut vm = VirtualMachine::new();
    vm.registers.sp = 0xFF;
    vm.push(0x11);
    assert_eq!(vm.registers.sp, 0xFF);
    assert_eq!(vm.flatmap.read(0x0100), 0x11);
    vm.push(0x22);
    assert_eq!(vm.registers.sp, 0xFF);
    assert_eq!(vm.flatmap.read(0x0100), 0x22);
    assert_eq!(vm.pop(), 0x22);
    assert_eq!(vm.registers.sp, 0xFE);

    vm.registers.sp = 0x00;
    vm.flatmap.write(0x01FF, 0x33);
    assert_eq!(vm.pop(), 0x33);
    assert_eq!(vm.registers.sp, 0x00);
    assert_eq!(vm.pop(), 0x33);
    assert_eq!(vm.registers.sp, 0x00);
}

#[test]
fn cycles_never_go_down_and_stop_at_the_top() {
    let mut vm = VirtualMachine::new();
    vm.set_program(0, "EAEAEA").unwrap();
    vm.cycles = u64::MAX - 1;

    assert_eq!(vm.step(), Ok(u64::MAX));
    assert_eq!(vm.step(), Ok(u64::MAX));
    assert_eq!(vm.cycles, u64::MAX);
    assert_eq!(vm.registers.pc, 2);
}

#[test]
fn fill_stack_pushes_through_the_accumulator() {
    let mut vm = VirtualMachine::new();
    vm.fill_stack(vec![0xDE, 0xAD, 0xBE, 0xEF]);
    assert_eq!(vm.registers.sp, 4);
    assert_eq!(vm.registers.ac, 0xEF);
    assert_eq!(vm.flatmap.window(0x01FC, 4), vec![0xEF, 0xBE, 0xAD, 0xDE]);

    let mut full = VirtualMachine::new();
    let many: Vec<u8> = (0..300u32).map(|i| (i % 251) as u8 + 1).collect();
    full.fill_stack(many.clone());
    assert_eq!(full.registers.sp, 0xFF);
    assert_eq!(full.registers.ac, many[0xFF]);
    // The 256th push finds the pointer saturated and takes the last slot.
    assert_eq!(full.flatmap.read(0x0100), many[0xFF]);
    assert_eq!(full.flatmap.read(0x0101), many[0xFE]);
    assert_eq!(full.flatmap.read(0x01FF), many[0]);
}

#[test]
fn interrupt_vectors_are_stored_low_byte_first() {
    let mut vm = VirtualMachine::new();
    vm.set_interrupt_vectors(0x1234, 0x5678, 0x9ABC);
    assert_eq!(
        vm.flatmap.window(0xFFFA, 6),
        vec![0x34, 0x12, 0x78, 0x56, 0xBC, 0x9A]
    );
    vm.default_interrupt_vectors();
    assert_eq!(
        vm.flatmap.window(0xFFFA, 6),
        vec![0xFA, 0xFF, 0xFC, 0xFF, 0xFE, 0xFF]
    );
}
