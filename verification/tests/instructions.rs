use chip8::decode::{decode, join, Instruction};
use chip8::error::Error;
use chip8::machine::Chip8;

/// A machine with `program` loaded at 0x200 and `cycles` cycles run.
fn after(program: &[u8], cycles: usize) -> Chip8 {
    let mut machine = Chip8::new();
    machine.load(program).expect("the program fits");
    for _ in 0..cycles {
        machine.cycle_with(0).expect("no fault");
    }
    machine
}

fn v(machine: &Chip8, x: usize) -> u8 {
    machine.registers()[x]
}

#[test]
fn join_puts_the_high_byte_first() {
    assert_eq!(join(0x12, 0x34), 0x1234);
    assert_eq!(join(0x00, 0xEE), 0x00EE);
    assert_eq!(join(0xFF, 0x00), 0xFF00);
}

#[test]
fn decode_reads_every_instruction() {
    let table = [
        (0x00E0, Instruction::ClearScreen),
        (0x00EE, Instruction::Return),
        (0x1ABC, Instruction::Jump(0xABC)),
        (0x2DEF, Instruction::Call(0xDEF)),
        (0x3A12, Instruction::SkipIfByte(0xA, 0x12)),
        (0x4B34, Instruction::SkipUnlessByte(0xB, 0x34)),
        (0x5CD0, Instruction::SkipIfSame(0xC, 0xD)),
        (0x6E56, Instruction::SetByte(0xE, 0x56)),
        (0x7F78, Instruction::AddByte(0xF, 0x78)),
        (0x8120, Instruction::Assign(1, 2)),
        (0x8121, Instruction::Or(1, 2)),
        (0x8122, Instruction::And(1, 2)),
        (0x8123, Instruction::Xor(1, 2)),
        (0x8124, Instruction::Add(1, 2)),
        (0x8125, Instruction::Sub(1, 2)),
        (0x8126, Instruction::ShiftRight(1)),
        (0x8127, Instruction::SubFrom(1, 2)),
        (0x812E, Instruction::ShiftLeft(1)),
        (0x9340, Instruction::SkipUnlessSame(3, 4)),
        (0xA123, Instruction::SetIndex(0x123)),
        (0xB456, Instruction::JumpOffset(0x456)),
        (0xC5AA, Instruction::Random(5, 0xAA)),
        (0xD67F, Instruction::Draw(6, 7, 0xF)),
        (0xE89E, Instruction::SkipIfKey(8)),
        (0xE9A1, Instruction::SkipUnlessKey(9)),
        (0xFA07, Instruction::ReadDelay(0xA)),
        (0xFB0A, Instruction::WaitKey(0xB)),
        (0xFC15, Instruction::SetDelay(0xC)),
        (0xFD18, Instruction::SetSound(0xD)),
        (0xFE1E, Instruction::AddIndex(0xE)),
        (0xFF29, Instruction::Glyph(0xF)),
        (0xF033, Instruction::Decimal(0)),
        (0xF155, Instruction::Store(1)),
        (0xF265, Instruction::Load(2)),
    ];
    for (word, instruction) in table {
        assert_eq!(decode(word), Some(instruction), "word {word:#06X}");
    }
}

#[test]
fn decode_refuses_what_is_no_instruction() {
    for word in [
        0x0000, 0x00E1, 0x00FF, 0x0123, 0x5121, 0x512F, 0x8128, 0x8129, 0x812A, 0x812D, 0x812F,
        0x9121, 0xE000, 0xE19F, 0xE1A0, 0xF000, 0xF108, 0xF1FF,
    ] {
        assert_eq!(decode(word), None, "word {word:#06X}");
    }
}

#[test]
fn decode_looks_only_at_class_and_selector() {
    // In class 0 the low byte selects; bits 8 to 11 are not looked at.
    assert_eq!(decode(0x01E0), Some(Instruction::ClearScreen));
    assert_eq!(decode(0x0FEE), Some(Instruction::Return));
    // The shifts have a y field that plays no part.
    assert_eq!(decode(0x8AB6), Some(Instruction::ShiftRight(0xA)));
    assert_eq!(decode(0x8ABE), Some(Instruction::ShiftLeft(0xA)));
}

#[test]
fn decode_is_total() {
    let mut known = 0;
    for word in 0..=0xFFFFu16 {
        if decode(word).is_some() {
            known += 1;
        }
    }
    // classes 1-4, 6, 7, A-D whole; 0: 2 low bytes; 5, 9: 256 each;
    // 8: 9 low nibbles; E: 2 low bytes; F: 9 low bytes
    assert_eq!(known, 10 * 4096 + 2 * 16 + 2 * 256 + 9 * 256 + 2 * 16 + 9 * 16);
}

#[test]
fn jump_sets_the_program_counter() {
    let machine = after(&[0x1A, 0xBC], 1);
    assert_eq!(machine.pc(), 0xABC);
}

#[test]
fn call_and_return() {
    // 0x200: call 0x206 | 0x202: V1 := 1 | 0x204: - | 0x206: V0 := 7 | 0x208: return
    let program = [0x22, 0x06, 0x61, 0x01, 0x00, 0x00, 0x60, 0x07, 0x00, 0xEE];
    let machine = after(&program, 1);
    assert_eq!(machine.pc(), 0x206);
    assert_eq!(machine.stack_depth(), 1);
    assert_eq!(machine.return_address(0), Some(0x202));
    assert_eq!(machine.return_address(1), None);
    let machine = after(&program, 3);
    assert_eq!(machine.pc(), 0x202);
    assert_eq!(machine.stack_depth(), 0);
    assert_eq!(v(&machine, 0), 7);
    let machine = after(&program, 4);
    assert_eq!(v(&machine, 1), 1);
}

#[test]
fn nested_calls_return_in_reverse_order() {
    // 0x200: call 0x204 | 0x202: jump 0x202 | 0x204: call 0x208 | 0x206: return | 0x208: return
    let program = [0x22, 0x04, 0x12, 0x02, 0x22, 0x08, 0x00, 0xEE, 0x00, 0xEE];
    let machine = after(&program, 2);
    assert_eq!(machine.stack_depth(), 2);
    assert_eq!(machine.return_address(0), Some(0x202));
    assert_eq!(machine.return_address(1), Some(0x206));
    assert_eq!(after(&program, 3).pc(), 0x206);
    assert_eq!(after(&program, 4).pc(), 0x202);
}

#[test]
fn skip_if_byte() {
    assert_eq!(after(&[0x60, 0x42, 0x30, 0x42], 2).pc(), 0x206);
    assert_eq!(after(&[0x60, 0x42, 0x30, 0x43], 2).pc(), 0x204);
}

#[test]
fn skip_unless_byte() {
    assert_eq!(after(&[0x60, 0x42, 0x40, 0x42], 2).pc(), 0x204);
    assert_eq!(after(&[0x60, 0x42, 0x40, 0x43], 2).pc(), 0x206);
}

#[test]
fn skip_if_same() {
    assert_eq!(after(&[0x60, 0x09, 0x61, 0x09, 0x50, 0x10], 3).pc(), 0x208);
    assert_eq!(after(&[0x60, 0x09, 0x61, 0x0A, 0x50, 0x10], 3).pc(), 0x206);
    assert_eq!(after(&[0x53, 0x30], 1).pc(), 0x204);
}

#[test]
fn skip_unless_same() {
    assert_eq!(after(&[0x60, 0x09, 0x61, 0x09, 0x90, 0x10], 3).pc(), 0x206);
    assert_eq!(after(&[0x60, 0x09, 0x61, 0x0A, 0x90, 0x10], 3).pc(), 0x208);
}

#[test]
fn set_byte() {
    let machine = after(&[0x6A, 0xCD], 1);
    assert_eq!(v(&machine, 0xA), 0xCD);
    assert_eq!(machine.pc(), 0x202);
}

#[test]
fn add_byte_wraps_and_has_no_flag() {
    let machine = after(&[0x60, 0xFF, 0x70, 0x02], 2);
    assert_eq!(v(&machine, 0), 1);
    assert_eq!(v(&machine, 15), 0);
    let machine = after(&[0x6F, 0x01, 0x60, 0xF0, 0x70, 0x20], 3);
    assert_eq!(v(&machine, 0), 0x10);
    assert_eq!(v(&machine, 15), 1);
    let machine = after(&[0x60, 0x10, 0x70, 0x20], 2);
    assert_eq!(v(&machine, 0), 0x30);
}

#[test]
fn assign_or_and_xor() {
    let setup = [0x60, 0b1100_1010, 0x61, 0b1010_0110];
    let with = |op: u8| {
        let mut program = setup.to_vec();
        program.extend([0x80, 0x10 | op]);
        after(&program, 3)
    };
    assert_eq!(v(&with(0), 0), 0b1010_0110);
    assert_eq!(v(&with(1), 0), 0b1110_1110);
    assert_eq!(v(&with(2), 0), 0b1000_0010);
    assert_eq!(v(&with(3), 0), 0b0110_1100);
    for op in 0..4 {
        assert_eq!(v(&with(op), 1), 0b1010_0110);
        assert_eq!(v(&with(op), 15), 0);
    }
}

#[test]
fn add_sets_carry() {
    let machine = after(&[0x60, 0xFF, 0x61, 0x01, 0x80, 0x14], 3);
    assert_eq!((v(&machine, 0), v(&machine, 15)), (0x00, 1));
    let machine = after(&[0x60, 0xF0, 0x61, 0x0F, 0x80, 0x14], 3);
    assert_eq!((v(&machine, 0), v(&machine, 15)), (0xFF, 0));
    let machine = after(&[0x60, 0xC8, 0x61, 0x64, 0x80, 0x14], 3);
    assert_eq!((v(&machine, 0), v(&machine, 15)), (44, 1));
    // a sum between 0x10 and 0xFF carries nothing
    let machine = after(&[0x60, 0x10, 0x61, 0x10, 0x80, 0x14], 3);
    assert_eq!((v(&machine, 0), v(&machine, 15)), (0x20, 0));
}

#[test]
fn add_clears_a_stale_carry() {
    let machine = after(&[0x6F, 0x01, 0x60, 0x01, 0x61, 0x01, 0x80, 0x14], 4);
    assert_eq!((v(&machine, 0), v(&machine, 15)), (2, 0));
}

#[test]
fn add_a_register_to_itself() {
    let machine = after(&[0x60, 0x81, 0x80, 0x04], 2);
    assert_eq!((v(&machine, 0), v(&machine, 15)), (0x02, 1));
    let machine = after(&[0x60, 0x21, 0x80, 0x04], 2);
    assert_eq!((v(&machine, 0), v(&machine, 15)), (0x42, 0));
}

#[test]
fn sub_sets_no_borrow() {
    let machine = after(&[0x60, 0x0A, 0x61, 0x03, 0x80, 0x15], 3);
    assert_eq!((v(&machine, 0), v(&machine, 15)), (7, 1));
    let machine = after(&[0x60, 0x03, 0x61, 0x0A, 0x80, 0x15], 3);
    assert_eq!((v(&machine, 0), v(&machine, 15)), (249, 0));
    let machine = after(&[0x60, 0x05, 0x61, 0x05, 0x80, 0x15], 3);
    assert_eq!((v(&machine, 0), v(&machine, 15)), (0, 1));
    let machine = after(&[0x60, 0x00, 0x61, 0x01, 0x80, 0x15], 3);
    assert_eq!((v(&machine, 0), v(&machine, 15)), (255, 0));
}

#[test]
fn sub_a_register_from_itself() {
    let machine = after(&[0x63, 0x77, 0x83, 0x35], 2);
    assert_eq!((v(&machine, 3), v(&machine, 15)), (0, 1));
}

#[test]
fn sub_from_sets_no_borrow() {
    let machine = after(&[0x60, 0x03, 0x61, 0x0A, 0x80, 0x17], 3);
    assert_eq!((v(&machine, 0), v(&machine, 1), v(&machine, 15)), (7, 10, 1));
    let machine = after(&[0x60, 0x0A, 0x61, 0x03, 0x80, 0x17], 3);
    assert_eq!((v(&machine, 0), v(&machine, 1), v(&machine, 15)), (249, 3, 0));
    let machine = after(&[0x60, 0x05, 0x61, 0x05, 0x80, 0x17], 3);
    assert_eq!((v(&machine, 0), v(&machine, 15)), (0, 1));
}

#[test]
fn sub_from_a_register_itself() {
    let machine = after(&[0x63, 0x77, 0x83, 0x37], 2);
    assert_eq!((v(&machine, 3), v(&machine, 15)), (0, 1));
}

#[test]
fn flag_register_as_operand_is_read_before_the_flag_is_written() {
    // VF := 3, V0 := 10, V0 := V0 - VF
    let machine = after(&[0x6F, 0x03, 0x60, 0x0A, 0x80, 0xF5], 3);
    assert_eq!((v(&machine, 0), v(&machine, 15)), (7, 1));
    // VF := 250, V0 := 10, V0 := V0 + VF
    let machine = after(&[0x6F, 0xFA, 0x60, 0x0A, 0x80, 0xF4], 3);
    assert_eq!((v(&machine, 0), v(&machine, 15)), (4, 1));
    // VF := 3, V0 := 10, V0 := VF - V0
    let machine = after(&[0x6F, 0x03, 0x60, 0x0A, 0x80, 0xF7], 3);
    assert_eq!((v(&machine, 0), v(&machine, 15)), (249, 0));
}

#[test]
fn flag_register_as_destination_ends_up_holding_the_flag() {
    // VF := 0xFF, V1 := 1, VF := VF + V1: carry
    let machine = after(&[0x6F, 0xFF, 0x61, 0x01, 0x8F, 0x14], 3);
    assert_eq!(v(&machine, 15), 1);
    // VF := 7, V1 := 1, VF := VF + V1: no carry
    let machine = after(&[0x6F, 0x07, 0x61, 0x01, 0x8F, 0x14], 3);
    assert_eq!(v(&machine, 15), 0);
    // VF := 1, V1 := 2, VF := VF - V1: borrow
    let machine = after(&[0x6F, 0x01, 0x61, 0x02, 0x8F, 0x15], 3);
    assert_eq!(v(&machine, 15), 0);
    // VF := 1, V1 := 2, VF := V1 - VF: no borrow
    let machine = after(&[0x6F, 0x01, 0x61, 0x02, 0x8F, 0x17], 3);
    assert_eq!(v(&machine, 15), 1);
}

#[test]
fn shift_right_keeps_the_bit_shifted_out() {
    let machine = after(&[0x60, 0x03, 0x80, 0x06], 2);
    assert_eq!((v(&machine, 0), v(&machine, 15)), (1, 1));
    let machine = after(&[0x60, 0xFE, 0x80, 0x06], 2);
    assert_eq!((v(&machine, 0), v(&machine, 15)), (0x7F, 0));
    // Vy plays no part
    let machine = after(&[0x60, 0x04, 0x61, 0xFF, 0x80, 0x16], 3);
    assert_eq!((v(&machine, 0), v(&machine, 1), v(&machine, 15)), (2, 0xFF, 0));
}

#[test]
fn shift_right_of_the_flag_register_reads_the_bit_first() {
    let machine = after(&[0x6F, 0x03, 0x8F, 0x06], 2);
    assert_eq!(v(&machine, 15), 1);
    let machine = after(&[0x6F, 0x02, 0x8F, 0x06], 2);
    assert_eq!(v(&machine, 15), 0);
    let machine = after(&[0x6F, 0xFF, 0x8F, 0x06], 2);
    assert_eq!(v(&machine, 15), 1);
}

#[test]
fn shift_left_keeps_the_bit_shifted_out() {
    let machine = after(&[0x60, 0x81, 0x80, 0x0E], 2);
    assert_eq!((v(&machine, 0), v(&machine, 15)), (0x02, 1));
    let machine = after(&[0x60, 0x41, 0x80, 0x0E], 2);
    assert_eq!((v(&machine, 0), v(&machine, 15)), (0x82, 0));
}

#[test]
fn shift_left_of_the_flag_register_reads_the_bit_first() {
    let machine = after(&[0x6F, 0x80, 0x8F, 0x0E], 2);
    assert_eq!(v(&machine, 15), 1);
    let machine = after(&[0x6F, 0x7F, 0x8F, 0x0E], 2);
    assert_eq!(v(&machine, 15), 0);
}

#[test]
fn set_index() {
    let machine = after(&[0xA1, 0x23], 1);
    assert_eq!(machine.index(), 0x123);
    assert_eq!(machine.pc(), 0x202);
}

#[test]
fn jump_offset_adds_v0() {
    assert_eq!(after(&[0x60, 0x05, 0xB3, 0x00], 2).pc(), 0x305);
    assert_eq!(after(&[0x60, 0xFF, 0xBF, 0xFF], 2).pc(), 0x10FE);
}

#[test]
fn skip_if_key_and_unless_key() {
    let with_key = |second: [u8; 2], pressed: bool| {
        let mut machine = Chip8::new();
        machine.load(&[0x60, 0x0B, second[0], second[1]]).unwrap();
        machine.set_key(0xB, pressed);
        machine.set_key(0x1, true);
        machine.cycle().unwrap();
        machine.cycle().unwrap();
        machine.pc()
    };
    assert_eq!(with_key([0xE0, 0x9E], true), 0x206);
    assert_eq!(with_key([0xE0, 0x9E], false), 0x204);
    assert_eq!(with_key([0xE0, 0xA1], true), 0x204);
    assert_eq!(with_key([0xE0, 0xA1], false), 0x206);
}

#[test]
fn wait_key_stalls_until_a_key_is_down() {
    let mut machine = Chip8::new();
    machine.load(&[0xF5, 0x0A, 0x60, 0x01]).unwrap();
    for _ in 0..10 {
        assert_eq!(machine.cycle(), Ok(()));
        assert_eq!(machine.pc(), 0x200);
        assert_eq!(machine.registers(), &[0u8; 16]);
    }
    machine.set_key(0x7, true);
    machine.set_key(0x3, true);
    machine.set_key(0xE, true);
    assert_eq!(machine.cycle(), Ok(()));
    assert_eq!(machine.pc(), 0x202);
    assert_eq!(machine.registers()[5], 3);
    // the latch is read, not cleared
    assert!(machine.keys()[0x3] && machine.keys()[0x7] && machine.keys()[0xE]);
    assert_eq!(machine.cycle(), Ok(()));
    assert_eq!(machine.registers()[0], 1);
}

#[test]
fn wait_key_sees_key_zero_and_key_fifteen() {
    let mut machine = Chip8::new();
    machine.load(&[0xF1, 0x0A]).unwrap();
    machine.set_key(0xF, true);
    assert_eq!(machine.cycle(), Ok(()));
    assert_eq!(machine.registers()[1], 0xF);
    let mut machine = Chip8::new();
    machine.load(&[0x61, 0x09, 0xF1, 0x0A]).unwrap();
    machine.set_key(0x0, true);
    machine.set_key(0xF, true);
    assert_eq!(machine.cycle(), Ok(()));
    assert_eq!(machine.cycle(), Ok(()));
    assert_eq!(machine.registers()[1], 0);
    assert_eq!(machine.pc(), 0x204);
}

#[test]
fn delay_timer_is_set_and_read() {
    let machine = after(&[0x60, 0x2A, 0xF0, 0x15, 0xF1, 0x07], 3);
    assert_eq!(machine.delay_timer(), 0x2A);
    assert_eq!(v(&machine, 1), 0x2A);
    assert_eq!(machine.sound_timer(), 0);
}

#[test]
fn sound_timer_is_set() {
    let machine = after(&[0x60, 0x2A, 0xF0, 0x18], 2);
    assert_eq!(machine.sound_timer(), 0x2A);
    assert_eq!(machine.delay_timer(), 0);
}

#[test]
fn cycles_do_not_tick_the_timers() {
    let machine = after(&[0x60, 0x05, 0xF0, 0x15, 0x61, 0x00, 0x62, 0x00, 0x63, 0x00], 5);
    assert_eq!(machine.delay_timer(), 5);
}

#[test]
fn add_index() {
    let machine = after(&[0xA1, 0x00, 0x60, 0xFF, 0xF0, 0x1E], 3);
    assert_eq!(machine.index(), 0x1FF);
    assert_eq!(v(&machine, 15), 0);
}

#[test]
fn add_index_wraps_within_sixteen_bits() {
    // I := 0xFFF; V0 := 0xFF; then I += V0 and jump back, 241 times
    let mut machine = Chip8::new();
    machine.load(&[0xAF, 0xFF, 0x60, 0xFF, 0xF0, 0x1E, 0x12, 0x04]).unwrap();
    machine.cycle().unwrap();
    machine.cycle().unwrap();
    for round in 1..=241u32 {
        machine.cycle().unwrap();
        assert_eq!(u32::from(machine.index()), (0xFFF + 255 * round) % 0x10000);
        machine.cycle().unwrap();
    }
    assert_eq!(machine.index(), 14);
}

#[test]
fn glyph_address_is_five_times_the_digit() {
    assert_eq!(after(&[0x60, 0x00, 0xF0, 0x29], 2).index(), 0);
    assert_eq!(after(&[0x60, 0x0A, 0xF0, 0x29], 2).index(), 50);
    assert_eq!(after(&[0x60, 0x0F, 0xF0, 0x29], 2).index(), 75);
    assert_eq!(after(&[0x60, 0xFF, 0xF0, 0x29], 2).index(), 1275);
}

#[test]
fn decimal_digits() {
    let digits = |value: u8| {
        let machine = after(&[0x60, value, 0xA3, 0x00, 0xF0, 0x33], 3);
        let memory = machine.memory();
        [memory[0x300], memory[0x301], memory[0x302]]
    };
    assert_eq!(digits(254), [2, 5, 4]);
    assert_eq!(digits(0), [0, 0, 0]);
    assert_eq!(digits(7), [0, 0, 7]);
    assert_eq!(digits(100), [1, 0, 0]);
    assert_eq!(digits(99), [0, 9, 9]);
    assert_eq!(digits(255), [2, 5, 5]);
}

#[test]
fn store_registers_up_to_x_inclusive() {
    let machine = after(
        &[0x60, 0x11, 0x61, 0x22, 0x62, 0x33, 0x63, 0x44, 0xA3, 0x00, 0xF2, 0x55],
        6,
    );
    assert_eq!(&machine.memory()[0x300..0x304], &[0x11, 0x22, 0x33, 0x00]);
    assert_eq!(machine.index(), 0x300);
    let machine = after(&[0x60, 0x11, 0x61, 0x22, 0xA3, 0x00, 0xF0, 0x55], 4);
    assert_eq!(&machine.memory()[0x300..0x302], &[0x11, 0x00]);
}

#[test]
fn load_registers_up_to_x_inclusive() {
    // I := 0x208, V3 := 0x99, load V0..=V2; data behind the program
    let machine = after(
        &[0xA2, 0x08, 0x63, 0x99, 0xF2, 0x65, 0x00, 0x00, 0xAA, 0xBB, 0xCC, 0xDD],
        3,
    );
    assert_eq!(&machine.registers()[0..4], &[0xAA, 0xBB, 0xCC, 0x99]);
    assert_eq!(machine.index(), 0x208);
    let machine = after(&[0xA2, 0x04, 0xF0, 0x65, 0xAA, 0xBB], 2);
    assert_eq!(&machine.registers()[0..2], &[0xAA, 0x00]);
}

#[test]
fn store_and_load_all_sixteen() {
    let mut program = Vec::new();
    for x in 0..16u8 {
        program.extend([0x60 | x, 0xF0 | x]);
    }
    program.extend([0xA4, 0x00, 0xFF, 0x55]);
    for x in 0..16u8 {
        program.extend([0x60 | x, 0x00]);
    }
    program.extend([0xFF, 0x65]);
    let machine = after(&program, 16 + 2);
    let expected: Vec<u8> = (0..16u8).map(|x| 0xF0 | x).collect();
    assert_eq!(&machine.memory()[0x400..0x410], &expected[..]);
    let machine = after(&program, 16 + 2 + 16);
    assert_eq!(machine.registers(), &[0u8; 16]);
    let machine = after(&program, 16 + 2 + 16 + 1);
    assert_eq!(&machine.registers()[..], &expected[..]);
}

#[test]
fn faults_come_back_as_illegal_state() {
    let mut machine = Chip8::new();
    machine.load(&[0x00, 0xEE]).unwrap();
    assert!(matches!(machine.cycle_with(0), Err(Error::IllegalState(_))));
}
