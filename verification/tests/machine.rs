use chip8::error::{Error, Fault};
use chip8::machine::Chip8;
use chip8::model::FONT;

/// A machine with `program` loaded at 0x200.
fn machine_with(program: &[u8]) -> Chip8 {
    let mut machine = Chip8::new();
    machine.load(program).expect("the program fits");
    machine
}

fn run(machine: &mut Chip8, cycles: usize) {
    for _ in 0..cycles {
        machine.cycle_with(0).expect("no fault");
    }
}

#[test]
fn new_machine_is_reset() {
    let machine = Chip8::new();
    assert_eq!(machine.pc(), 0);
    assert_eq!(machine.index(), 0);
    assert_eq!(machine.registers(), &[0u8; 16]);
    assert_eq!(machine.delay_timer(), 0);
    assert_eq!(machine.sound_timer(), 0);
    assert_eq!(machine.stack_depth(), 0);
    assert_eq!(machine.return_address(0), None);
    assert!(machine.display().iter().all(|pixel| !pixel));
    assert!(machine.keys().iter().all(|key| !key));
}

#[test]
fn new_machine_holds_the_font() {
    let machine = Chip8::new();
    assert_eq!(&machine.memory()[..80], &FONT[..]);
    assert_eq!(&machine.memory()[0..5], &[0xF0, 0x90, 0x90, 0x90, 0xF0]);
    assert_eq!(&machine.memory()[5..10], &[0x20, 0x60, 0x20, 0x20, 0x70]);
    assert_eq!(&machine.memory()[75..80], &[0xF0, 0x80, 0xF0, 0x80, 0x80]);
    assert!(machine.memory()[80..].iter().all(|byte| *byte == 0));
}

#[test]
fn load_copies_the_image_and_sets_the_program_counter() {
    let mut machine = Chip8::new();
    assert_eq!(machine.load(&[0x12, 0x34, 0x56]), Ok(()));
    assert_eq!(machine.pc(), 0x200);
    assert_eq!(&machine.memory()[0x200..0x203], &[0x12, 0x34, 0x56]);
    assert_eq!(machine.memory()[0x203], 0);
    assert_eq!(machine.memory()[0x1FF], 0);
    assert_eq!(&machine.memory()[..80], &FONT[..]);
}

#[test]
fn load_accepts_an_empty_image() {
    let mut machine = Chip8::new();
    assert_eq!(machine.load(&[]), Ok(()));
    assert_eq!(machine.pc(), 0x200);
    assert!(machine.memory()[0x200..].iter().all(|byte| *byte == 0));
}

#[test]
fn load_accepts_the_largest_image() {
    let image = vec![0xAB; 3583];
    let mut machine = Chip8::new();
    assert_eq!(machine.load(&image), Ok(()));
    assert_eq!(machine.pc(), 0x200);
    assert!(machine.memory()[0x200..0xFFF].iter().all(|byte| *byte == 0xAB));
    assert_eq!(machine.memory()[0xFFF], 0);
}

#[test]
fn load_refuses_an_image_one_byte_too_large() {
    let mut machine = machine_with(&[0x60, 0x07]);
    run(&mut machine, 1);
    let memory_before = *machine.memory();
    let image = vec![0xAB; 3584];
    assert_eq!(machine.load(&image), Err(Error::RomTooLarge(3584)));
    assert_eq!(machine.pc(), 0x202);
    assert_eq!(machine.registers()[0], 7);
    assert_eq!(machine.memory(), &memory_before);
}

#[test]
fn load_refuses_a_much_larger_image() {
    let mut machine = Chip8::new();
    let image = vec![0; 10_000];
    assert_eq!(machine.load(&image), Err(Error::RomTooLarge(10_000)));
    assert_eq!(machine.pc(), 0);
}

#[test]
fn load_again_keeps_registers_and_stack() {
    // call 0x204; there: V3 := 9
    let mut machine = machine_with(&[0x22, 0x04, 0x00, 0x00, 0x63, 0x09]);
    run(&mut machine, 2);
    assert_eq!(machine.stack_depth(), 1);
    assert_eq!(machine.load(&[0xFF]), Ok(()));
    assert_eq!(machine.pc(), 0x200);
    assert_eq!(machine.registers()[3], 9);
    assert_eq!(machine.stack_depth(), 1);
    assert_eq!(machine.return_address(0), Some(0x202));
    // the shorter image leaves the rest of the longer one in place
    assert_eq!(&machine.memory()[0x200..0x206], &[0xFF, 0x04, 0x00, 0x00, 0x63, 0x09]);
}

#[test]
fn timer_counts_both_timers_down_to_zero() {
    // V0 := 2; delay := V0; V1 := 1; sound := V1
    let mut machine = machine_with(&[0x60, 0x02, 0xF0, 0x15, 0x61, 0x01, 0xF1, 0x18]);
    run(&mut machine, 4);
    assert_eq!((machine.delay_timer(), machine.sound_timer()), (2, 1));
    machine.timer();
    assert_eq!((machine.delay_timer(), machine.sound_timer()), (1, 0));
    machine.timer();
    assert_eq!((machine.delay_timer(), machine.sound_timer()), (0, 0));
    machine.timer();
    assert_eq!((machine.delay_timer(), machine.sound_timer()), (0, 0));
}

#[test]
fn timer_touches_nothing_else() {
    let mut machine = machine_with(&[0x60, 0x09, 0xF0, 0x15]);
    run(&mut machine, 2);
    let memory = *machine.memory();
    machine.timer();
    assert_eq!(machine.pc(), 0x204);
    assert_eq!(machine.registers()[0], 9);
    assert_eq!(machine.memory(), &memory);
    assert_eq!(machine.delay_timer(), 8);
}

#[test]
fn cycle_before_load_reports_the_font_bytes_as_no_instruction() {
    let mut machine = Chip8::new();
    assert_eq!(
        machine.cycle(),
        Err(Error::IllegalState(Fault::UnknownOpcode(0xF090)))
    );
    assert_eq!(machine.pc(), 0);
}

#[test]
fn return_on_empty_stack_is_an_illegal_state() {
    let mut machine = machine_with(&[0x00, 0xEE]);
    assert_eq!(
        machine.cycle(),
        Err(Error::IllegalState(Fault::StackUnderflow))
    );
    assert_eq!(machine.pc(), 0x200);
    assert_eq!(machine.stack_depth(), 0);
}

#[test]
fn seventeenth_nested_call_is_an_illegal_state() {
    // 0x200: call 0x200, over and over
    let mut machine = machine_with(&[0x22, 0x00]);
    for depth in 0..16 {
        assert_eq!(machine.stack_depth(), depth);
        assert_eq!(machine.cycle(), Ok(()));
    }
    assert_eq!(machine.stack_depth(), 16);
    assert_eq!(machine.return_address(15), Some(0x202));
    assert_eq!(
        machine.cycle(),
        Err(Error::IllegalState(Fault::StackOverflow))
    );
    assert_eq!(machine.stack_depth(), 16);
    assert_eq!(machine.pc(), 0x200);
}

#[test]
fn unknown_words_are_reported_and_change_nothing() {
    for word in [0x0000u16, 0x00E1, 0x5011, 0x8008, 0x800F, 0x9001, 0xE000, 0xE09F, 0xF000, 0xFFFF]
    {
        let mut machine = machine_with(&[(word >> 8) as u8, word as u8]);
        assert_eq!(
            machine.cycle(),
            Err(Error::IllegalState(Fault::UnknownOpcode(word))),
            "word {word:#06X}"
        );
        assert_eq!(machine.pc(), 0x200);
    }
}

#[test]
fn running_off_the_end_of_memory_is_an_illegal_state() {
    // jump to 0xFFF, where only one byte is left
    let mut machine = machine_with(&[0x1F, 0xFF]);
    assert_eq!(machine.cycle(), Ok(()));
    assert_eq!(machine.pc(), 0xFFF);
    assert_eq!(
        machine.cycle(),
        Err(Error::IllegalState(Fault::PcOutOfBounds))
    );
    assert_eq!(machine.pc(), 0xFFF);
}

#[test]
fn last_instruction_slot_can_be_fetched() {
    // jump to 0xFFE, which holds zeros: fetched, then found to be no instruction
    let mut machine = machine_with(&[0x1F, 0xFE]);
    run(&mut machine, 1);
    assert_eq!(
        machine.cycle(),
        Err(Error::IllegalState(Fault::UnknownOpcode(0)))
    );
}

#[test]
fn memory_access_past_the_end_is_an_illegal_state() {
    // I := 0xFFF, then each of the instructions that touch memory at I
    for second in [[0xF0u8, 0x33], [0xF1, 0x55], [0xF1, 0x65], [0xD0, 0x02]] {
        let mut machine = machine_with(&[0xAF, 0xFF, second[0], second[1]]);
        run(&mut machine, 1);
        let memory = *machine.memory();
        assert_eq!(
            machine.cycle(),
            Err(Error::IllegalState(Fault::AddressOutOfBounds))
        );
        assert_eq!(machine.pc(), 0x202);
        assert_eq!(machine.memory(), &memory);
        assert_eq!(machine.registers(), &[0u8; 16]);
    }
}

#[test]
fn memory_access_up_to_the_end_is_fine() {
    // I := 0xFFF; store V0; load V0; draw one row
    let mut machine = machine_with(&[0xAF, 0xFF, 0xF0, 0x55, 0xF0, 0x65, 0xD0, 0x01]);
    run(&mut machine, 4);
    assert_eq!(machine.pc(), 0x208);
    // I := 0xFFD; store decimal
    let mut machine = machine_with(&[0xAF, 0xFD, 0x60, 0x7B, 0xF0, 0x33]);
    run(&mut machine, 3);
    assert_eq!(&machine.memory()[0xFFD..], &[1, 2, 3]);
}

#[test]
fn key_number_above_fifteen_is_an_illegal_state() {
    for second in [[0xE0u8, 0x9E], [0xE0, 0xA1]] {
        let mut machine = machine_with(&[0x60, 0x10, second[0], second[1]]);
        run(&mut machine, 1);
        assert_eq!(
            machine.cycle(),
            Err(Error::IllegalState(Fault::KeyOutOfRange))
        );
        assert_eq!(machine.pc(), 0x202);
    }
}

#[test]
fn random_instruction_stays_within_its_mask() {
    // V0 := random & 0x0F, jump back
    let mut machine = machine_with(&[0xC0, 0x0F, 0x12, 0x00]);
    for _ in 0..200 {
        assert_eq!(machine.cycle(), Ok(()));
        assert!(machine.registers()[0] <= 0x0F);
        assert_eq!(machine.cycle(), Ok(()));
    }
    // V1 := random & 0x00
    let mut machine = machine_with(&[0x61, 0xFF, 0xC1, 0x00]);
    assert_eq!(machine.cycle(), Ok(()));
    assert_eq!(machine.cycle(), Ok(()));
    assert_eq!(machine.registers()[1], 0);
}

#[test]
fn random_instruction_takes_the_byte_it_is_given() {
    let mut machine = machine_with(&[0xC0, 0x3C, 0xC1, 0xFF]);
    assert_eq!(machine.cycle_with(0xA5), Ok(()));
    assert_eq!(machine.registers()[0], 0xA5 & 0x3C);
    assert_eq!(machine.cycle_with(0x5A), Ok(()));
    assert_eq!(machine.registers()[1], 0x5A);
    assert_eq!(machine.registers()[15], 0);
}

#[test]
fn random_instruction_draws_more_than_one_value() {
    let mut machine = machine_with(&[0xC0, 0xFF, 0x12, 0x00]);
    let mut seen = [false; 256];
    for _ in 0..2000 {
        assert_eq!(machine.cycle(), Ok(()));
        seen[machine.registers()[0] as usize] = true;
        assert_eq!(machine.cycle(), Ok(()));
    }
    assert!(seen.iter().filter(|value| **value).count() > 100);
}

#[test]
fn other_instructions_ignore_the_byte_given() {
    let mut first = machine_with(&[0x60, 0x11, 0x70, 0x22, 0x80, 0x04]);
    let mut second = machine_with(&[0x60, 0x11, 0x70, 0x22, 0x80, 0x04]);
    for _ in 0..3 {
        assert_eq!(first.cycle_with(0x00), Ok(()));
        assert_eq!(second.cycle_with(0xFF), Ok(()));
    }
    assert_eq!(first.registers(), second.registers());
    assert_eq!(first.pc(), second.pc());
}

#[test]
fn tiny_program_as_encoded() {
    // 6005 8105 3205 00E0, read by the instruction table: V0 := 5;
    // V1 := V1 - V0; skip if V2 == 5.
    let mut machine = machine_with(&[0x60, 0x05, 0x81, 0x05, 0x32, 0x05, 0x00, 0xE0]);
    assert_eq!(machine.cycle(), Ok(()));
    assert_eq!(machine.cycle(), Ok(()));
    assert_eq!(machine.cycle(), Ok(()));
    assert_eq!(machine.registers()[0], 5);
    assert_eq!(machine.registers()[1], 251);
    assert_eq!(machine.registers()[2], 0);
    assert_eq!(machine.registers()[15], 0);
    assert_eq!(machine.pc(), 0x206);
    assert!(machine.display().iter().all(|pixel| !pixel));
}

#[test]
fn tiny_program_skips_the_clear() {
    // A sprite is drawn first, so that a clear would show. Then V0 := 5;
    // V1 := V0; skip if V0 == 5; clear screen.
    let mut machine = machine_with(&[
        0xA0, 0x00, 0xD0, 0x05, 0x60, 0x05, 0x81, 0x00, 0x30, 0x05, 0x00, 0xE0,
    ]);
    run(&mut machine, 2);
    let drawn = *machine.display();
    assert!(drawn.iter().any(|pixel| *pixel));
    run(&mut machine, 3);
    assert_eq!(machine.pc(), 0x20C);
    assert_eq!(machine.registers()[0], 5);
    assert_eq!(machine.registers()[1], 5);
    assert_eq!(machine.display(), &drawn);
}

#[test]
fn set_key_marks_one_key() {
    let mut machine = Chip8::new();
    assert!(machine.set_key(0xA, true));
    assert!(machine.keys()[0xA]);
    assert_eq!(machine.keys().iter().filter(|key| **key).count(), 1);
    assert!(machine.set_key(0xA, false));
    assert!(machine.keys().iter().all(|key| !key));
}

#[test]
fn set_key_knows_sixteen_keys() {
    let mut machine = Chip8::new();
    assert!(machine.set_key(15, true));
    assert!(!machine.set_key(16, true));
    assert!(!machine.set_key(255, true));
    assert_eq!(machine.keys().iter().filter(|key| **key).count(), 1);
}

#[test]
fn set_keys_replaces_the_latch() {
    let mut machine = Chip8::new();
    machine.set_key(1, true);
    let mut keys = [false; 16];
    keys[4] = true;
    keys[9] = true;
    machine.set_keys(keys);
    assert_eq!(machine.keys(), &keys);
}
