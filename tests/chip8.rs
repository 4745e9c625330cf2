use chip8::chip8::{Chip8Error, CHIP8};

fn machine(program: &[u8]) -> CHIP8 {
    let mut chip = CHIP8::new();
    chip.load(program).unwrap();
    chip
}

fn run(chip: &mut CHIP8, steps: usize) {
    for _ in 0..steps {
        chip.step().unwrap();
    }
}

#[test]
fn test_load() {
    let mut chip = CHIP8::new();
    let data: [u8; 4] = [1, 2, 3, 4];
    chip.load(&data).unwrap();
    for (i, &want) in data.iter().enumerate() {
        let got = match chip.memory().read(0x200 + i as u16) {
            Ok(read) => read,
            Err(_) => panic!("failed to read contents from memory"),
        };
        assert_eq!(want, got);
    }
}

#[test]
fn new_machine_starts_at_program_area() {
    let chip = CHIP8::new();
    assert_eq!(chip.pc(), 0x200);
    assert_eq!(chip.index(), 0);
    assert_eq!(chip.stack_depth(), 0);
    for x in 0..16 {
        assert_eq!(chip.register(x), 0);
    }
    assert!(!chip.awaiting_key());
    assert!(!chip.sound_active());
}

#[test]
fn load_that_does_not_fit_is_refused() {
    let mut chip = CHIP8::new();
    let full = vec![0xAB; 4096 - 0x200];
    assert!(chip.load(&full).is_ok());
    assert_eq!(chip.memory().read(4095), Ok(0xAB));
    let mut chip = CHIP8::new();
    let too_long = vec![0xCD; 4096 - 0x200 + 1];
    assert_eq!(chip.load(&too_long), Err(Chip8Error::AddressOutOfRange));
    assert_eq!(chip.memory().read(0x200), Ok(0));
}

#[test]
fn load_add_stop_end_to_end() {
    let mut chip = machine(&[0x60, 0x05, 0x70, 0x03, 0x00, 0x00]);
    run(&mut chip, 2);
    assert_eq!(chip.register(0), 8);
    assert_eq!(chip.pc(), 0x200 + 4);
    assert_eq!(chip.step(), Err(Chip8Error::UnknownOpcode(0x0000, 0x204)));
    assert_eq!(chip.pc(), 0x204);
}

#[test]
fn add_with_carry_sets_flag() {
    let mut chip = machine(&[0x61, 0xFF, 0x62, 0x01, 0x81, 0x24]);
    run(&mut chip, 3);
    assert_eq!(chip.register(1), 0x00);
    assert_eq!(chip.register(0xF), 1);
    let mut chip = machine(&[0x61, 0x10, 0x62, 0x01, 0x81, 0x24]);
    run(&mut chip, 3);
    assert_eq!(chip.register(1), 0x11);
    assert_eq!(chip.register(0xF), 0);
}

#[test]
fn sub_with_borrow_clears_flag() {
    let mut chip = machine(&[0x61, 0x01, 0x62, 0x02, 0x81, 0x25]);
    run(&mut chip, 3);
    assert_eq!(chip.register(1), 0xFF);
    assert_eq!(chip.register(0xF), 0);
    let mut chip = machine(&[0x61, 0x05, 0x62, 0x05, 0x81, 0x25]);
    run(&mut chip, 3);
    assert_eq!(chip.register(1), 0x00);
    assert_eq!(chip.register(0xF), 1);
    let mut chip = machine(&[0x61, 0x01, 0x62, 0x03, 0x81, 0x27]);
    run(&mut chip, 3);
    assert_eq!(chip.register(1), 0x02);
    assert_eq!(chip.register(0xF), 1);
}

#[test]
fn shifts_take_flag_from_shifted_out_bit() {
    let mut chip = machine(&[0x63, 0x81, 0x83, 0x06]);
    run(&mut chip, 2);
    assert_eq!(chip.register(3), 0x40);
    assert_eq!(chip.register(0xF), 1);
    let mut chip = machine(&[0x63, 0x81, 0x83, 0x0E]);
    run(&mut chip, 2);
    assert_eq!(chip.register(3), 0x02);
    assert_eq!(chip.register(0xF), 1);
    let mut chip = machine(&[0x63, 0x40, 0x83, 0x0E]);
    run(&mut chip, 2);
    assert_eq!(chip.register(3), 0x80);
    assert_eq!(chip.register(0xF), 0);
}

#[test]
fn add_immediate_wraps_without_flag() {
    let mut chip = machine(&[0x6F, 0x07, 0x64, 0xFE, 0x74, 0x03]);
    run(&mut chip, 3);
    assert_eq!(chip.register(4), 0x01);
    assert_eq!(chip.register(0xF), 0x07);
}

#[test]
fn bitwise_operations() {
    let mut chip = machine(&[0x61, 0x0C, 0x62, 0x0A, 0x81, 0x21]);
    run(&mut chip, 3);
    assert_eq!(chip.register(1), 0x0E);
    let mut chip = machine(&[0x61, 0x0C, 0x62, 0x0A, 0x81, 0x22]);
    run(&mut chip, 3);
    assert_eq!(chip.register(1), 0x08);
    let mut chip = machine(&[0x61, 0x0C, 0x62, 0x0A, 0x81, 0x23]);
    run(&mut chip, 3);
    assert_eq!(chip.register(1), 0x06);
    let mut chip = machine(&[0x62, 0x0A, 0x81, 0x20]);
    run(&mut chip, 2);
    assert_eq!(chip.register(1), 0x0A);
}

#[test]
fn plain_instructions_advance_pc_by_two() {
    let mut chip = machine(&[0x60, 0x01, 0xA1, 0x23, 0x00, 0xE0, 0xF0, 0x15]);
    for k in 1..=4 {
        chip.step().unwrap();
        assert_eq!(chip.pc(), 0x200 + 2 * k);
    }
    assert_eq!(chip.index(), 0x123);
    assert_eq!(chip.delay_timer(), 1);
}

#[test]
fn jumps_and_skips_set_pc_explicitly() {
    let mut chip = machine(&[0x13, 0x00]);
    chip.step().unwrap();
    assert_eq!(chip.pc(), 0x300);

    let mut chip = machine(&[0x60, 0x05, 0x30, 0x05]);
    run(&mut chip, 2);
    assert_eq!(chip.pc(), 0x206);
    let mut chip = machine(&[0x60, 0x05, 0x30, 0x06]);
    run(&mut chip, 2);
    assert_eq!(chip.pc(), 0x204);
    let mut chip = machine(&[0x60, 0x05, 0x40, 0x06]);
    run(&mut chip, 2);
    assert_eq!(chip.pc(), 0x206);
    let mut chip = machine(&[0x60, 0x05, 0x61, 0x05, 0x50, 0x10]);
    run(&mut chip, 3);
    assert_eq!(chip.pc(), 0x208);
    let mut chip = machine(&[0x60, 0x05, 0x61, 0x05, 0x90, 0x10]);
    run(&mut chip, 3);
    assert_eq!(chip.pc(), 0x206);

    let mut chip = machine(&[0x60, 0x10, 0xB3, 0x00]);
    run(&mut chip, 2);
    assert_eq!(chip.pc(), 0x310);
}

#[test]
fn call_and_return() {
    let mut chip = machine(&[0x22, 0x06, 0x00, 0x00, 0x00, 0x00, 0x00, 0xEE]);
    chip.step().unwrap();
    assert_eq!(chip.pc(), 0x206);
    assert_eq!(chip.stack_depth(), 1);
    chip.step().unwrap();
    assert_eq!(chip.pc(), 0x202);
    assert_eq!(chip.stack_depth(), 0);
}

#[test]
fn sixteen_calls_fit_and_the_seventeenth_overflows() {
    // each instruction calls the next one
    let mut program = Vec::new();
    for k in 0..17u16 {
        let target = 0x200 + 2 * (k + 1);
        program.push(0x20 | (target >> 8) as u8);
        program.push((target & 0xFF) as u8);
    }
    let mut chip = machine(&program);
    run(&mut chip, 16);
    assert_eq!(chip.stack_depth(), 16);
    assert_eq!(chip.pc(), 0x220);
    assert_eq!(chip.step(), Err(Chip8Error::StackOverflow));
    assert_eq!(chip.stack_depth(), 16);
    assert_eq!(chip.pc(), 0x220);
}

#[test]
fn return_on_empty_stack_underflows() {
    let mut chip = machine(&[0x00, 0xEE]);
    assert_eq!(chip.step(), Err(Chip8Error::StackUnderflow));
    assert_eq!(chip.pc(), 0x200);
}

#[test]
fn key_wait_holds_until_a_key_is_down() {
    let mut chip = machine(&[0xF5, 0x0A, 0x00, 0xE0]);
    for _ in 0..5 {
        chip.step().unwrap();
        assert_eq!(chip.pc(), 0x200);
        assert!(chip.awaiting_key());
    }
    chip.press_key(0xB);
    chip.press_key(0xC);
    chip.step().unwrap();
    assert_eq!(chip.pc(), 0x202);
    assert_eq!(chip.register(5), 0xB);
    assert!(!chip.awaiting_key());
    chip.release_key(0xB);
    assert_eq!(chip.keypad(), 1 << 0xC);
}

#[test]
fn key_skips_read_the_keypad() {
    let mut chip = machine(&[0x63, 0x04, 0xE3, 0x9E]);
    chip.set_keypad(1 << 4);
    run(&mut chip, 2);
    assert_eq!(chip.pc(), 0x206);
    let mut chip = machine(&[0x63, 0x04, 0xE3, 0xA1]);
    chip.set_keypad(1 << 4);
    run(&mut chip, 2);
    assert_eq!(chip.pc(), 0x204);
    let mut chip = machine(&[0x63, 0x14, 0xE3, 0x9E]);
    chip.set_keypad(0xFFFF);
    run(&mut chip, 2);
    assert_eq!(chip.pc(), 0x204);
}

#[test]
fn timers_tick_down_to_zero() {
    let mut chip = machine(&[0x60, 0x02, 0xF0, 0x15, 0x61, 0x01, 0xF1, 0x18, 0xF2, 0x07]);
    run(&mut chip, 4);
    assert_eq!(chip.delay_timer(), 2);
    assert_eq!(chip.sound_timer(), 1);
    assert!(chip.sound_active());
    chip.tick();
    assert_eq!(chip.delay_timer(), 1);
    assert_eq!(chip.sound_timer(), 0);
    assert!(!chip.sound_active());
    chip.step().unwrap();
    assert_eq!(chip.register(2), 1);
    chip.tick();
    chip.tick();
    assert_eq!(chip.delay_timer(), 0);
    assert_eq!(chip.sound_timer(), 0);
}

#[test]
fn index_register_keeps_twelve_bits_and_wraps_at_sixteen() {
    let mut chip = machine(&[0xAF, 0xFE, 0x60, 0x03, 0xF0, 0x1E]);
    run(&mut chip, 3);
    assert_eq!(chip.index(), 0x1001);
}

#[test]
fn font_glyph_address() {
    let mut chip = machine(&[0x60, 0x0A, 0xF0, 0x29]);
    run(&mut chip, 2);
    assert_eq!(chip.index(), 50);
    assert_eq!(chip.memory().read(50), Ok(0xF0));
}

#[test]
fn bcd_and_register_blocks() {
    let mut chip = machine(&[
        0x60, 0xFE, 0xA3, 0x00, 0xF0, 0x33, // 254 -> [2, 5, 4]
        0x61, 0x11, 0x62, 0x22, 0xA3, 0x10, 0xF2, 0x55, // V0..V2 -> 0x310
        0x60, 0x00, 0x61, 0x00, 0x62, 0x00, 0xA3, 0x00, 0xF2, 0x65, // V0..V2 <- 0x300
    ]);
    run(&mut chip, 3);
    assert_eq!(chip.memory().read(0x300), Ok(2));
    assert_eq!(chip.memory().read(0x301), Ok(5));
    assert_eq!(chip.memory().read(0x302), Ok(4));
    run(&mut chip, 4);
    assert_eq!(chip.memory().read(0x310), Ok(0xFE));
    assert_eq!(chip.memory().read(0x311), Ok(0x11));
    assert_eq!(chip.memory().read(0x312), Ok(0x22));
    assert_eq!(chip.memory().read(0x313), Ok(0));
    run(&mut chip, 5);
    assert_eq!(chip.register(0), 2);
    assert_eq!(chip.register(1), 5);
    assert_eq!(chip.register(2), 4);
}

#[test]
fn block_past_memory_end_is_refused() {
    let mut chip = machine(&[0xAF, 0xFE, 0xF0, 0x33]);
    chip.step().unwrap();
    assert_eq!(chip.step(), Err(Chip8Error::AddressOutOfRange));
    assert_eq!(chip.pc(), 0x202);
    assert_eq!(chip.memory().read(0xFFE), Ok(0));
}

#[test]
fn draw_sets_collision_flag() {
    // draw glyph 0 at (0, 0) twice
    let mut chip = machine(&[0xA0, 0x00, 0xD0, 0x05, 0xD0, 0x05, 0x00, 0xE0]);
    run(&mut chip, 2);
    assert_eq!(chip.register(0xF), 0);
    assert!(chip.display().pixel(0, 0));
    assert!(chip.display().pixel(3, 1));
    assert!(!chip.display().pixel(1, 1));
    chip.step().unwrap();
    assert_eq!(chip.register(0xF), 1);
    assert!(chip.display().pixels().iter().all(|&p| !p));
    chip.step().unwrap();
    assert_eq!(chip.pc(), 0x208);
}

#[test]
fn random_byte_is_masked() {
    let mut chip = machine(&[0xC4, 0x0F, 0xC5, 0x00]);
    chip.step_with(0xAB).unwrap();
    assert_eq!(chip.register(4), 0x0B);
    chip.step().unwrap();
    assert_eq!(chip.register(5), 0);
    assert_eq!(chip.pc(), 0x204);
}

#[test]
fn fetch_past_memory_end_fails() {
    let mut chip = machine(&[0x60, 0x00, 0xBF, 0xFF]);
    run(&mut chip, 2);
    assert_eq!(chip.pc(), 0xFFF);
    assert_eq!(chip.fetch_opcode(), Err(Chip8Error::AddressOutOfRange));
    assert_eq!(chip.step(), Err(Chip8Error::AddressOutOfRange));
}
