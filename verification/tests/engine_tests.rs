use chip8_emu::keymap::key_index_for_char;
use chip8_emu::vm::Chip8;
use chip8_emu::Chip8Error;

fn pixel(chip8: &Chip8, x: usize, y: usize) -> bool {
    chip8.display.screen[y * 64 + x]
}

#[test]
fn oversize_program_is_rejected() {
    let mut chip8 = Chip8::new_and_init();
    let rom = vec![0x77u8; 3585];
    let result = chip8.load_rom(&rom);
    assert_eq!(Err(Chip8Error::OversizeProgram), result);
    // Nothing of the image was loaded.
    assert_eq!(0, chip8.memory.ram[0x200]);

    // One byte less fits exactly.
    let rom = vec![0x77u8; 3584];
    assert_eq!(Ok(()), chip8.load_rom(&rom));
    assert_eq!(0x77, chip8.memory.ram[0x200]);
    assert_eq!(0x77, chip8.memory.ram[4095]);
}

#[test]
fn pc_out_of_bounds_is_fatal_and_leaves_machine_unchanged() {
    let mut chip8 = Chip8::new_and_init();
    chip8.registers.pc = 4095;
    let result = chip8.execute_next_opcode();
    assert_eq!(Err(Chip8Error::PcOutOfBounds), result);
    assert_eq!(4095, chip8.registers.pc);
}

#[test]
fn return_with_empty_stack_is_fatal() {
    let mut chip8 = Chip8::new_and_init();
    chip8.memory.ram[0x200] = 0x00;
    chip8.memory.ram[0x201] = 0xEE;
    assert_eq!(Err(Chip8Error::StackUnderflow), chip8.execute_next_opcode());
    assert_eq!(0x200, chip8.registers.pc);
}

#[test]
fn call_with_full_stack_is_fatal() {
    let mut chip8 = Chip8::new_and_init();
    chip8.stack.sp = 16;
    chip8.memory.ram[0x200] = 0x23;
    chip8.memory.ram[0x201] = 0x00;
    assert_eq!(Err(Chip8Error::StackOverflow), chip8.execute_next_opcode());
    assert_eq!(0x200, chip8.registers.pc);
    assert_eq!(16, chip8.stack.sp);
}

#[test]
fn sprite_read_past_memory_end_is_fatal() {
    let mut chip8 = Chip8::new_and_init();
    chip8.memory.ram[0x200] = 0xD0;
    chip8.memory.ram[0x201] = 0x18;
    chip8.registers.i = 4090;
    assert_eq!(Err(Chip8Error::AddressOutOfBounds), chip8.execute_next_opcode());
    assert_eq!(0x200, chip8.registers.pc);
}

#[test]
fn bcd_write_past_memory_end_is_fatal() {
    let mut chip8 = Chip8::new_and_init();
    chip8.memory.ram[0x200] = 0xF0;
    chip8.memory.ram[0x201] = 0x33;
    chip8.registers.i = 4094;
    assert_eq!(Err(Chip8Error::AddressOutOfBounds), chip8.execute_next_opcode());
}

#[test]
fn register_spill_past_memory_end_is_fatal() {
    let mut chip8 = Chip8::new_and_init();
    chip8.memory.ram[0x200] = 0xF4;
    chip8.memory.ram[0x201] = 0x55;
    chip8.registers.i = 4094;
    assert_eq!(Err(Chip8Error::AddressOutOfBounds), chip8.execute_next_opcode());
}

#[test]
fn key_test_with_bad_register_value_is_fatal() {
    let mut chip8 = Chip8::new_and_init();
    chip8.memory.ram[0x200] = 0xEA;
    chip8.memory.ram[0x201] = 0x9E;
    chip8.registers.v[0xA] = 16;
    assert_eq!(Err(Chip8Error::KeyOutOfRange), chip8.execute_next_opcode());
}

#[test]
fn unknown_opcodes_are_silent_no_ops() {
    let mut chip8 = Chip8::new_and_init();
    // 0x0123 is neither clear nor return; 0x8xyA is an unknown ALU form;
    // 0xE and 0xF forms with unused low bytes are skipped over too.
    chip8.memory.ram[0x200] = 0x01;
    chip8.memory.ram[0x201] = 0x23;
    chip8.memory.ram[0x202] = 0x8A;
    chip8.memory.ram[0x203] = 0xBA;
    chip8.memory.ram[0x204] = 0xEA;
    chip8.memory.ram[0x205] = 0x55;
    chip8.memory.ram[0x206] = 0xF0;
    chip8.memory.ram[0x207] = 0x99;
    for _ in 0..4 {
        assert_eq!(Ok(()), chip8.execute_next_opcode());
    }
    assert_eq!(0x208, chip8.registers.pc);
    assert_eq!(0, chip8.registers.v[0xA]);
}

#[test]
fn clear_screen_clears_every_cell_and_sets_dirty_flag() {
    let mut chip8 = Chip8::new_and_init();
    for p in 0..(64 * 32) {
        chip8.display.screen[p] = true;
    }
    chip8.memory.ram[0x200] = 0x00;
    chip8.memory.ram[0x201] = 0xE0;
    chip8.execute_next_opcode().unwrap();
    for p in 0..(64 * 32) {
        assert_eq!(false, chip8.display.screen[p]);
    }
    assert_eq!(true, chip8.display.needs_draw);
}

#[test]
fn draw_sets_dirty_flag() {
    let mut chip8 = Chip8::new_and_init();
    chip8.memory.ram[0x200] = 0xD0;
    chip8.memory.ram[0x201] = 0x10;
    chip8.execute_next_opcode().unwrap();
    assert_eq!(true, chip8.display.needs_draw);
}

#[test]
fn call_then_return_restores_stack_pointer() {
    let mut chip8 = Chip8::new_and_init();
    chip8.memory.ram[0x200] = 0x2B;
    chip8.memory.ram[0x201] = 0x00;
    chip8.memory.ram[0xB00] = 0x00;
    chip8.memory.ram[0xB01] = 0xEE;
    chip8.execute_next_opcode().unwrap();
    assert_eq!(1, chip8.stack.sp);
    chip8.execute_next_opcode().unwrap();
    assert_eq!(0x202, chip8.registers.pc);
    assert_eq!(0, chip8.stack.sp);
}

#[test]
fn spill_then_load_round_trips_registers() {
    let mut chip8 = Chip8::new_and_init();
    for r in 0..16 {
        chip8.registers.v[r] = (40 + r) as u8;
    }
    chip8.registers.i = 0x700;
    chip8.memory.ram[0x200] = 0xF7;
    chip8.memory.ram[0x201] = 0x55;
    chip8.memory.ram[0x202] = 0xF7;
    chip8.memory.ram[0x203] = 0x65;
    chip8.execute_next_opcode().unwrap();
    assert_eq!(0x700, chip8.registers.i);
    // Scramble the spilled registers, then load them back.
    for r in 0..8 {
        chip8.registers.v[r] = 0;
    }
    chip8.execute_next_opcode().unwrap();
    assert_eq!(0x700, chip8.registers.i);
    for r in 0..16 {
        assert_eq!((40 + r) as u8, chip8.registers.v[r]);
    }
}

#[test]
fn timers_decrement_by_one_and_stop_at_zero() {
    let mut chip8 = Chip8::new_and_init();
    chip8.timers.delay_timer = 2;
    chip8.timers.sound_timer = 1;
    assert_eq!(true, chip8.should_play_sound());
    chip8.update_timers();
    assert_eq!(1, chip8.timers.delay_timer);
    assert_eq!(0, chip8.timers.sound_timer);
    assert_eq!(false, chip8.should_play_sound());
    chip8.update_timers();
    assert_eq!(0, chip8.timers.delay_timer);
    assert_eq!(0, chip8.timers.sound_timer);
    // Ticking an already-zero timer is a no-op; it never goes below zero.
    chip8.update_timers();
    assert_eq!(0, chip8.timers.delay_timer);
    assert_eq!(0, chip8.timers.sound_timer);
}

#[test]
fn set_key_state_mutates_the_latch() {
    let mut chip8 = Chip8::new_and_init();
    chip8.set_key_state(0xB, true);
    assert_eq!(true, chip8.input.keys[0xB]);
    chip8.set_key_state(0xB, false);
    assert_eq!(false, chip8.input.keys[0xB]);
}

#[test]
fn screen_ref_views_the_framebuffer() {
    let mut chip8 = Chip8::new_and_init();
    chip8.memory.ram[0x200] = 0xD0;
    chip8.memory.ram[0x201] = 0x01;
    chip8.registers.i = 0x50;
    chip8.execute_next_opcode().unwrap();
    // The first font row of the glyph "0" is 0b11110000.
    let screen = chip8.get_screen_ref();
    assert_eq!(true, screen[0]);
    assert_eq!(true, screen[3]);
    assert_eq!(false, screen[4]);
    assert_eq!(pixel(&chip8, 0, 0), chip8.get_screen_ref()[0]);
}

#[test]
fn wait_key_reports_lowest_held_key() {
    let mut chip8 = Chip8::new_and_init();
    chip8.memory.ram[0x200] = 0xF3;
    chip8.memory.ram[0x201] = 0x0A;
    for _ in 0..10 {
        chip8.execute_next_opcode().unwrap();
        assert_eq!(0x200, chip8.registers.pc);
    }
    chip8.input.keys[0xE] = true;
    chip8.input.keys[0x2] = true;
    chip8.input.keys[0x9] = true;
    chip8.execute_next_opcode().unwrap();
    assert_eq!(0x202, chip8.registers.pc);
    assert_eq!(0x2, chip8.registers.v[3]);
}

#[test]
fn glyph_addresses_step_by_five() {
    let mut chip8 = Chip8::new_and_init();
    for digit in 0..16u16 {
        chip8.registers.pc = 0x200;
        chip8.memory.ram[0x200] = 0xF1;
        chip8.memory.ram[0x201] = 0x29;
        chip8.registers.v[1] = digit as u8;
        chip8.execute_next_opcode().unwrap();
        assert_eq!(0x50 + 5 * digit, chip8.registers.i);
    }
}

#[test]
fn bcd_decomposes_boundary_values() {
    let mut chip8 = Chip8::new_and_init();
    for (value, digits) in [(0u8, [0u8, 0, 0]), (9, [0, 0, 9]), (10, [0, 1, 0]), (255, [2, 5, 5])] {
        chip8.registers.pc = 0x200;
        chip8.memory.ram[0x200] = 0xF2;
        chip8.memory.ram[0x201] = 0x33;
        chip8.registers.v[2] = value;
        chip8.registers.i = 0x600;
        chip8.execute_next_opcode().unwrap();
        assert_eq!(digits[0], chip8.memory.ram[0x600]);
        assert_eq!(digits[1], chip8.memory.ram[0x601]);
        assert_eq!(digits[2], chip8.memory.ram[0x602]);
    }
}

#[test]
fn keyboard_characters_map_onto_the_key_matrix() {
    assert_eq!(Some(0x1), key_index_for_char('1'));
    assert_eq!(Some(0x2), key_index_for_char('2'));
    assert_eq!(Some(0x3), key_index_for_char('3'));
    assert_eq!(Some(0xC), key_index_for_char('4'));
    assert_eq!(Some(0x4), key_index_for_char('q'));
    assert_eq!(Some(0x5), key_index_for_char('w'));
    assert_eq!(Some(0x6), key_index_for_char('e'));
    assert_eq!(Some(0xD), key_index_for_char('r'));
    assert_eq!(Some(0x7), key_index_for_char('a'));
    assert_eq!(Some(0x8), key_index_for_char('s'));
    assert_eq!(Some(0x9), key_index_for_char('d'));
    assert_eq!(Some(0xE), key_index_for_char('f'));
    assert_eq!(Some(0xA), key_index_for_char('z'));
    assert_eq!(Some(0x0), key_index_for_char('x'));
    assert_eq!(Some(0xB), key_index_for_char('c'));
    assert_eq!(Some(0xF), key_index_for_char('v'));
    assert_eq!(None, key_index_for_char('g'));
}

#[test]
fn add_with_carry_at_the_boundary() {
    let mut chip8 = Chip8::new_and_init();
    // 255 + 1 wraps to 0 with the carry flag raised.
    chip8.memory.ram[0x200] = 0x80;
    chip8.memory.ram[0x201] = 0x14;
    chip8.registers.v[0] = 255;
    chip8.registers.v[1] = 1;
    chip8.execute_next_opcode().unwrap();
    assert_eq!(0, chip8.registers.v[0]);
    assert_eq!(1, chip8.registers.v[0xF]);
}

#[test]
fn subtract_of_equal_values_reports_no_borrow() {
    let mut chip8 = Chip8::new_and_init();
    // 0x40 - 0x40 is 0, and no borrow occurs when the operands are equal.
    chip8.memory.ram[0x200] = 0x80;
    chip8.memory.ram[0x201] = 0x15;
    chip8.registers.v[0] = 0x40;
    chip8.registers.v[1] = 0x40;
    chip8.execute_next_opcode().unwrap();
    assert_eq!(0, chip8.registers.v[0]);
    assert_eq!(1, chip8.registers.v[0xF]);
}
