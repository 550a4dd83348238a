use chip8_emulator::chip8::emulated_memory::FONT_SET;
use chip8_emulator::chip8::LoadError;
use chip8_emulator::compact::Chip8;

#[test]
fn test_chip8_default_init() {
    let chip8_debug = Chip8::new();

    assert_eq!(chip8_debug.pc, 0x200);

    assert_eq!(chip8_debug.stack_pointer, 0);
    assert_eq!(chip8_debug.sound_timer, 0);
    assert_eq!(chip8_debug.delay_timer, 0);
    assert_eq!(chip8_debug.i, 0);
    assert_eq!(chip8_debug.opcode, 0);
    assert_eq!(chip8_debug.draw_flag, false);

    assert_eq!(&chip8_debug.memory[0x50..0xA0], &FONT_SET[..]);
    assert!(chip8_debug.memory[..0x50].iter().all(|&byte| byte == 0));
    assert!(chip8_debug.memory[0xA0..].iter().all(|&byte| byte == 0));
    assert!(chip8_debug.display.iter().all(|&byte| byte == 0));
    assert!(chip8_debug.key.iter().all(|&byte| byte == 0));
    assert!(chip8_debug.v.iter().all(|&byte| byte == 0));
    assert!(chip8_debug.stack.iter().all(|&byte| byte == 0));
}

#[test]
fn test_load_program_ok() {
    let program_as_bytes: Vec<u8> = vec![
        0x6A, 0x02, 0x6B, 0x0C, 0x6C, 0x3F, 0x6D, 0x0C, 0xA2, 0xEA, 0xDA, 0xB6, 0xDC, 0xD6,
    ];
    let mut chip8_debug = Chip8::new();
    let result = chip8_debug.load_program(&program_as_bytes);

    assert!(result.is_ok());

    let slice_as_vec = chip8_debug.memory[0x200..0x200 + program_as_bytes.len()].to_vec();

    assert_eq!(program_as_bytes, slice_as_vec);

    let fontset = vec![
        0xF0, 0x90, 0x90, 0x90, 0xF0, 0x20, 0x60, 0x20, 0x20, 0x70, 0xF0, 0x10, 0xF0, 0x80,
        0xF0, 0xF0, 0x10, 0xF0, 0x10, 0xF0, 0x90, 0x90, 0xF0, 0x10, 0x10, 0xF0, 0x80, 0xF0,
        0x10, 0xF0, 0xF0, 0x80, 0xF0, 0x90, 0xF0, 0xF0, 0x10, 0x20, 0x40, 0x40, 0xF0, 0x90,
        0xF0, 0x90, 0xF0, 0xF0, 0x90, 0xF0, 0x10, 0xF0, 0xF0, 0x90, 0xF0, 0x90, 0x90, 0xE0,
        0x90, 0xE0, 0x90, 0xE0, 0xF0, 0x80, 0x80, 0x80, 0xF0, 0xE0, 0x90, 0x90, 0x90, 0xE0,
        0xF0, 0x80, 0xF0, 0x80, 0xF0, 0xF0, 0x80, 0xF0, 0x80, 0x80,
    ];
    let slice_as_vec = chip8_debug.memory[0x50..0x50 + 80].to_vec();

    assert_eq!(fontset, slice_as_vec);
}

#[test]
fn test_emulate_cycle() {
    let mut chip8_debug = Chip8::new();
    chip8_debug.load_program(&[0x6A, 0x02, 0x6B, 0x0C]).unwrap();

    let mut old_pc = chip8_debug.pc;

    chip8_debug.emulate_cycle();
    assert_eq!(chip8_debug.opcode, 0x6A02);
    assert_eq!(chip8_debug.pc, old_pc + 2);

    old_pc = chip8_debug.pc;
    chip8_debug.emulate_cycle();
    assert_eq!(chip8_debug.opcode, 0x6B0C);
    assert_eq!(chip8_debug.pc, old_pc + 2);
}

#[test]
fn test_clear_screen() {
    let mut chip8_debug = Chip8::new();

    chip8_debug.display.iter_mut().step_by(4).for_each(|byte| *byte += 2);
    assert!(!chip8_debug.display.iter().all(|&byte| byte == 0));

    chip8_debug.clear_screen();
    assert!(chip8_debug.display.iter().all(|&byte| byte == 0));
}

#[test]
fn test_jump_to_address() {
    let mut chip8_debug = Chip8::new();

    let new_address = 0xFFF;
    chip8_debug.pc = chip8_debug.jump_to_address(0xFFF);
    assert_eq!(chip8_debug.pc, new_address);

    let new_address = 0x0000;
    chip8_debug.pc = chip8_debug.jump_to_address(0x0000);
    assert_eq!(chip8_debug.pc, new_address);
}

#[test]
fn test_call_and_return_from_subroutine() {
    let mut chip8_debug = Chip8::new();

    let old_sp = chip8_debug.stack_pointer;
    let old_pc = chip8_debug.pc;

    assert_eq!(chip8_debug.call_address(0xABC), 0xABC);
    assert_eq!(chip8_debug.stack_pointer, old_sp + 1);

    let old_sp = chip8_debug.stack_pointer;

    assert_eq!(chip8_debug.return_from_subroutine(), old_pc);
    assert_eq!(chip8_debug.stack_pointer, old_sp - 1);
}

#[test]
fn test_skip_if_equal_and_different() {
    let mut chip8_debug = Chip8::new();

    chip8_debug.pc = chip8_debug.jump_to_address(0x200 + 0xabc);

    let old_pc = chip8_debug.pc;
    chip8_debug.pc = chip8_debug.skip_if_equal(0x300, 0x300);
    assert_eq!(chip8_debug.pc, old_pc + 4);

    let old_pc = chip8_debug.pc;
    chip8_debug.pc = chip8_debug.skip_if_equal(0x300, 0x200);
    assert_eq!(chip8_debug.pc, old_pc + 2);

    let old_pc = chip8_debug.pc;
    chip8_debug.pc = chip8_debug.skip_if_diff(0x300, 0x200);
    assert_eq!(chip8_debug.pc, old_pc + 4);

    let old_pc = chip8_debug.pc;
    chip8_debug.pc = chip8_debug.skip_if_diff(0x300, 0x300);
    assert_eq!(chip8_debug.pc, old_pc + 2);
}

#[test]
fn test_register_insert_add_operations() {
    let mut chip8_debug = Chip8::new();

    chip8_debug.insert_on_register(0x05, 0x00FF);
    assert_eq!(chip8_debug.v[5], 255);

    chip8_debug.add_to_register(0x04, 0x00FA);
    assert_eq!(chip8_debug.v[4], 0x00FA);

    chip8_debug.add_to_register(0x04, 0x0001);
    assert_eq!(chip8_debug.v[4], 0x00FB);

    chip8_debug.insert_on_register(0x0000, 0x0001);
}

fn machine_with(program: &[u8]) -> Chip8 {
    let mut chip8 = Chip8::new();
    chip8.load_program(program).unwrap();
    chip8
}

#[test]
fn compact_load_places_program_and_font() {
    let program = [0x6A, 0x02, 0x6B, 0x0C, 0x6C, 0x3F, 0x6D, 0x0C];
    let chip8 = machine_with(&program);

    assert_eq!(&chip8.memory[0x200..0x200 + program.len()], &program[..]);
    assert_eq!(&chip8.memory[0x50..0x50 + 80], &FONT_SET[..]);
    assert!(chip8.memory[..0x50].iter().all(|&byte| byte == 0));
    assert!(chip8.memory[0xA0..0x200].iter().all(|&byte| byte == 0));
    assert!(chip8.memory[0x208..].iter().all(|&byte| byte == 0));
    assert_eq!(chip8.pc, 0x200);
}

#[test]
fn compact_load_accepts_a_program_that_fills_memory() {
    let program = vec![0xAB; 3584];
    let chip8 = machine_with(&program);

    assert_eq!(chip8.memory[0x200], 0xAB);
    assert_eq!(chip8.memory[4095], 0xAB);
}

#[test]
fn compact_load_refuses_a_program_that_is_too_large() {
    let program = vec![0xAB; 3585];
    let mut chip8 = Chip8::new();

    assert_eq!(chip8.load_program(&program), Err(LoadError::ProgramTooLarge));
    assert_eq!(chip8.memory, Chip8::new().memory);
    assert!(chip8.memory[0x200..].iter().all(|&byte| byte == 0));
    assert_eq!(chip8.pc, 0x200);
}

#[test]
fn compact_two_loads_leave_registers_set_and_counter_four_further() {
    let mut chip8 = machine_with(&[0x6A, 0x02, 0x6B, 0x0C]);
    let start = chip8.pc;

    assert!(chip8.is_runnable());
    chip8.emulate_cycle();
    assert!(chip8.is_runnable());
    chip8.emulate_cycle();

    assert_eq!(chip8.v[10], 2);
    assert_eq!(chip8.v[11], 12);
    assert_eq!(chip8.pc, start + 4);
}

#[test]
fn compact_add_twice_is_one_add_of_the_wrapped_sum() {
    for &(start, a, b) in &[(0u8, 5u16, 7u16), (250, 10, 20), (1, 255, 255), (77, 0, 0)] {
        let mut twice = Chip8::new();
        twice.v[3] = start;
        twice.add_to_register(3, a);
        twice.add_to_register(3, b);

        let mut once = Chip8::new();
        once.v[3] = start;
        once.add_to_register(3, (a + b) % 256);

        assert_eq!(twice.v, once.v);
    }
    let mut chip8 = Chip8::new();
    chip8.v[3] = 250;
    chip8.add_to_register(3, 10);
    chip8.add_to_register(3, 20);
    assert_eq!(chip8.v[3], 24);
    assert_eq!(chip8.v[0xF], 0);
}

#[test]
fn compact_carry_add_sets_the_flag_on_overflow_only() {
    let mut chip8 = Chip8::new();
    chip8.v[1] = 250;
    chip8.v[2] = 10;
    assert_eq!(chip8.register_carry_add(1, 2), 0x202);
    assert_eq!(chip8.v[1], 4);
    assert_eq!(chip8.v[0xF], 1);

    chip8.v[1] = 10;
    chip8.v[2] = 20;
    chip8.register_carry_add(1, 2);
    assert_eq!(chip8.v[1], 30);
    assert_eq!(chip8.v[0xF], 0);
}

#[test]
fn compact_subtractions_wrap_and_report_the_greater_operand() {
    let mut chip8 = Chip8::new();
    chip8.v[1] = 20;
    chip8.v[2] = 10;
    chip8.register_borrow_sub(1, 2);
    assert_eq!(chip8.v[1], 10);
    assert_eq!(chip8.v[0xF], 1);

    chip8.v[1] = 10;
    chip8.v[2] = 20;
    chip8.register_borrow_sub(1, 2);
    assert_eq!(chip8.v[1], 246);
    assert_eq!(chip8.v[0xF], 0);

    chip8.v[1] = 10;
    chip8.v[2] = 20;
    chip8.register_sub_rev(1, 2);
    assert_eq!(chip8.v[1], 10);
    assert_eq!(chip8.v[0xF], 1);

    chip8.v[1] = 7;
    chip8.v[2] = 7;
    chip8.register_sub_rev(1, 2);
    assert_eq!(chip8.v[1], 0);
    assert_eq!(chip8.v[0xF], 0);
}

#[test]
fn compact_shifts_move_the_lost_bit_into_the_flag() {
    let mut chip8 = Chip8::new();
    chip8.v[4] = 0b1000_0011;
    chip8.register_shr_1(4);
    assert_eq!(chip8.v[4], 0b0100_0001);
    assert_eq!(chip8.v[0xF], 1);

    chip8.v[4] = 0b1000_0110;
    chip8.register_shr_1(4);
    assert_eq!(chip8.v[4], 0b0100_0011);
    assert_eq!(chip8.v[0xF], 0);

    chip8.v[4] = 0b1000_0011;
    chip8.register_shl_1(4);
    assert_eq!(chip8.v[4], 0b0000_0110);
    assert_eq!(chip8.v[0xF], 1);
}

#[test]
fn compact_logic_handlers_combine_bits() {
    let mut chip8 = Chip8::new();
    chip8.v[1] = 0b0111_0011;
    chip8.v[2] = 0b0100_1010;
    chip8.register_or(1, 2);
    assert_eq!(chip8.v[1], 0b0111_1011);

    chip8.v[1] = 0b0111_0011;
    chip8.register_and(1, 2);
    assert_eq!(chip8.v[1], 0b0100_0010);

    chip8.v[1] = 0b0111_0011;
    chip8.register_xor(1, 2);
    assert_eq!(chip8.v[1], 0b0011_1001);
    assert_eq!(chip8.v[0xF], 0);
}

#[test]
fn compact_mask_keeps_only_the_bits_of_the_mask() {
    let mut chip8 = Chip8::new();
    assert_eq!(chip8.register_mask(3, 0b1010_1010, 0x0F), 0x202);
    assert_eq!(chip8.v[3], 0b0000_1010);

    chip8.register_mask(3, 0xFF, 0x1F0);
    assert_eq!(chip8.v[3], 0xF0);

    for _ in 0..32 {
        chip8.register_random_end(5, 0x0F);
        assert_eq!(chip8.v[5] & 0xF0, 0);
        chip8.register_random_end(6, 0x00);
        assert_eq!(chip8.v[6], 0);
    }
}

#[test]
fn compact_random_instruction_uses_the_byte_it_is_given() {
    let mut chip8 = machine_with(&[0xC3, 0x3C]);
    chip8.emulate_cycle_with(0b1111_0101);

    assert_eq!(chip8.v[3], 0b0011_0100);
    assert_eq!(chip8.pc, 0x202);
    assert_eq!(chip8.opcode, 0xC33C);
}

#[test]
fn compact_bcd_writes_three_digits() {
    let mut chip8 = Chip8::new();
    chip8.i = 0x300;
    for &(value, digits) in &[(255u16, [2u8, 5, 5]), (0, [0, 0, 0]), (159, [1, 5, 9])] {
        chip8.memory_store_bcd(value);
        assert_eq!(&chip8.memory[0x300..0x303], &digits[..]);
    }
}

#[test]
fn compact_bcd_instruction_takes_the_value_of_the_register() {
    let mut chip8 = machine_with(&[0x62, 0x9F, 0xA3, 0x00, 0xF2, 0x33]);
    for _ in 0..3 {
        assert!(chip8.is_runnable());
        chip8.emulate_cycle();
    }
    assert_eq!(&chip8.memory[0x300..0x303], &[1, 5, 9]);
}

#[test]
fn compact_call_then_return_resumes_after_the_call() {
    // 0x200: call 0x206; 0x202: V1 = 1; 0x206: return
    let mut chip8 = machine_with(&[0x22, 0x06, 0x61, 0x01, 0x00, 0x00, 0x00, 0xEE]);
    chip8.emulate_cycle();
    assert_eq!(chip8.pc, 0x206);
    assert_eq!(chip8.stack[0], 0x200);
    assert_eq!(chip8.stack_pointer, 1);

    chip8.emulate_cycle();
    assert_eq!(chip8.pc, 0x202);
    assert_eq!(chip8.stack_pointer, 0);

    chip8.emulate_cycle();
    assert_eq!(chip8.v[1], 1);
}

#[test]
fn compact_sixteen_calls_fill_the_stack() {
    let mut chip8 = Chip8::new();
    for depth in 0..16usize {
        assert_eq!(chip8.stack_pointer, depth);
        chip8.pc = 0x300 + 2 * depth;
        assert_eq!(chip8.call_address(0x400), 0x400);
        assert_eq!(chip8.stack[depth], (0x300 + 2 * depth) as u16);
    }
    assert_eq!(chip8.stack_pointer, 16);

    for depth in (0..16usize).rev() {
        assert_eq!(chip8.return_from_subroutine(), 0x300 + 2 * depth);
        assert_eq!(chip8.stack_pointer, depth);
    }
}

#[test]
fn compact_stack_wraps_around_beyond_its_ends() {
    let mut chip8 = Chip8::new();
    for depth in 0..16usize {
        chip8.pc = 0x300 + 2 * depth;
        chip8.call_address(0x400);
    }
    assert_eq!(chip8.stack_pointer, 16);

    chip8.pc = 0x300 + 32;
    chip8.call_address(0x400);
    assert_eq!(chip8.stack_pointer, 1);
    assert_eq!(chip8.stack[0], 0x300 + 32);
    assert_eq!(chip8.stack[1], 0x302);

    assert_eq!(chip8.return_from_subroutine(), 0x300 + 32);
    assert_eq!(chip8.stack_pointer, 0);
    assert_eq!(chip8.return_from_subroutine(), 0x300 + 30);
    assert_eq!(chip8.stack_pointer, 15);
}

#[test]
fn compact_draw_wraps_and_reports_collisions() {
    let mut chip8 = Chip8::new();
    chip8.memory[0x300] = 0xFF;
    chip8.i = 0x300;
    chip8.v[0] = 60;
    chip8.v[1] = 0;

    assert_eq!(chip8.draw_sprite(0, 1, 1), 0x202);
    for column in 0..64 {
        let expected = if column >= 60 || column < 4 { 1 } else { 0 };
        assert_eq!(chip8.display[column], expected);
    }
    assert!(chip8.display[64..].iter().all(|&pixel| pixel == 0));
    assert_eq!(chip8.v[0xF], 0);
    assert!(chip8.draw_flag);

    chip8.draw_sprite(0, 1, 1);
    assert!(chip8.display.iter().all(|&pixel| pixel == 0));
    assert_eq!(chip8.v[0xF], 1);
}

#[test]
fn compact_key_handlers_follow_the_keypad() {
    let mut chip8 = Chip8::new();
    chip8.v[2] = 7;
    assert_eq!(chip8.skip_if_key_pressed(2), 0x202);
    assert_eq!(chip8.skip_if_key_not_pressed(2), 0x204);

    chip8.key[7] = 1;
    assert_eq!(chip8.skip_if_key_pressed(2), 0x204);
    assert_eq!(chip8.skip_if_key_not_pressed(2), 0x202);
}

#[test]
fn compact_wait_for_key_holds_until_the_lowest_pressed_key() {
    let mut chip8 = Chip8::new();
    chip8.v[3] = 0x42;
    assert_eq!(chip8.wait_for_key_press(3), 0x200);
    assert_eq!(chip8.v[3], 0x42);

    chip8.key[5] = 1;
    assert_eq!(chip8.wait_for_key_press(3), 0x202);
    assert_eq!(chip8.v[3], 5);

    chip8.key[9] = 1;
    chip8.key[2] = 1;
    assert_eq!(chip8.wait_for_key_press(3), 0x202);
    assert_eq!(chip8.v[3], 2);
}

#[test]
fn compact_timers_follow_their_registers_and_decay() {
    let mut chip8 = Chip8::new();
    chip8.v[1] = 2;
    chip8.v[2] = 1;
    chip8.set_sound_timer(1);
    chip8.set_delay_timer(2);
    assert_eq!((chip8.delay_timer, chip8.sound_timer), (1, 2));

    chip8.tick_timers();
    assert_eq!((chip8.delay_timer, chip8.sound_timer), (0, 1));
    chip8.tick_timers();
    assert_eq!((chip8.delay_timer, chip8.sound_timer), (0, 0));
    chip8.tick_timers();
    assert_eq!((chip8.delay_timer, chip8.sound_timer), (0, 0));
}

#[test]
fn compact_index_handlers() {
    let mut chip8 = Chip8::new();
    assert_eq!(chip8.set_index(0xABC), 0x202);
    assert_eq!(chip8.i, 0xABC);

    chip8.i = 0xFFFF;
    chip8.v[4] = 0x0F;
    chip8.index_add(4);
    assert_eq!(chip8.i, 0x000E);

    chip8.v[4] = 0xA;
    chip8.set_index_sprite_location(4);
    assert_eq!(chip8.i, 50);

    chip8.v[4] = 0xFF;
    chip8.set_index_sprite_location(4);
    assert_eq!(chip8.i, 1275);
}

#[test]
fn compact_registers_go_to_memory_and_back() {
    let mut chip8 = Chip8::new();
    chip8.i = 0x400;
    for register in 0..16 {
        chip8.v[register] = 0x10 + register as u8;
    }
    assert_eq!(chip8.store_registers(3), 0x202);
    assert_eq!(&chip8.memory[0x400..0x405], &[0x10, 0x11, 0x12, 0x13, 0]);

    chip8.v = [0; 16];
    chip8.memory[0x404] = 0x77;
    chip8.read_registers(2);
    assert_eq!(&chip8.v[..5], &[0x10, 0x11, 0x12, 0, 0]);
}

#[test]
fn compact_instruction_dump_and_load_go_the_right_way() {
    // V0 = 0xAA, V1 = 0xBB, I = 0x300, dump V0..V1, V0 = 0, V1 = 0, load V0..V1
    let mut chip8 = machine_with(&[
        0x60, 0xAA, 0x61, 0xBB, 0xA3, 0x00, 0xF1, 0x55, 0x60, 0x00, 0x61, 0x00, 0xF1, 0x65,
    ]);
    for _ in 0..4 {
        chip8.emulate_cycle();
    }
    assert_eq!(&chip8.memory[0x300..0x303], &[0xAA, 0xBB, 0]);
    for _ in 0..3 {
        chip8.emulate_cycle();
    }
    assert_eq!(&chip8.v[..3], &[0xAA, 0xBB, 0]);
    assert_eq!(chip8.pc, 0x200 + 14);
}

#[test]
fn compact_words_outside_the_instruction_set_are_passed_over() {
    for word in [[0x00u8, 0x00], [0x01, 0x23], [0x51, 0x21], [0x91, 0x2F], [0x81, 0x28], [0xE1, 0x00], [0xF1, 0xFF], [0x01, 0xE0]] {
        let mut chip8 = machine_with(&word);
        chip8.v[1] = 3;
        chip8.display[5] = 1;
        assert!(chip8.is_runnable());
        chip8.emulate_cycle();
        assert_eq!(chip8.pc, 0x202);
        assert_eq!(chip8.v[1], 3);
        assert_eq!(chip8.v[0xF], 0);
        assert_eq!(chip8.display[5], 1);
        assert_eq!(chip8.i, 0);
        assert!(!chip8.draw_flag);
    }
}

#[test]
fn compact_cycle_ticks_both_timers() {
    let mut chip8 = machine_with(&[0x00, 0xE0, 0x00, 0xE0, 0x00, 0xE0]);
    chip8.delay_timer = 1;
    chip8.sound_timer = 2;
    chip8.emulate_cycle();
    assert_eq!((chip8.delay_timer, chip8.sound_timer), (0, 1));
    assert!(chip8.draw_flag);
    chip8.emulate_cycle();
    assert_eq!((chip8.delay_timer, chip8.sound_timer), (0, 0));
    chip8.emulate_cycle();
    assert_eq!((chip8.delay_timer, chip8.sound_timer), (0, 0));
}

#[test]
fn compact_is_runnable_tells_when_a_cycle_would_leave_memory() {
    let mut chip8 = machine_with(&[0xF0, 0x33]);
    assert!(chip8.is_runnable());
    chip8.i = 4093;
    assert!(chip8.is_runnable());
    chip8.i = 4094;
    assert!(!chip8.is_runnable());

    let mut chip8 = machine_with(&[0xD0, 0x05]);
    chip8.i = 4091;
    assert!(chip8.is_runnable());
    chip8.i = 4092;
    assert!(!chip8.is_runnable());

    let mut chip8 = machine_with(&[0xE3, 0x9E]);
    chip8.v[3] = 15;
    assert!(chip8.is_runnable());
    chip8.v[3] = 16;
    assert!(!chip8.is_runnable());

    let mut chip8 = machine_with(&[0xF3, 0x55]);
    chip8.i = 4092;
    assert!(chip8.is_runnable());
    chip8.i = 4093;
    assert!(!chip8.is_runnable());

    let mut chip8 = Chip8::new();
    chip8.pc = 4094;
    assert!(chip8.is_runnable());
    chip8.pc = 4095;
    assert!(!chip8.is_runnable());
}
