use chip8_emulator::chip8::emulated_cpu::EmulatedCpu;
use chip8_emulator::chip8::emulated_graphics::EmulatedGraphics;
use chip8_emulator::chip8::emulated_keypad::EmulatedKeypad;
use chip8_emulator::chip8::emulated_memory::{EmulatedMemory, FONT_SET, FONT_SET_START};
use chip8_emulator::chip8::ExecutionState;
use rand::Rng;

#[test]
fn test_cpu_initialization() {
    let cpu = EmulatedCpu::new();

    assert_eq!(cpu, EmulatedCpu { register: [0; 16] });
}

#[test]
fn test_basic_management() {
    let mut cpu = EmulatedCpu::new();

    let mut rng = rand::thread_rng();
    let values: [u8; 16] = rng.gen();
    values.iter().enumerate().for_each(|(i, &value)| {
        cpu.set_register(i as u8, value);
    });

    assert_eq!(cpu.register, values);
}

#[test]
fn test_arithmethic() {
    let mut cpu = EmulatedCpu::new();

    cpu.set_register(0x1, 0x5);
    cpu.register_add_value(0x1, 0x5);
    assert_eq!(cpu.register[0x1], 0xA);

    cpu.register_add_value(0x1, 0xFF);
    assert_eq!(cpu.register[0x1], 0x9);

    cpu.register_add_value(0x1, 0xFA);
    assert_eq!(cpu.register[0x1], 0x3);

    cpu.set_register(0x2, 0xFF);
    cpu.register_carry_add(0x1, 0x2);
    assert_eq!(cpu.register[0xF], 1);
    assert_eq!(cpu.register[0x1], 0x2);

    cpu.set_register(0x1, 0x0);
    cpu.set_register(0x2, 0xFF);
    cpu.register_borrow_sub(0x1, 0x2);
    assert_eq!(cpu.register[0x1], 0x1);
    assert_eq!(cpu.register[0xF], 0);

    cpu.set_register(0x5, 20);
    cpu.set_register(0x6, 10);
    cpu.register_borrow_sub(0x5, 0x6);
    assert_eq!(cpu.register[0x5], 10);

    cpu.set_register(0x5, 20);
    cpu.set_register(0x6, 10);
    cpu.register_borrow_sub_rev(0x5, 0x6);
    assert_eq!(cpu.register[0x6], 10);
    assert_eq!(cpu.register[0xF], 0);
}

#[test]
fn test_logic_operations() {
    let mut cpu = EmulatedCpu::new();

    cpu.set_register(0x1, 0b00110011);
    cpu.set_register(0x2, 0b11001100);
    cpu.register_or(0x1, 0x2);
    assert_eq!(cpu.register[0x1], 0b11111111);

    cpu.set_register(0x1, 0b01110011);
    cpu.set_register(0x2, 0b01001010);
    cpu.register_or(0x1, 0x2);
    assert_eq!(cpu.register[0x1], 0b01111011);

    cpu.set_register(0x1, 0b00110011);
    cpu.set_register(0x2, 0b11001100);
    cpu.register_and(0x1, 0x2);
    assert_eq!(cpu.register[0x1], 0b00000000);

    cpu.set_register(0x1, 0b01110011);
    cpu.set_register(0x2, 0b01001010);
    cpu.register_and(0x1, 0x2);
    assert_eq!(cpu.register[0x1], 0b01000010);

    cpu.set_register(0x1, 0b00110011);
    cpu.set_register(0x2, 0b11001100);
    cpu.register_xor(0x1, 0x2);
    assert_eq!(cpu.register[0x1], 0b11111111);

    cpu.set_register(0x1, 0b01110011);
    cpu.set_register(0x2, 0b01001010);
    cpu.register_xor(0x1, 0x2);
    assert_eq!(cpu.register[0x1], 0b00111001);

    cpu.set_register(0x4, 0b00110000);
    cpu.register_shr(0x4);
    assert_eq!(cpu.register[0x4], 0b00011000);
    assert_eq!(cpu.register[0xF], 0);

    cpu.set_register(0x4, 0b10000011);
    cpu.register_shr(0x4);
    assert_eq!(cpu.register[0x4], 0b01000001);
    assert_eq!(cpu.register[0xF], 1);

    cpu.set_register(0x4, 0b00110000);
    cpu.register_shl(0x4);
    assert_eq!(cpu.register[0x4], 0b01100000);
    assert_eq!(cpu.register[0xF], 0);

    cpu.set_register(0x4, 0b10000011);
    cpu.register_shl(0x4);
    assert_eq!(cpu.register[0x4], 0b00000110);
    assert_eq!(cpu.register[0xF], 1);

    // Two masked random bytes agree once in sixteen draws, so the pair is drawn
    // again until it differs; sixty-four agreeing pairs in a row do not happen.
    let mut differed = false;
    for _ in 0..64 {
        cpu.set_register(0x5, 0b00000111);
        cpu.set_register(0x6, 0b00000111);
        cpu.register_random_and(0x5, 0b00111100);
        cpu.register_random_and(0x6, 0b00111100);
        assert_eq!(cpu.register[0x5] & !0b00111100, 0);
        assert_eq!(cpu.register[0x6] & !0b00111100, 0);
        if cpu.register[0x5] != cpu.register[0x6] {
            differed = true;
            break;
        }
    }
    assert!(differed);
}

#[test]
fn test_graphics_initialization() {
    let graphics = EmulatedGraphics::new();

    assert!(graphics.display.iter().all(|&byte| byte == 0));
}

#[test]
fn test_clear_display() {
    let mut graphics = EmulatedGraphics::new();

    graphics.clear_display();
    assert!(graphics.display.iter().all(|&byte| byte == 0));

    graphics
        .display
        .iter_mut()
        .step_by(3)
        .for_each(|byte| *byte = 1);
    assert!(graphics.display.iter().any(|&byte| byte == 1));

    graphics.clear_display();
    assert!(graphics.display.iter().all(|&byte| byte == 0));
}

#[test]
fn test_keypad_initialization() {
    let keypad = EmulatedKeypad::new();

    assert_eq!(keypad, EmulatedKeypad { keypad: [0; 16] });
}

#[test]
fn test_press_release() {
    let mut keypad = EmulatedKeypad::new();

    (0..=15).into_iter().for_each(|key| keypad.press_key(key));
    keypad.keypad.iter().for_each(|&key| assert_eq!(key, 1));

    (0..=15).into_iter().for_each(|key| keypad.release_key(key));
    keypad.keypad.iter().for_each(|&key| assert_eq!(key, 0));
}

#[test]
fn test_memory_initialization() {
    let memory = EmulatedMemory::new();

    memory.mem_array.iter().enumerate().for_each(|(i, &val)| {
        if i >= FONT_SET_START && i < FONT_SET_START + 80 {
            assert_eq!(val, FONT_SET[i - FONT_SET_START]);
        } else {
            assert_eq!(val, 0);
        }
    });
    assert_eq!(memory.stack_pointer, 0);
    assert_eq!(memory.stack, [0; 16]);
    assert_eq!(memory.index, 0);
}

#[test]
fn test_index_operations() {
    let mut memory = EmulatedMemory::new();

    memory.set_index(0xABC);
    assert_eq!(memory.index, 0xABC);

    memory.set_index(0xFFF);
    assert_eq!(memory.index, 0xFFF);

    memory.set_index(0xA);
    memory.index_add(0xF);
    assert_eq!(memory.index, 0x19);

    memory.set_index(0xFFFF);
    memory.index_add(0xF);
    assert_eq!(memory.index, 0xE);
}

#[test]
fn test_memory_operations() {
    let mut memory = EmulatedMemory::new();

    if let ExecutionState::JumpTo(addr) = memory.jump_to_address(0x0FFF) {
        assert_eq!(addr, 0xFFF);
    }

    let mut pc = 0x200;
    let state = memory.call_subroutine(0xABC, pc);

    assert_eq!(memory.stack[0], 0x200);
    assert_eq!(memory.stack_pointer, 1);
    if let ExecutionState::JumpTo(addr) = state {
        pc = addr;
        assert_eq!(pc, 0xABC);
    }

    let state = memory.call_subroutine(0xFCE, pc);

    assert_eq!(memory.stack[0], 0x200);
    assert_eq!(memory.stack[1], 0xABC);
    assert_eq!(memory.stack_pointer, 2);
    if let ExecutionState::JumpTo(addr) = state {
        pc = addr;
        assert_eq!(pc, 0xFCE);
    }

    let state = memory.return_from_subroutine();
    assert_eq!(memory.stack[0], 0x200);
    assert_eq!(memory.stack[1], 0xABC);
    assert_eq!(memory.stack_pointer, 1);
    if let ExecutionState::ReturnTo(addr) = state {
        pc = addr;
        assert_eq!(pc, 0xABC);
    }

    let state = memory.return_from_subroutine();
    assert_eq!(memory.stack[0], 0x200);
    assert_eq!(memory.stack_pointer, 0);
    if let ExecutionState::ReturnTo(addr) = state {
        pc = addr;
        assert_eq!(pc, 0x200);
    }

    let number = 159;
    memory.memory_store_bcd(number);
    assert_eq!(memory.mem_array[memory.index], 1);
    assert_eq!(memory.mem_array[memory.index + 1], 5);
    assert_eq!(memory.mem_array[memory.index + 2], 9);

    let number = 255;
    memory.memory_store_bcd(number);
    assert_eq!(memory.mem_array[memory.index], 2);
    assert_eq!(memory.mem_array[memory.index + 1], 5);
    assert_eq!(memory.mem_array[memory.index + 2], 5);
}
