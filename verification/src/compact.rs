//! The CHIP-8 machine as a single record.
//!
//! [`Chip8`] keeps memory, registers, stack, keypad, frame buffer and timers side by
//! side. Each instruction has a handler that changes the record and hands back the
//! address at which execution goes on; the one exception is the return handler,
//! which hands back the address of the call instruction it popped and leaves it to
//! the cycle to step past that instruction. The contracts are stated over the same
//! model as those of the machine built from units, [`Machine`], so both machines do
//! the same thing cycle by cycle. The record also remembers the last instruction
//! word it fetched.

use crate::chip8::emulated_cpu::{
    added,
    anded,
    borrow_subtracted,
    carry_added,
    masked,
    ored,
    reverse_subtracted,
    shifted_left,
    shifted_right,
    stored,
    wrapped,
    xored,
};
use crate::chip8::emulated_graphics::{blank_screen, blit, clear_pixels};
use crate::chip8::emulated_keypad::{first_pressed, lemma_first_pressed, KEY_COUNT};
use crate::chip8::emulated_memory::{
    from_memory,
    install_font,
    install_program,
    with_registers,
    MemoryState,
    MEM_SIZE,
    PROGRAM_CAPACITY,
    PROGRAM_START,
    STACK_DEPTH,
};
use crate::chip8::emulated_timers::TimersState;
use crate::chip8::machine::{next_pc, Machine};
use crate::chip8::opcode::{family_of, join, split};
use crate::chip8::LoadError;
use crate::entropy::random_byte;
use vstd::prelude::*;

verus! {

/// The machine as one record.
pub struct Chip8 {
    /// The instruction word fetched last.
    pub opcode: u16,
    /// The memory cells.
    pub memory: [u8; 4096],
    /// The sixteen registers; the last one is the flag.
    pub v: [u8; 16],
    /// The index register.
    pub i: u16,
    /// The address of the next instruction.
    pub pc: usize,
    /// The pixels, row after row; a set pixel holds 1, a clear one 0.
    pub display: [u8; 2048],
    /// The delay timer.
    pub delay_timer: u8,
    /// The sound timer.
    pub sound_timer: u8,
    /// The slots of the call stack.
    pub stack: [u16; 16],
    /// The stack pointer: the number of return addresses stored, 0 to 16.
    pub stack_pointer: usize,
    /// The state of each key: 1 while pressed, 0 while released.
    pub key: [u8; 16],
    /// Set whenever an instruction cleared the screen or drew on it; the host clears
    /// it once it has drawn the frame.
    pub draw_flag: bool,
}

impl View for Chip8 {
    type V = Machine;

    open spec fn view(&self) -> Machine {
        Machine {
            memory: MemoryState {
                cells: self.memory@,
                index: self.i as int,
                stack: self.stack@,
                stack_pointer: self.stack_pointer as int,
            },
            registers: self.v@,
            keys: self.key@,
            display: self.display@,
            timers: TimersState { delay: self.delay_timer, sound: self.sound_timer },
            pc: self.pc as int,
            draw_flag: self.draw_flag,
        }
    }
}

impl Chip8 {
    /// The record changed only in its registers.
    pub open spec fn having_registers(self, registers: Seq<u8>) -> Machine {
        Machine { registers, ..self@ }
    }

    /// The record changed only in its memory unit.
    pub open spec fn having_memory(self, memory: MemoryState) -> Machine {
        Machine { memory, ..self@ }
    }

    /// A record in the initial state of the machine, with no instruction fetched
    /// yet.
    pub fn new() -> (chip8: Self)
        ensures
            chip8@ == Machine::initial(),
            chip8.opcode == 0,
    {
        Chip8::default()
    }

    /// A record with the font in memory, everything else zero and the program
    /// counter at the load address.
    pub fn default() -> (chip8: Self)
        ensures
            chip8@ == Machine::initial(),
            chip8.opcode == 0,
    {
        let mut memory: [u8; 4096] = [0; 4096];
        install_font(&mut memory);
        Chip8 {
            pc: PROGRAM_START,
            opcode: 0,
            i: 0,
            stack: [0; 16],
            stack_pointer: 0,
            memory,
            delay_timer: 0,
            sound_timer: 0,
            display: [0; 2048],
            key: [0; 16],
            v: [0; 16],
            draw_flag: false,
        }
    }

    /// Copies `program` into memory at the load address. A program that does not
    /// fit is refused and the record is left as it was.
    pub fn load_program(&mut self, program: &[u8]) -> (result: Result<(), LoadError>)
        ensures
            final(self).opcode == old(self).opcode,
            program@.len() <= PROGRAM_CAPACITY ==> result == Ok::<(), LoadError>(())
                && final(self)@ == old(self)@.loaded(program@),
            program@.len() > PROGRAM_CAPACITY ==> result == Err::<(), LoadError>(
                LoadError::ProgramTooLarge,
            ) && final(self)@ == old(self)@,
    {
        if program.len() > PROGRAM_CAPACITY {
            return Err(LoadError::ProgramTooLarge);
        }
        install_program(&mut self.memory, program);
        Ok(())
    }

    /// Tells whether the next cycle can run: the program counter points at two
    /// bytes inside memory, and the instruction found there stays inside memory and
    /// asks only about keys that exist.
    pub fn is_runnable(&self) -> (ok: bool)
        ensures
            ok == self@.can_cycle(),
    {
        if self.pc >= MEM_SIZE - 1 {
            return false;
        }
        let fields = split(join(self.memory[self.pc], self.memory[self.pc + 1]));
        let index = self.i as usize;
        let vx = self.v[fields.x as usize];
        if fields.f == 0xD {
            index <= MEM_SIZE && fields.n as usize <= MEM_SIZE - index
        } else if fields.f == 0xE && (fields.kk == 0x9E || fields.kk == 0xA1) {
            vx < 16
        } else if fields.f == 0xF && fields.kk == 0x33 {
            index < MEM_SIZE - 2
        } else if fields.f == 0xF && (fields.kk == 0x55 || fields.kk == 0x65) {
            index < MEM_SIZE && (fields.x as usize) < MEM_SIZE - index
        } else {
            true
        }
    }

    /// Runs one cycle: fetches the instruction at the program counter, executes it,
    /// moves the program counter and ticks the timers. The random instruction draws
    /// its byte here; any other instruction has one possible result.
    pub fn emulate_cycle(&mut self)
        requires
            old(self)@.can_cycle(),
        ensures
            final(self).opcode == old(self)@.opcode(),
            exists|random: u8| final(self)@ == #[trigger] old(self)@.cycled(random),
            family_of(old(self)@.opcode()) != 0xC ==> final(self)@ == old(self)@.cycled(0),
    {
        let random = if split(self.fetch_opcode()).f == 0xC {
            random_byte()
        } else {
            0
        };
        self.emulate_cycle_with(random);
    }

    /// Runs one cycle with `random` as the byte that the random instruction uses.
    pub fn emulate_cycle_with(&mut self, random: u8)
        requires
            old(self)@.can_cycle(),
        ensures
            final(self).opcode == old(self)@.opcode(),
            final(self)@ == old(self)@.cycled(random),
    {
        let opcode = self.fetch_opcode();
        self.opcode = opcode;
        let next = self.execute_opcode_with(opcode, random);
        self.pc = next;
        self.tick_timers();
    }

    /// Executes `opcode` with `random` as the byte that the random instruction uses
    /// and hands back the address at which execution goes on. The program counter
    /// itself is not moved and the timers are not ticked.
    pub fn execute_opcode_with(&mut self, opcode: u16, random: u8) -> (next: usize)
        requires
            old(self)@.can_execute(opcode),
            old(self).pc + 4 <= usize::MAX,
        ensures
            next == next_pc(old(self).pc as int, old(self)@.outcome(opcode)),
            final(self).opcode == old(self).opcode,
            final(self)@ == old(self)@.executed(opcode, random),
    {
        let fields = split(opcode);
        let f = fields.f;
        let x = fields.x as u16;
        let y = fields.y as u16;
        let n = fields.n as u16;
        let kk = fields.kk as u16;
        let nnn = fields.nnn;
        let vx = self.v[fields.x as usize] as u16;
        let vy = self.v[fields.y as usize] as u16;
        match (f, fields.x, fields.y, fields.n) {
            (0x0, 0x0, 0xE, 0x0) => self.clear_screen(),
            (0x0, 0x0, 0xE, 0xE) => self.return_from_subroutine() + 2,
            (0x1, _, _, _) => self.jump_to_address(nnn),
            (0x2, _, _, _) => self.call_address(nnn),
            (0x3, _, _, _) => self.skip_if_equal(vx, kk),
            (0x4, _, _, _) => self.skip_if_diff(vx, kk),
            (0x5, _, _, 0x0) => self.skip_if_equal(vx, vy),
            (0x6, _, _, _) => self.insert_on_register(x, kk),
            (0x7, _, _, _) => self.add_to_register(x, kk),
            (0x8, _, _, 0x0) => self.insert_on_register(x, vy),
            (0x8, _, _, 0x1) => self.register_or(x, y),
            (0x8, _, _, 0x2) => self.register_and(x, y),
            (0x8, _, _, 0x3) => self.register_xor(x, y),
            (0x8, _, _, 0x4) => self.register_carry_add(x, y),
            (0x8, _, _, 0x5) => self.register_borrow_sub(x, y),
            (0x8, _, _, 0x6) => self.register_shr_1(x),
            (0x8, _, _, 0x7) => self.register_sub_rev(x, y),
            (0x8, _, _, 0xE) => self.register_shl_1(x),
            (0x9, _, _, 0x0) => self.skip_if_diff(vx, vy),
            (0xA, _, _, _) => self.set_index(nnn),
            (0xB, _, _, _) => {
                let v0 = self.v[0] as u16;
                self.jump_to_address(nnn + v0)
            },
            (0xC, _, _, _) => self.register_mask(x, random, kk),
            (0xD, _, _, _) => self.draw_sprite(x, y, n),
            (0xE, _, 0x9, 0xE) => self.skip_if_key_pressed(x),
            (0xE, _, 0xA, 0x1) => self.skip_if_key_not_pressed(x),
            (0xF, _, 0x0, 0x7) => {
                let delay = self.delay_timer as u16;
                self.insert_on_register(x, delay)
            },
            (0xF, _, 0x0, 0xA) => self.wait_for_key_press(x),
            (0xF, _, 0x1, 0x5) => self.set_delay_timer(x),
            (0xF, _, 0x1, 0x8) => self.set_sound_timer(x),
            (0xF, _, 0x1, 0xE) => self.index_add(x),
            (0xF, _, 0x2, 0x9) => self.set_index_sprite_location(x),
            (0xF, _, 0x3, 0x3) => self.memory_store_bcd(vx),
            (0xF, _, 0x5, 0x5) => self.store_registers(x),
            (0xF, _, 0x6, 0x5) => self.read_registers(x),
            _ => self.pc + 2,
        }
    }

    /// Counts both timers down by one, stopping at zero.
    pub fn tick_timers(&mut self)
        ensures
            final(self)@ == old(self)@.ticked(),
            final(self).opcode == old(self).opcode,
    {
        if self.delay_timer > 0 {
            self.delay_timer -= 1;
        }
        if self.sound_timer > 0 {
            self.sound_timer -= 1;
        }
    }

    /// Clears every pixel and marks the screen as changed.
    pub fn clear_screen(&mut self) -> (next: usize)
        requires
            old(self).pc + 2 <= usize::MAX,
        ensures
            next == old(self).pc + 2,
            final(self).opcode == old(self).opcode,
            final(self)@ == (Machine { display: blank_screen(), draw_flag: true, ..old(self)@ }),
    {
        clear_pixels(&mut self.display);
        self.draw_flag = true;
        self.pc + 2
    }

    /// Pops the address of the latest call instruction and hands it back. Execution
    /// resumes two bytes after it.
    pub fn return_from_subroutine(&mut self) -> (call_site: usize)
        ensures
            call_site == old(self)@.memory.return_address(),
            final(self).opcode == old(self).opcode,
            final(self)@ == old(self).having_memory(old(self)@.memory.returned()),
    {
        let slot = (self.stack_pointer % STACK_DEPTH + (STACK_DEPTH - 1)) % STACK_DEPTH;
        self.stack_pointer = slot;
        self.stack[slot] as usize
    }

    /// Hands back `address` as the place to go on at. The record does not change.
    pub fn jump_to_address(&mut self, address: u16) -> (next: usize)
        ensures
            next == address,
            *final(self) == *old(self),
    {
        address as usize
    }

    /// Pushes the program counter, which is the address of the call instruction,
    /// and hands back `address` as the place to go on at.
    pub fn call_address(&mut self, address: u16) -> (next: usize)
        requires
            old(self).pc <= u16::MAX,
        ensures
            next == address,
            final(self).opcode == old(self).opcode,
            final(self)@ == old(self).having_memory(old(self)@.memory.called(old(self).pc as int)),
    {
        let slot = self.stack_pointer % STACK_DEPTH;
        self.stack[slot] = self.pc as u16;
        self.stack_pointer = slot + 1;
        address as usize
    }

    /// Steps over the next instruction when `a` equals `b`.
    pub fn skip_if_equal(&mut self, a: u16, b: u16) -> (next: usize)
        requires
            old(self).pc + 4 <= usize::MAX,
        ensures
            next == if a == b {
                old(self).pc + 4
            } else {
                old(self).pc + 2
            },
            *final(self) == *old(self),
    {
        if a == b {
            self.pc + 4
        } else {
            self.pc + 2
        }
    }

    /// Steps over the next instruction when `a` differs from `b`.
    pub fn skip_if_diff(&mut self, a: u16, b: u16) -> (next: usize)
        requires
            old(self).pc + 4 <= usize::MAX,
        ensures
            next == if a != b {
                old(self).pc + 4
            } else {
                old(self).pc + 2
            },
            *final(self) == *old(self),
    {
        if a != b {
            self.pc + 4
        } else {
            self.pc + 2
        }
    }

    /// Stores the low byte of `kk` in register `x`.
    pub fn insert_on_register(&mut self, x: u16, kk: u16) -> (next: usize)
        requires
            x < 16,
            old(self).pc + 2 <= usize::MAX,
        ensures
            next == old(self).pc + 2,
            final(self).opcode == old(self).opcode,
            final(self)@ == old(self).having_registers(
                stored(old(self)@.registers, x as int, wrapped(kk as int)),
            ),
    {
        self.v[x as usize] = (kk % 256) as u8;
        self.pc + 2
    }

    /// Adds `kk` to register `x`, wrapping at 256. The flag is not touched.
    pub fn add_to_register(&mut self, x: u16, kk: u16) -> (next: usize)
        requires
            x < 16,
            old(self).pc + 2 <= usize::MAX,
        ensures
            next == old(self).pc + 2,
            final(self).opcode == old(self).opcode,
            final(self)@ == old(self).having_registers(added(old(self)@.registers, x as int, kk as int)),
    {
        let sum = self.v[x as usize] as u32 + kk as u32;
        self.v[x as usize] = (sum % 256) as u8;
        self.pc + 2
    }

    /// ORs register `y` into register `x`.
    pub fn register_or(&mut self, x: u16, y: u16) -> (next: usize)
        requires
            x < 16,
            y < 16,
            old(self).pc + 2 <= usize::MAX,
        ensures
            next == old(self).pc + 2,
            final(self).opcode == old(self).opcode,
            final(self)@ == old(self).having_registers(ored(old(self)@.registers, x as int, y as int)),
    {
        let value = self.v[x as usize] | self.v[y as usize];
        self.v[x as usize] = value;
        self.pc + 2
    }

    /// ANDs register `y` into register `x`.
    pub fn register_and(&mut self, x: u16, y: u16) -> (next: usize)
        requires
            x < 16,
            y < 16,
            old(self).pc + 2 <= usize::MAX,
        ensures
            next == old(self).pc + 2,
            final(self).opcode == old(self).opcode,
            final(self)@ == old(self).having_registers(anded(old(self)@.registers, x as int, y as int)),
    {
        let value = self.v[x as usize] & self.v[y as usize];
        self.v[x as usize] = value;
        self.pc + 2
    }

    /// XORs register `y` into register `x`.
    pub fn register_xor(&mut self, x: u16, y: u16) -> (next: usize)
        requires
            x < 16,
            y < 16,
            old(self).pc + 2 <= usize::MAX,
        ensures
            next == old(self).pc + 2,
            final(self).opcode == old(self).opcode,
            final(self)@ == old(self).having_registers(xored(old(self)@.registers, x as int, y as int)),
    {
        let value = self.v[x as usize] ^ self.v[y as usize];
        self.v[x as usize] = value;
        self.pc + 2
    }

    /// Adds register `y` to register `x`, wrapping at 256, and sets the flag when the
    /// sum did not fit in a byte.
    pub fn register_carry_add(&mut self, x: u16, y: u16) -> (next: usize)
        requires
            x < 16,
            y < 16,
            old(self).pc + 2 <= usize::MAX,
        ensures
            next == old(self).pc + 2,
            final(self).opcode == old(self).opcode,
            final(self)@ == old(self).having_registers(
                carry_added(old(self)@.registers, x as int, y as int),
            ),
    {
        let sum = self.v[x as usize] as u16 + self.v[y as usize] as u16;
        self.v[x as usize] = (sum % 256) as u8;
        self.v[0xF] = if sum > 0xFF {
            1
        } else {
            0
        };
        self.pc + 2
    }

    /// Subtracts register `y` from register `x`, wrapping at 256, and sets the flag
    /// when register `x` was greater than register `y` before the subtraction.
    pub fn register_borrow_sub(&mut self, x: u16, y: u16) -> (next: usize)
        requires
            x < 16,
            y < 16,
            old(self).pc + 2 <= usize::MAX,
        ensures
            next == old(self).pc + 2,
            final(self).opcode == old(self).opcode,
            final(self)@ == old(self).having_registers(
                borrow_subtracted(old(self)@.registers, x as int, y as int),
            ),
    {
        let a = self.v[x as usize];
        let b = self.v[y as usize];
        self.v[x as usize] = a.wrapping_sub(b);
        self.v[0xF] = if a > b {
            1
        } else {
            0
        };
        self.pc + 2
    }

    /// Shifts register `x` one bit to the right; the flag receives the old lowest bit.
    pub fn register_shr_1(&mut self, x: u16) -> (next: usize)
        requires
            x < 16,
            old(self).pc + 2 <= usize::MAX,
        ensures
            next == old(self).pc + 2,
            final(self).opcode == old(self).opcode,
            final(self)@ == old(self).having_registers(shifted_right(old(self)@.registers, x as int)),
    {
        let a = self.v[x as usize];
        let low = a & 0x01;
        let rest = a >> 1;
        assert(low == a % 2 && rest == a / 2) by (bit_vector)
            requires
                low == a & 1,
                rest == a >> 1,
        ;
        self.v[x as usize] = rest;
        self.v[0xF] = low;
        self.pc + 2
    }

    /// Replaces register `x` by register `y` minus register `x`, wrapping at 256, and
    /// sets the flag when register `y` was greater than register `x` before the
    /// subtraction.
    pub fn register_sub_rev(&mut self, x: u16, y: u16) -> (next: usize)
        requires
            x < 16,
            y < 16,
            old(self).pc + 2 <= usize::MAX,
        ensures
            next == old(self).pc + 2,
            final(self).opcode == old(self).opcode,
            final(self)@ == old(self).having_registers(
                reverse_subtracted(old(self)@.registers, x as int, y as int),
            ),
    {
        let a = self.v[x as usize];
        let b = self.v[y as usize];
        self.v[x as usize] = b.wrapping_sub(a);
        self.v[0xF] = if b > a {
            1
        } else {
            0
        };
        self.pc + 2
    }

    /// Shifts register `x` one bit to the left; the flag receives the old highest bit.
    pub fn register_shl_1(&mut self, x: u16) -> (next: usize)
        requires
            x < 16,
            old(self).pc + 2 <= usize::MAX,
        ensures
            next == old(self).pc + 2,
            final(self).opcode == old(self).opcode,
            final(self)@ == old(self).having_registers(shifted_left(old(self)@.registers, x as int)),
    {
        let a = self.v[x as usize];
        let high = a >> 7;
        let rest = a << 1;
        assert(high == (if a >= 128 { 1u8 } else { 0u8 }) && rest == (a * 2) % 256) by (bit_vector)
            requires
                high == a >> 7,
                rest == a << 1,
        ;
        self.v[x as usize] = rest;
        self.v[0xF] = high;
        self.pc + 2
    }

    /// Stores in register `x` the bits of `byte` selected by the low byte of `kk`.
    pub fn register_mask(&mut self, x: u16, byte: u8, kk: u16) -> (next: usize)
        requires
            x < 16,
            old(self).pc + 2 <= usize::MAX,
        ensures
            next == old(self).pc + 2,
            final(self).opcode == old(self).opcode,
            final(self)@ == old(self).having_registers(
                masked(old(self)@.registers, x as int, byte, wrapped(kk as int)),
            ),
    {
        self.v[x as usize] = byte & (kk % 256) as u8;
        self.pc + 2
    }

    /// Stores in register `x` a random byte masked by the low byte of `kk`. Which
    /// byte is drawn is not known in advance; whatever it is, the record ends up as
    /// [`Chip8::register_mask`] leaves it for that byte.
    pub fn register_random_end(&mut self, x: u16, kk: u16) -> (next: usize)
        requires
            x < 16,
            old(self).pc + 2 <= usize::MAX,
        ensures
            next == old(self).pc + 2,
            final(self).opcode == old(self).opcode,
            exists|byte: u8|
                final(self)@ == old(self).having_registers(
                    #[trigger] masked(old(self)@.registers, x as int, byte, wrapped(kk as int)),
                ),
    {
        let byte = random_byte();
        self.register_mask(x, byte, kk)
    }

    /// Draws the sprite of `n` rows found at the index register at the column and
    /// row that registers `x` and `y` hold, stores the collision report in the flag
    /// register and marks the screen as changed.
    pub fn draw_sprite(&mut self, x: u16, y: u16, n: u16) -> (next: usize)
        requires
            x < 16,
            y < 16,
            n <= 15,
            old(self).i + n <= MEM_SIZE,
            old(self).pc + 2 <= usize::MAX,
        ensures
            next == old(self).pc + 2,
            final(self).opcode == old(self).opcode,
            final(self)@ == old(self)@.sprite_drawn(
                old(self).v@[x as int] as int,
                old(self).v@[y as int] as int,
                n as int,
            ),
    {
        let index = self.i as usize;
        let sprite = &self.memory[index..index + n as usize];
        let collision = blit(
            &mut self.display,
            self.v[x as usize],
            self.v[y as usize],
            n as u8,
            sprite,
        );
        self.v[0xF] = if collision {
            1
        } else {
            0
        };
        self.draw_flag = true;
        self.pc + 2
    }

    /// Steps over the next instruction when the key that register `x` names is
    /// pressed.
    pub fn skip_if_key_pressed(&mut self, x: u16) -> (next: usize)
        requires
            x < 16,
            old(self).v@[x as int] < KEY_COUNT,
            old(self).pc + 4 <= usize::MAX,
        ensures
            next == if old(self).key@[old(self).v@[x as int] as int] == 1 {
                old(self).pc + 4
            } else {
                old(self).pc + 2
            },
            *final(self) == *old(self),
    {
        if self.key[self.v[x as usize] as usize] == 1 {
            self.pc + 4
        } else {
            self.pc + 2
        }
    }

    /// Steps over the next instruction when the key that register `x` names is
    /// released.
    pub fn skip_if_key_not_pressed(&mut self, x: u16) -> (next: usize)
        requires
            x < 16,
            old(self).v@[x as int] < KEY_COUNT,
            old(self).pc + 4 <= usize::MAX,
        ensures
            next == if old(self).key@[old(self).v@[x as int] as int] == 0 {
                old(self).pc + 4
            } else {
                old(self).pc + 2
            },
            *final(self) == *old(self),
    {
        if self.key[self.v[x as usize] as usize] == 0 {
            self.pc + 4
        } else {
            self.pc + 2
        }
    }

    /// Looks for a pressed key, lowest index first. When there is one, its index is
    /// stored in register `x` and execution goes on; when there is none, nothing
    /// changes and the same instruction comes again.
    pub fn wait_for_key_press(&mut self, x: u16) -> (next: usize)
        requires
            x < 16,
            old(self).pc + 2 <= usize::MAX,
        ensures
            final(self).opcode == old(self).opcode,
            first_pressed(old(self).key@) < KEY_COUNT ==> next == old(self).pc + 2 && final(self)@
                == old(self).having_registers(
                stored(old(self)@.registers, x as int, first_pressed(old(self).key@) as u8),
            ),
            first_pressed(old(self).key@) >= KEY_COUNT ==> next == old(self).pc && final(self)@
                == old(self)@,
    {
        let mut key: u8 = 0;
        while key < 16
            invariant
                key <= 16,
                x < 16,
                self.pc + 2 <= usize::MAX,
                *self == *old(self),
                forall|j: int| 0 <= j < key ==> self.key@[j] != 1,
            decreases 16 - key,
        {
            if self.key[key as usize] == 1 {
                proof {
                    lemma_first_pressed(self.key@, key as int);
                }
                self.v[x as usize] = key;
                return self.pc + 2;
            }
            key += 1;
        }
        self.pc
    }

    /// Sets the delay timer to register `x`.
    pub fn set_delay_timer(&mut self, x: u16) -> (next: usize)
        requires
            x < 16,
            old(self).pc + 2 <= usize::MAX,
        ensures
            next == old(self).pc + 2,
            final(self).opcode == old(self).opcode,
            final(self)@ == (Machine {
                timers: TimersState { delay: old(self).v@[x as int], sound: old(self).sound_timer },
                ..old(self)@
            }),
    {
        self.delay_timer = self.v[x as usize];
        self.pc + 2
    }

    /// Sets the sound timer to register `x`.
    pub fn set_sound_timer(&mut self, x: u16) -> (next: usize)
        requires
            x < 16,
            old(self).pc + 2 <= usize::MAX,
        ensures
            next == old(self).pc + 2,
            final(self).opcode == old(self).opcode,
            final(self)@ == (Machine {
                timers: TimersState { delay: old(self).delay_timer, sound: old(self).v@[x as int] },
                ..old(self)@
            }),
    {
        self.sound_timer = self.v[x as usize];
        self.pc + 2
    }

    /// Points the index register at `nnn`.
    pub fn set_index(&mut self, nnn: u16) -> (next: usize)
        requires
            old(self).pc + 2 <= usize::MAX,
        ensures
            next == old(self).pc + 2,
            final(self).opcode == old(self).opcode,
            final(self)@ == old(self).having_memory(old(self)@.memory.indexed(nnn as int)),
    {
        self.i = nnn;
        self.pc + 2
    }

    /// Adds register `x` to the index register, wrapping at 2^16.
    pub fn index_add(&mut self, x: u16) -> (next: usize)
        requires
            x < 16,
            old(self).pc + 2 <= usize::MAX,
        ensures
            next == old(self).pc + 2,
            final(self).opcode == old(self).opcode,
            final(self)@ == old(self).having_memory(
                old(self)@.memory.index_added(old(self).v@[x as int] as int),
            ),
    {
        self.i = self.i.wrapping_add(self.v[x as usize] as u16);
        self.pc + 2
    }

    /// Points the index register at register `x` times five, the address of that
    /// glyph in a table of five-byte glyphs.
    pub fn set_index_sprite_location(&mut self, x: u16) -> (next: usize)
        requires
            x < 16,
            old(self).pc + 2 <= usize::MAX,
        ensures
            next == old(self).pc + 2,
            final(self).opcode == old(self).opcode,
            final(self)@ == old(self).having_memory(
                old(self)@.memory.indexed(old(self).v@[x as int] * 5),
            ),
    {
        self.i = self.v[x as usize] as u16 * 5;
        self.pc + 2
    }

    /// Stores the hundreds, tens and units digit of `x`, a value up to 255, in the
    /// three cells the index register points at.
    pub fn memory_store_bcd(&mut self, x: u16) -> (next: usize)
        requires
            x <= 255,
            old(self).i + 2 < MEM_SIZE,
            old(self).pc + 2 <= usize::MAX,
        ensures
            next == old(self).pc + 2,
            final(self).opcode == old(self).opcode,
            final(self)@ == old(self).having_memory(old(self)@.memory.bcd_stored(x as u8)),
    {
        let at = self.i as usize;
        self.memory[at] = (x / 100) as u8;
        self.memory[at + 1] = ((x / 10) % 10) as u8;
        self.memory[at + 2] = (x % 10) as u8;
        self.pc + 2
    }

    /// Reads registers 0 to `x` inclusive from memory, starting at the index
    /// register.
    pub fn read_registers(&mut self, x: u16) -> (next: usize)
        requires
            x < 16,
            old(self).i + x < MEM_SIZE,
            old(self).pc + 2 <= usize::MAX,
        ensures
            next == old(self).pc + 2,
            final(self).opcode == old(self).opcode,
            final(self)@ == old(self).having_registers(
                from_memory(
                    old(self)@.registers,
                    old(self)@.memory.cells,
                    old(self)@.memory.index,
                    x as int,
                ),
            ),
    {
        let at = self.i as usize;
        let ghost before = *self;
        let mut j: usize = 0;
        while j <= x as usize
            invariant
                x < 16,
                j <= x + 1,
                at + x < MEM_SIZE,
                before == *old(self),
                *self == (Chip8 { v: self.v, ..before }),
                at == before.i,
                forall|k: int|
                    0 <= k < 16 ==> self.v@[k] == if k < j {
                        before.memory@[at + k]
                    } else {
                        before.v@[k]
                    },
            decreases x + 1 - j,
        {
            self.v[j] = self.memory[at + j];
            j += 1;
        }
        self.pc + 2
    }

    /// Writes registers 0 to `x` inclusive to memory, starting at the index
    /// register.
    pub fn store_registers(&mut self, x: u16) -> (next: usize)
        requires
            x < 16,
            old(self).i + x < MEM_SIZE,
            old(self).pc + 2 <= usize::MAX,
        ensures
            next == old(self).pc + 2,
            final(self).opcode == old(self).opcode,
            final(self)@ == old(self).having_memory(
                MemoryState {
                    cells: with_registers(
                        old(self)@.memory.cells,
                        old(self)@.memory.index,
                        old(self)@.registers,
                        x as int,
                    ),
                    ..old(self)@.memory
                },
            ),
    {
        let at = self.i as usize;
        let ghost before = *self;
        let mut j: usize = 0;
        while j <= x as usize
            invariant
                x < 16,
                j <= x + 1,
                at + x < MEM_SIZE,
                before == *old(self),
                *self == (Chip8 { memory: self.memory, ..before }),
                at == before.i,
                forall|k: int|
                    0 <= k < MEM_SIZE ==> self.memory@[k] == if at <= k < at + j {
                        before.v@[k - at]
                    } else {
                        before.memory@[k]
                    },
            decreases x + 1 - j,
        {
            self.memory[at + j] = self.v[j];
            j += 1;
        }
        self.pc + 2
    }

    /// The instruction word at the program counter, high byte first.
    pub fn fetch_opcode(&mut self) -> (opcode: u16)
        requires
            old(self)@.can_fetch(),
        ensures
            opcode == old(self)@.opcode(),
            *final(self) == *old(self),
    {
        join(self.memory[self.pc], self.memory[self.pc + 1])
    }
}

} // verus!
