//! The CHIP-8 machine assembled from its units.
//!
//! [`Chip8`] owns the register file, the memory unit, the keypad, the frame buffer
//! and the timers. One cycle fetches the instruction word at the program counter,
//! hands its fields to the unit concerned, moves the program counter as the
//! resulting [`ExecutionState`] asks, and ticks the timers. What a cycle does is
//! stated over [`machine::Machine`], the model of the whole machine.
//!
//! A cycle can only run when the instruction can be fetched and the memory it
//! touches lies inside memory; [`Chip8::is_runnable`] tells. Words outside the
//! instruction set are passed over.

pub mod emulated_cpu;
pub mod emulated_graphics;
pub mod emulated_keypad;
pub mod emulated_memory;
pub mod emulated_timers;
pub mod machine;
pub mod opcode;

use crate::chip8::emulated_cpu::EmulatedCpu;
use crate::chip8::emulated_graphics::EmulatedGraphics;
use crate::chip8::emulated_keypad::EmulatedKeypad;
use crate::chip8::emulated_memory::{
    from_memory,
    install_program,
    with_registers,
    EmulatedMemory,
    MemoryState,
    MEM_SIZE,
    PROGRAM_CAPACITY,
    PROGRAM_START,
};
use crate::chip8::emulated_timers::EmulatedTimers;
use crate::chip8::machine::Machine;
use crate::chip8::opcode::{family_of, join, split};
use crate::entropy::random_byte;
use vstd::prelude::*;

verus! {

/// What an instruction asks the dispatcher to do with the program counter.
#[derive(Clone, Copy, Debug, PartialEq, Eq, Structural)]
pub enum ExecutionState {
    /// Stay on the same instruction.
    Hold,
    /// Step over the next instruction.
    Skip,
    /// Go on with the next instruction.
    Continue,
    /// Resume after the call instruction stored at this address.
    ReturnTo(usize),
    /// Go on at this address.
    JumpTo(usize),
}

/// Why a program could not be loaded.
#[derive(Clone, Copy, Debug, PartialEq, Eq, Structural)]
pub enum LoadError {
    /// The program does not fit between the load address and the end of memory.
    ProgramTooLarge,
}

/// The machine: its units, the program counter and the flag for the host.
pub struct Chip8 {
    /// Memory, index register and call stack.
    pub memory: EmulatedMemory,
    /// The register file.
    pub cpu: EmulatedCpu,
    /// The keypad.
    pub keypad: EmulatedKeypad,
    /// The timers.
    pub timers: EmulatedTimers,
    /// The frame buffer, for the host to draw.
    pub graphics: EmulatedGraphics,
    /// Set whenever an instruction cleared the screen or drew on it; the host clears
    /// it once it has drawn the frame.
    pub draw_flag: bool,
    /// The address of the next instruction.
    pub pc: usize,
}

impl View for Chip8 {
    type V = Machine;

    open spec fn view(&self) -> Machine {
        Machine {
            memory: self.memory@,
            registers: self.cpu.register@,
            keys: self.keypad.keypad@,
            display: self.graphics.display@,
            timers: self.timers@,
            pc: self.pc as int,
            draw_flag: self.draw_flag,
        }
    }
}

impl Chip8 {
    /// A machine in its initial state.
    pub fn new() -> (chip8: Self)
        ensures
            chip8@ == Machine::initial(),
    {
        Self::default()
    }

    /// A machine with the font in memory, everything else zero and the program
    /// counter at the load address.
    pub fn default() -> (chip8: Self)
        ensures
            chip8@ == Machine::initial(),
    {
        Chip8 {
            pc: PROGRAM_START,
            memory: EmulatedMemory::new(),
            timers: EmulatedTimers::new(),
            draw_flag: false,
            cpu: EmulatedCpu::new(),
            keypad: EmulatedKeypad::new(),
            graphics: EmulatedGraphics::new(),
        }
    }

    /// Copies `program` into memory at the load address. A program that does not
    /// fit is refused and the machine is left as it was.
    pub fn load_program(&mut self, program: &[u8]) -> (result: Result<(), LoadError>)
        ensures
            program@.len() <= PROGRAM_CAPACITY ==> result == Ok::<(), LoadError>(())
                && final(self)@ == old(self)@.loaded(program@),
            program@.len() > PROGRAM_CAPACITY ==> result == Err::<(), LoadError>(
                LoadError::ProgramTooLarge,
            ) && final(self)@ == old(self)@,
    {
        if program.len() > PROGRAM_CAPACITY {
            return Err(LoadError::ProgramTooLarge);
        }
        install_program(&mut self.memory.mem_array, program);
        Ok(())
    }

    /// Tells whether the next cycle can run: the program counter points at two
    /// bytes inside memory, and the instruction found there stays inside memory and
    /// asks only about keys that exist.
    pub fn is_runnable(&self) -> (ok: bool)
        ensures
            ok == self@.can_cycle(),
    {
        if self.pc >= MEM_SIZE - 1 {
            return false;
        }
        let opcode = join(self.memory.mem_array[self.pc], self.memory.mem_array[self.pc + 1]);
        let fields = split(opcode);
        let index = self.memory.index;
        let vx = self.cpu.register[fields.x as usize];
        if fields.f == 0xD {
            index <= MEM_SIZE && fields.n as usize <= MEM_SIZE - index
        } else if fields.f == 0xE && (fields.kk == 0x9E || fields.kk == 0xA1) {
            vx < 16
        } else if fields.f == 0xF && fields.kk == 0x33 {
            index < MEM_SIZE - 2
        } else if fields.f == 0xF && (fields.kk == 0x55 || fields.kk == 0x65) {
            index < MEM_SIZE && (fields.x as usize) < MEM_SIZE - index
        } else {
            true
        }
    }

    /// Runs one cycle: fetches the instruction at the program counter, executes it,
    /// moves the program counter and ticks the timers. The random instruction draws
    /// its byte here; any other instruction has one possible result.
    pub fn emulate_cycle(&mut self)
        requires
            old(self)@.can_cycle(),
        ensures
            exists|random: u8| final(self)@ == #[trigger] old(self)@.cycled(random),
            family_of(old(self)@.opcode()) != 0xC ==> final(self)@ == old(self)@.cycled(0),
    {
        let opcode = self.fetch_opcode();
        let state = self.execute_opcode(opcode);
        let ghost executed = self@;
        self.pc = match state {
            ExecutionState::Hold => self.pc,
            ExecutionState::Skip => self.pc + 4,
            ExecutionState::Continue => self.pc + 2,
            ExecutionState::JumpTo(address) => address,
            ExecutionState::ReturnTo(address) => address + 2,
        };
        self.timers.tick();
        proof {
            let random = choose|random: u8|
                executed == #[trigger] old(self)@.executed(opcode, random);
            assert(self@ == old(self)@.cycled(random));
        }
    }

    /// Asks to skip the next instruction when `a` equals `b`.
    pub fn skip_if_equal(&mut self, a: u8, b: u8) -> (state: ExecutionState)
        ensures
            state == if a == b {
                ExecutionState::Skip
            } else {
                ExecutionState::Continue
            },
            *final(self) == *old(self),
    {
        if a == b {
            ExecutionState::Skip
        } else {
            ExecutionState::Continue
        }
    }

    /// Asks to skip the next instruction when `a` differs from `b`.
    pub fn skip_if_diff(&mut self, a: u8, b: u8) -> (state: ExecutionState)
        ensures
            state == if a != b {
                ExecutionState::Skip
            } else {
                ExecutionState::Continue
            },
            *final(self) == *old(self),
    {
        if a != b {
            ExecutionState::Skip
        } else {
            ExecutionState::Continue
        }
    }

    /// Draws the sprite of `n` rows found at the index register at column `vx`, row
    /// `vy`, stores the collision report in the flag register and marks the screen
    /// as changed.
    pub fn draw(&mut self, vx: u8, vy: u8, n: u8) -> (state: ExecutionState)
        requires
            n <= 15,
            old(self).memory.index + n <= MEM_SIZE,
        ensures
            state == ExecutionState::Continue,
            final(self)@ == old(self)@.sprite_drawn(vx as int, vy as int, n as int),
    {
        let index = self.memory.index;
        let sprite = &self.memory.mem_array[index..index + n as usize];
        let collision = self.graphics.draw_sprite(vx, vy, n, sprite);
        self.cpu.register[0xF] = if collision {
            1
        } else {
            0
        };
        self.draw_flag = true;
        ExecutionState::Continue
    }

    /// Points the index register at `vx` times five, the address of glyph `vx` in a
    /// table of five-byte glyphs.
    pub fn set_index_sprite_location(&mut self, vx: u8) -> (state: ExecutionState)
        ensures
            state == ExecutionState::Continue,
            final(self)@ == (Machine { memory: old(self)@.memory.indexed(vx * 5), ..old(self)@ }),
    {
        self.memory.index = vx as usize * 5;
        ExecutionState::Continue
    }

    /// Reads registers 0 to `x` inclusive from memory, starting at the index
    /// register.
    pub fn read_registers(&mut self, x: u8) -> (state: ExecutionState)
        requires
            x < 16,
            old(self).memory.index + x < MEM_SIZE,
        ensures
            state == ExecutionState::Continue,
            final(self)@ == (Machine {
                registers: from_memory(
                    old(self)@.registers,
                    old(self)@.memory.cells,
                    old(self)@.memory.index,
                    x as int,
                ),
                ..old(self)@
            }),
    {
        let at = self.memory.index;
        let mut j: usize = 0;
        while j <= x as usize
            invariant
                x < 16,
                j <= x + 1,
                at + x < MEM_SIZE,
                at == self.memory.index,
                self.memory == old(self).memory,
                self.keypad == old(self).keypad,
                self.graphics == old(self).graphics,
                self.timers == old(self).timers,
                self.pc == old(self).pc,
                self.draw_flag == old(self).draw_flag,
                forall|k: int|
                    0 <= k < 16 ==> self.cpu.register@[k] == if k < j {
                        self.memory.mem_array@[at + k]
                    } else {
                        old(self).cpu.register@[k]
                    },
            decreases x + 1 - j,
        {
            self.cpu.register[j] = self.memory.mem_array[at + j];
            j += 1;
        }
        ExecutionState::Continue
    }

    /// Writes registers 0 to `x` inclusive to memory, starting at the index
    /// register.
    pub fn store_registers(&mut self, x: u8) -> (state: ExecutionState)
        requires
            x < 16,
            old(self).memory.index + x < MEM_SIZE,
        ensures
            state == ExecutionState::Continue,
            final(self)@ == (Machine {
                memory: MemoryState {
                    cells: with_registers(
                        old(self)@.memory.cells,
                        old(self)@.memory.index,
                        old(self)@.registers,
                        x as int,
                    ),
                    ..old(self)@.memory
                },
                ..old(self)@
            }),
    {
        let at = self.memory.index;
        let mut j: usize = 0;
        while j <= x as usize
            invariant
                x < 16,
                j <= x + 1,
                at + x < MEM_SIZE,
                at == self.memory.index,
                self.memory.index == old(self).memory.index,
                self.memory.stack == old(self).memory.stack,
                self.memory.stack_pointer == old(self).memory.stack_pointer,
                self.cpu == old(self).cpu,
                self.keypad == old(self).keypad,
                self.graphics == old(self).graphics,
                self.timers == old(self).timers,
                self.pc == old(self).pc,
                self.draw_flag == old(self).draw_flag,
                forall|k: int|
                    0 <= k < MEM_SIZE ==> self.memory.mem_array@[k] == if at <= k < at + j {
                        self.cpu.register@[k - at]
                    } else {
                        old(self).memory.mem_array@[k]
                    },
            decreases x + 1 - j,
        {
            self.memory.mem_array[at + j] = self.cpu.register[j];
            j += 1;
        }
        ExecutionState::Continue
    }

    /// The instruction word at the program counter, high byte first.
    pub fn fetch_opcode(&mut self) -> (opcode: u16)
        requires
            old(self)@.can_fetch(),
        ensures
            opcode == old(self)@.opcode(),
            *final(self) == *old(self),
    {
        join(self.memory.mem_array[self.pc], self.memory.mem_array[self.pc + 1])
    }

    /// Marks `key` as pressed.
    pub fn press_key(&mut self, key: u8)
        requires
            key < 16,
        ensures
            final(self)@ == (Machine { keys: old(self)@.keys.update(key as int, 1), ..old(self)@ }),
    {
        self.keypad.press_key(key);
    }

    /// Marks `key` as released.
    pub fn release_key(&mut self, key: u8)
        requires
            key < 16,
        ensures
            final(self)@ == (Machine { keys: old(self)@.keys.update(key as int, 0), ..old(self)@ }),
    {
        self.keypad.release_key(key);
    }

    /// Executes `opcode`, drawing a random byte when the instruction asks for one,
    /// and hands back what the instruction asks of the program counter. Whatever
    /// byte is drawn, the machine ends up as [`Chip8::execute_opcode_with`] leaves
    /// it for that byte.
    pub fn execute_opcode(&mut self, opcode: u16) -> (state: ExecutionState)
        requires
            old(self)@.can_execute(opcode),
        ensures
            state == old(self)@.outcome(opcode),
            exists|random: u8| final(self)@ == #[trigger] old(self)@.executed(opcode, random),
            family_of(opcode) != 0xC ==> final(self)@ == old(self)@.executed(opcode, 0),
    {
        let random = if split(opcode).f == 0xC {
            random_byte()
        } else {
            0
        };
        self.execute_opcode_with(opcode, random)
    }

    /// Executes `opcode` with `random` as the byte that the random instruction
    /// uses, and hands back what the instruction asks of the program counter. The
    /// program counter itself is not moved and the timers are not ticked.
    pub fn execute_opcode_with(&mut self, opcode: u16, random: u8) -> (state: ExecutionState)
        requires
            old(self)@.can_execute(opcode),
        ensures
            state == old(self)@.outcome(opcode),
            final(self)@ == old(self)@.executed(opcode, random),
    {
        let fields = split(opcode);
        let f = fields.f;
        let x = fields.x;
        let y = fields.y;
        let n = fields.n;
        let kk = fields.kk;
        let nnn = fields.nnn as usize;
        let vx = self.cpu.register[x as usize];
        let vy = self.cpu.register[y as usize];
        match (f, x, y, n) {
            (0x0, 0x0, 0xE, 0xE) => self.memory.return_from_subroutine(),
            (0x0, 0x0, 0xE, 0x0) => {
                self.draw_flag = true;
                self.graphics.clear_display()
            },
            (0x1, _, _, _) => self.memory.jump_to_address(nnn),
            (0x2, _, _, _) => self.memory.call_subroutine(nnn, self.pc),
            (0x3, _, _, _) => self.skip_if_equal(vx, kk),
            (0x4, _, _, _) => self.skip_if_diff(vx, kk),
            (0x5, _, _, 0x0) => self.skip_if_equal(vx, vy),
            (0x6, _, _, _) => self.cpu.set_register(x, kk),
            (0x7, _, _, _) => self.cpu.register_add_value(x, kk),
            (0x8, _, _, 0x0) => self.cpu.set_register(x, vy),
            (0x8, _, _, 0x1) => self.cpu.register_or(x, y),
            (0x8, _, _, 0x2) => self.cpu.register_and(x, y),
            (0x8, _, _, 0x3) => self.cpu.register_xor(x, y),
            (0x8, _, _, 0x4) => self.cpu.register_carry_add(x, y),
            (0x8, _, _, 0x5) => self.cpu.register_borrow_sub(x, y),
            (0x8, _, _, 0x6) => self.cpu.register_shr(x),
            (0x8, _, _, 0x7) => self.cpu.register_borrow_sub_rev(x, y),
            (0x8, _, _, 0xE) => self.cpu.register_shl(x),
            (0x9, _, _, 0x0) => self.skip_if_diff(vx, vy),
            (0xA, _, _, _) => self.memory.set_index(nnn),
            (0xB, _, _, _) => {
                let v0 = self.cpu.register[0];
                self.memory.jump_to_address(nnn + v0 as usize)
            },
            (0xC, _, _, _) => self.cpu.register_mask(x, random, kk),
            (0xD, _, _, _) => self.draw(vx, vy, n),
            (0xE, _, 0x9, 0xE) => self.keypad.skip_if_pressed(vx),
            (0xE, _, 0xA, 0x1) => self.keypad.skip_if_released(vx),
            (0xF, _, 0x0, 0x7) => {
                let delay = self.timers.get_delay_timer();
                self.cpu.set_register(x, delay)
            },
            (0xF, _, 0x0, 0xA) => {
                let mut key = vx;
                let state = self.keypad.wait_for_key(&mut key);
                self.cpu.register[x as usize] = key;
                state
            },
            (0xF, _, 0x1, 0x5) => self.timers.set_delay_timer(vx),
            (0xF, _, 0x1, 0x8) => self.timers.set_sound_timer(vx),
            (0xF, _, 0x1, 0xE) => self.memory.index_add(vx),
            (0xF, _, 0x2, 0x9) => self.set_index_sprite_location(vx),
            (0xF, _, 0x3, 0x3) => self.memory.memory_store_bcd(vx),
            (0xF, _, 0x5, 0x5) => self.store_registers(x),
            (0xF, _, 0x6, 0x5) => self.read_registers(x),
            _ => ExecutionState::Continue,
        }
    }
}

} // verus!
