//! The whole machine as contracts see it, and what one instruction does to it.
//!
//! [`Machine`] gathers the models of the units with the program counter and the
//! flag that tells the host that the screen changed. [`Machine::executed`] is the
//! state an instruction leaves behind, [`Machine::outcome`] what it asks of the
//! program counter, and [`Machine::cycled`] one full cycle: fetch, execute, move
//! the program counter, tick the timers.

use crate::chip8::emulated_cpu::{
    added,
    anded,
    borrow_subtracted,
    carry_added,
    flagged,
    masked,
    ored,
    reverse_subtracted,
    shifted_left,
    shifted_right,
    stored,
    xored,
    REGISTER_COUNT,
};
use crate::chip8::emulated_graphics::{blank_screen, collides, drawn, SCREEN_SIZE};
use crate::chip8::emulated_keypad::{first_pressed, KEY_COUNT};
use crate::chip8::emulated_memory::{
    from_memory,
    with_program,
    with_registers,
    MemoryState,
    MEM_SIZE,
    PROGRAM_START,
};
use crate::chip8::emulated_timers::TimersState;
use crate::chip8::opcode::{defined, family_of, kk_of, n_of, nnn_of, word, x_of, y_of};
use crate::chip8::ExecutionState;
use vstd::prelude::*;

verus! {

/// Registers after a register-to-register instruction with operation code `n`.
pub open spec fn combined(regs: Seq<u8>, x: int, y: int, n: u8) -> Seq<u8> {
    if n == 0x0 {
        stored(regs, x, regs[y])
    } else if n == 0x1 {
        ored(regs, x, y)
    } else if n == 0x2 {
        anded(regs, x, y)
    } else if n == 0x3 {
        xored(regs, x, y)
    } else if n == 0x4 {
        carry_added(regs, x, y)
    } else if n == 0x5 {
        borrow_subtracted(regs, x, y)
    } else if n == 0x6 {
        shifted_right(regs, x)
    } else if n == 0x7 {
        reverse_subtracted(regs, x, y)
    } else if n == 0xE {
        shifted_left(regs, x)
    } else {
        regs
    }
}

/// Every element is 0 or 1.
pub open spec fn binary(states: Seq<u8>) -> bool {
    forall|k: int| 0 <= k < states.len() ==> states[k] <= 1
}

/// The program counter after an instruction with the given outcome.
pub open spec fn next_pc(pc: int, state: ExecutionState) -> int {
    match state {
        ExecutionState::Hold => pc,
        ExecutionState::Skip => pc + 4,
        ExecutionState::Continue => pc + 2,
        ExecutionState::JumpTo(address) => address as int,
        ExecutionState::ReturnTo(address) => address + 2,
    }
}

/// The machine as contracts see it.
#[verifier::ext_equal]
pub struct Machine {
    /// Memory, index register and call stack.
    pub memory: MemoryState,
    /// The sixteen registers.
    pub registers: Seq<u8>,
    /// The sixteen key states.
    pub keys: Seq<u8>,
    /// The 2048 pixels.
    pub display: Seq<u8>,
    /// The two timers.
    pub timers: TimersState,
    /// The program counter.
    pub pc: int,
    /// Whether the screen changed since the host last drew it.
    pub draw_flag: bool,
}

impl Machine {
    /// The machine as it is built: font in memory, everything else zero, the program
    /// counter at the address where programs are loaded.
    pub open spec fn initial() -> Machine {
        Machine {
            memory: MemoryState::initial(),
            registers: Seq::new(16, |i: int| 0u8),
            keys: Seq::new(16, |k: int| 0u8),
            display: blank_screen(),
            timers: TimersState { delay: 0, sound: 0 },
            pc: PROGRAM_START as int,
            draw_flag: false,
        }
    }

    /// The machine with `program` in memory.
    pub open spec fn loaded(self, program: Seq<u8>) -> Machine {
        Machine {
            memory: MemoryState { cells: with_program(self.memory.cells, program), ..self.memory },
            ..self
        }
    }

    /// Every unit has the size the machine gives it, the stack pointer lies between
    /// 0 and 16, and keys and pixels hold nothing but 0 and 1.
    pub open spec fn well_formed(self) -> bool {
        &&& self.memory.well_formed()
        &&& self.registers.len() == REGISTER_COUNT
        &&& self.keys.len() == KEY_COUNT
        &&& self.display.len() == SCREEN_SIZE
        &&& binary(self.keys)
        &&& binary(self.display)
        &&& 0 <= self.pc
    }

    /// The program counter points at two bytes inside memory.
    pub open spec fn can_fetch(self) -> bool {
        0 <= self.pc && self.pc + 1 < MEM_SIZE
    }

    /// The instruction word at the program counter.
    pub open spec fn opcode(self) -> u16 {
        word(self.memory.cells[self.pc], self.memory.cells[self.pc + 1])
    }

    /// The sprite rows an instruction with count `n` draws.
    pub open spec fn sprite(self, n: int) -> Seq<u8> {
        self.memory.cells.subrange(self.memory.index, self.memory.index + n)
    }

    /// Whether `opcode` can be executed: the memory it reads or writes lies inside
    /// memory, the key it asks about exists, and the address a call pushes fits a
    /// stack slot.
    pub open spec fn can_execute(self, opcode: u16) -> bool {
        let f = family_of(opcode);
        let x = x_of(opcode) as int;
        let kk = kk_of(opcode);
        if f == 0x2 {
            self.pc <= u16::MAX
        } else if f == 0xD {
            self.memory.index + n_of(opcode) <= MEM_SIZE
        } else if f == 0xE && (kk == 0x9E || kk == 0xA1) {
            self.registers[x] < KEY_COUNT
        } else if f == 0xF && kk == 0x33 {
            self.memory.index + 2 < MEM_SIZE
        } else if f == 0xF && (kk == 0x55 || kk == 0x65) {
            self.memory.index + x < MEM_SIZE
        } else {
            true
        }
    }

    /// What `opcode` asks of the program counter.
    pub open spec fn outcome(self, opcode: u16) -> ExecutionState {
        let f = family_of(opcode);
        let vx = self.registers[x_of(opcode) as int];
        let vy = self.registers[y_of(opcode) as int];
        let n = n_of(opcode);
        let kk = kk_of(opcode);
        let nnn = nnn_of(opcode) as usize;
        if opcode == 0x00EE {
            ExecutionState::ReturnTo(self.memory.return_address() as usize)
        } else if f == 0x1 || f == 0x2 {
            ExecutionState::JumpTo(nnn)
        } else if f == 0xB {
            ExecutionState::JumpTo((nnn + self.registers[0]) as usize)
        } else if (f == 0x3 && vx == kk) || (f == 0x4 && vx != kk) || (f == 0x5 && n == 0 && vx
            == vy) || (f == 0x9 && n == 0 && vx != vy) || (f == 0xE && kk == 0x9E
            && self.keys[vx as int] == 1) || (f == 0xE && kk == 0xA1 && self.keys[vx as int]
            == 0) {
            ExecutionState::Skip
        } else if f == 0xF && kk == 0x0A && first_pressed(self.keys) >= KEY_COUNT {
            ExecutionState::Hold
        } else {
            ExecutionState::Continue
        }
    }

    /// The machine after an instruction of family F with low byte `kk`.
    pub open spec fn serviced(self, x: int, kk: u8) -> Machine {
        let vx = self.registers[x];
        if kk == 0x07 {
            Machine { registers: stored(self.registers, x, self.timers.delay), ..self }
        } else if kk == 0x0A {
            if first_pressed(self.keys) < KEY_COUNT {
                Machine {
                    registers: stored(self.registers, x, first_pressed(self.keys) as u8),
                    ..self
                }
            } else {
                self
            }
        } else if kk == 0x15 {
            Machine { timers: TimersState { delay: vx, sound: self.timers.sound }, ..self }
        } else if kk == 0x18 {
            Machine { timers: TimersState { delay: self.timers.delay, sound: vx }, ..self }
        } else if kk == 0x1E {
            Machine { memory: self.memory.index_added(vx as int), ..self }
        } else if kk == 0x29 {
            Machine { memory: self.memory.indexed(vx * 5), ..self }
        } else if kk == 0x33 {
            Machine { memory: self.memory.bcd_stored(vx), ..self }
        } else if kk == 0x55 {
            Machine {
                memory: MemoryState {
                    cells: with_registers(self.memory.cells, self.memory.index, self.registers, x),
                    ..self.memory
                },
                ..self
            }
        } else if kk == 0x65 {
            Machine {
                registers: from_memory(self.registers, self.memory.cells, self.memory.index, x),
                ..self
            }
        } else {
            self
        }
    }

    /// The machine after a sprite of `n` rows, read at the index register, has been
    /// drawn at column `vx`, row `vy`.
    pub open spec fn sprite_drawn(self, vx: int, vy: int, n: int) -> Machine {
        Machine {
            display: drawn(self.display, self.sprite(n), n, vx, vy),
            registers: flagged(self.registers, collides(self.display, self.sprite(n), n, vx, vy)),
            draw_flag: true,
            ..self
        }
    }

    /// The machine after `opcode` has been executed, the program counter not yet
    /// moved and the timers not yet ticked. `random` is the byte the random
    /// instruction draws; no other instruction looks at it.
    pub open spec fn executed(self, opcode: u16, random: u8) -> Machine {
        let f = family_of(opcode);
        let x = x_of(opcode) as int;
        let y = y_of(opcode) as int;
        let n = n_of(opcode);
        let kk = kk_of(opcode);
        if opcode == 0x00E0 {
            Machine { display: blank_screen(), draw_flag: true, ..self }
        } else if opcode == 0x00EE {
            Machine { memory: self.memory.returned(), ..self }
        } else if f == 0x2 {
            Machine { memory: self.memory.called(self.pc), ..self }
        } else if f == 0x6 {
            Machine { registers: stored(self.registers, x, kk), ..self }
        } else if f == 0x7 {
            Machine { registers: added(self.registers, x, kk as int), ..self }
        } else if f == 0x8 {
            Machine { registers: combined(self.registers, x, y, n), ..self }
        } else if f == 0xA {
            Machine { memory: self.memory.indexed(nnn_of(opcode) as int), ..self }
        } else if f == 0xC {
            Machine { registers: masked(self.registers, x, random, kk), ..self }
        } else if f == 0xD {
            self.sprite_drawn(self.registers[x] as int, self.registers[y] as int, n as int)
        } else if f == 0xF {
            self.serviced(x, kk)
        } else {
            self
        }
    }

    /// The machine with the program counter moved as `state` asks.
    pub open spec fn advanced(self, state: ExecutionState) -> Machine {
        Machine { pc: next_pc(self.pc, state), ..self }
    }

    /// The machine with both timers one tick later.
    pub open spec fn ticked(self) -> Machine {
        Machine { timers: self.timers.ticked(), ..self }
    }

    /// Whether a whole cycle can run: the instruction can be fetched and executed.
    pub open spec fn can_cycle(self) -> bool {
        self.can_fetch() && self.can_execute(self.opcode())
    }

    /// The machine one cycle later.
    pub open spec fn cycled(self, random: u8) -> Machine {
        self.executed(self.opcode(), random).advanced(self.outcome(self.opcode())).ticked()
    }
}

/// A word outside the instruction set leaves the machine as it is and lets
/// execution continue with the next word.
pub proof fn lemma_undefined_is_passed_over(m: Machine, opcode: u16, random: u8)
    requires
        !defined(opcode),
    ensures
        m.executed(opcode, random) == m,
        m.outcome(opcode) == ExecutionState::Continue,
        m.can_execute(opcode),
{
}

/// The machine starts well formed, and neither loading a program nor pressing or
/// releasing a key changes that.
pub proof fn lemma_well_formed_outside_cycles(m: Machine, program: Seq<u8>, key: int)
    requires
        m.well_formed(),
        0 <= key < KEY_COUNT,
    ensures
        Machine::initial().well_formed(),
        m.loaded(program).well_formed(),
        (Machine { keys: m.keys.update(key, 1), ..m }).well_formed(),
        (Machine { keys: m.keys.update(key, 0), ..m }).well_formed(),
{
}

/// A well-formed machine is still well formed after any instruction it can execute
/// and after any cycle it can run. In particular the stack pointer never exceeds
/// 16 and every pixel stays 0 or 1.
pub proof fn lemma_well_formed_is_kept(m: Machine, opcode: u16, random: u8)
    requires
        m.well_formed(),
    ensures
        m.can_execute(opcode) ==> m.executed(opcode, random).well_formed(),
        m.can_cycle() ==> m.cycled(random).well_formed(),
{
    assert forall|v: u8| v <= 1 implies #[trigger] (v ^ 1u8) <= 1 by {
        assert(v <= 1 ==> (v ^ 1u8) <= 1) by (bit_vector);
    }
    if m.can_execute(opcode) {
        assert(binary(m.executed(opcode, random).display));
    }
    if m.can_cycle() {
        assert(binary(m.executed(m.opcode(), random).display));
    }
}

/// The program counter stays on an even address as long as jumps and returns aim at
/// even addresses: going on, skipping and holding never leave one.
pub proof fn lemma_alignment_is_kept(pc: int, state: ExecutionState)
    requires
        pc % 2 == 0,
        state matches ExecutionState::JumpTo(address) ==> address % 2 == 0,
        state matches ExecutionState::ReturnTo(address) ==> address % 2 == 0,
    ensures
        next_pc(pc, state) % 2 == 0,
{
}

/// Only the random instruction depends on the byte drawn.
pub proof fn lemma_random_only_in_family_c(m: Machine, opcode: u16, a: u8, b: u8)
    requires
        family_of(opcode) != 0xC,
    ensures
        m.executed(opcode, a) == m.executed(opcode, b),
{
}

} // verus!
