//! Main memory, the index register and the call stack.
//!
//! The model of the unit is [`MemoryState`]: the 4096 memory cells, the index
//! register, the sixteen stack slots and the stack pointer, all as mathematical
//! values.
//!
//! The stack pointer counts the return addresses stored and so runs from 0, the
//! empty stack, to 16, the full one. A call writes the slot the pointer designates
//! and leaves the pointer one past it; a return steps the pointer back by one and
//! reads the slot it lands on. Beyond its two ends the stack wraps around: a call
//! on a full stack writes the first slot, overwriting the oldest return address,
//! and leaves the pointer at 1; a return on an empty stack reads the last slot and
//! leaves the pointer at 15. Neither can fail, and the sixteen latest calls are
//! always returned from in order.

use crate::chip8::ExecutionState;
use vstd::prelude::*;

verus! {

/// Number of memory cells.
pub const MEM_SIZE: usize = 4096;

/// Number of slots of the call stack.
pub const STACK_DEPTH: usize = 16;

/// Address of the first glyph of the built-in font.
pub const FONT_SET_START: usize = 0x50;

/// Address at which programs are loaded.
pub const PROGRAM_START: usize = 0x200;

/// Largest program that fits between [`PROGRAM_START`] and the end of memory.
pub const PROGRAM_CAPACITY: usize = 3584;

/// The built-in font: sixteen glyphs of five rows each, for the digits 0 to F.
pub const FONT_SET: [u8; 80] = [
    0xF0, 0x90, 0x90, 0x90, 0xF0,
    0x20, 0x60, 0x20, 0x20, 0x70,
    0xF0, 0x10, 0xF0, 0x80, 0xF0,
    0xF0, 0x10, 0xF0, 0x10, 0xF0,
    0x90, 0x90, 0xF0, 0x10, 0x10,
    0xF0, 0x80, 0xF0, 0x10, 0xF0,
    0xF0, 0x80, 0xF0, 0x90, 0xF0,
    0xF0, 0x10, 0x20, 0x40, 0x40,
    0xF0, 0x90, 0xF0, 0x90, 0xF0,
    0xF0, 0x90, 0xF0, 0x10, 0xF0,
    0xF0, 0x90, 0xF0, 0x90, 0x90,
    0xE0, 0x90, 0xE0, 0x90, 0xE0,
    0xF0, 0x80, 0x80, 0x80, 0xF0,
    0xE0, 0x90, 0x90, 0x90, 0xE0,
    0xF0, 0x80, 0xF0, 0x80, 0xF0,
    0xF0, 0x80, 0xF0, 0x80, 0x80,
];

/// Memory cells with the font written at [`FONT_SET_START`].
pub open spec fn with_font(cells: Seq<u8>) -> Seq<u8> {
    Seq::new(
        cells.len(),
        |k: int|
            if FONT_SET_START <= k < FONT_SET_START + 80 {
                FONT_SET@[k - FONT_SET_START]
            } else {
                cells[k]
            },
    )
}

/// Memory cells with `program` written at [`PROGRAM_START`].
pub open spec fn with_program(cells: Seq<u8>, program: Seq<u8>) -> Seq<u8> {
    Seq::new(
        cells.len(),
        |k: int|
            if PROGRAM_START <= k < PROGRAM_START + program.len() {
                program[k - PROGRAM_START]
            } else {
                cells[k]
            },
    )
}

/// 4096 zero cells.
pub open spec fn blank_memory() -> Seq<u8> {
    Seq::new(MEM_SIZE as nat, |k: int| 0u8)
}

/// Memory cells with the hundreds, tens and units digit of `x` at `at`, `at + 1`
/// and `at + 2`.
pub open spec fn with_bcd(cells: Seq<u8>, at: int, x: u8) -> Seq<u8> {
    cells.update(at, (x / 100) as u8).update(at + 1, ((x / 10) % 10) as u8).update(
        at + 2,
        (x % 10) as u8,
    )
}

/// Memory cells with registers 0 to `x` inclusive written from `at` on.
pub open spec fn with_registers(cells: Seq<u8>, at: int, regs: Seq<u8>, x: int) -> Seq<u8> {
    Seq::new(cells.len(), |k: int| if at <= k <= at + x { regs[k - at] } else { cells[k] })
}

/// Registers with the first `x + 1` of them read from the memory cells at `at`.
pub open spec fn from_memory(regs: Seq<u8>, cells: Seq<u8>, at: int, x: int) -> Seq<u8> {
    Seq::new(regs.len(), |j: int| if j <= x { cells[at + j] } else { regs[j] })
}

/// The memory unit as contracts see it.
#[verifier::ext_equal]
pub struct MemoryState {
    /// The 4096 memory cells.
    pub cells: Seq<u8>,
    /// The index register.
    pub index: int,
    /// The sixteen slots of the call stack.
    pub stack: Seq<u16>,
    /// The stack pointer.
    pub stack_pointer: int,
}

impl MemoryState {
    /// The sizes are those of the machine and the stack pointer lies between 0, the
    /// empty stack, and 16, the full one.
    pub open spec fn well_formed(self) -> bool {
        &&& self.cells.len() == MEM_SIZE
        &&& self.stack.len() == STACK_DEPTH
        &&& 0 <= self.index
        &&& 0 <= self.stack_pointer <= STACK_DEPTH
    }

    /// The state of a freshly built unit: font in place, everything else zero.
    pub open spec fn initial() -> MemoryState {
        MemoryState {
            cells: with_font(blank_memory()),
            index: 0,
            stack: Seq::new(STACK_DEPTH as nat, |k: int| 0u16),
            stack_pointer: 0,
        }
    }

    /// The index register holds `nnn`.
    pub open spec fn indexed(self, nnn: int) -> MemoryState {
        MemoryState { index: nnn, ..self }
    }

    /// The index register grows by `vx`, modulo 2^16.
    pub open spec fn index_added(self, vx: int) -> MemoryState {
        MemoryState { index: (self.index + vx) % 0x10000, ..self }
    }

    /// The slot a call writes: the one the stack pointer designates, and the first
    /// slot when the stack is full.
    pub open spec fn call_slot(self) -> int {
        self.stack_pointer % (STACK_DEPTH as int)
    }

    /// The slot a return reads, which is also where it leaves the stack pointer: the
    /// one below the stack pointer, and the last slot when the stack is empty.
    pub open spec fn return_slot(self) -> int {
        (self.stack_pointer - 1) % (STACK_DEPTH as int)
    }

    /// `pc` has been pushed: it stands in the slot a call writes and the stack
    /// pointer is one past that slot.
    pub open spec fn called(self, pc: int) -> MemoryState {
        MemoryState {
            stack: self.stack.update(self.call_slot(), pc as u16),
            stack_pointer: self.call_slot() + 1,
            ..self
        }
    }

    /// The address a return hands back.
    pub open spec fn return_address(self) -> int {
        self.stack[self.return_slot()] as int
    }

    /// The top of the stack has been popped.
    pub open spec fn returned(self) -> MemoryState {
        MemoryState { stack_pointer: self.return_slot(), ..self }
    }

    /// The decimal digits of `x` have been stored at the index register.
    pub open spec fn bcd_stored(self, x: u8) -> MemoryState {
        MemoryState { cells: with_bcd(self.cells, self.index, x), ..self }
    }
}

/// The memory unit.
pub struct EmulatedMemory {
    /// The memory cells.
    pub mem_array: [u8; 4096],
    /// The index register.
    pub index: usize,
    /// The slots of the call stack.
    pub stack: [u16; 16],
    /// The stack pointer: the number of return addresses stored, 0 to 16.
    pub stack_pointer: usize,
}

impl View for EmulatedMemory {
    type V = MemoryState;

    open spec fn view(&self) -> MemoryState {
        MemoryState {
            cells: self.mem_array@,
            index: self.index as int,
            stack: self.stack@,
            stack_pointer: self.stack_pointer as int,
        }
    }
}

/// Writes the built-in font into `cells` at [`FONT_SET_START`].
pub fn install_font(cells: &mut [u8; 4096])
    ensures
        final(cells)@ == with_font(old(cells)@),
{
    let mut i: usize = 0;
    while i < 80
        invariant
            i <= 80,
            forall|k: int|
                0 <= k < 4096 ==> cells@[k] == if FONT_SET_START <= k < FONT_SET_START + i {
                    FONT_SET@[k - FONT_SET_START]
                } else {
                    old(cells)@[k]
                },
        decreases 80 - i,
    {
        cells[FONT_SET_START + i] = FONT_SET[i];
        i += 1;
    }
}

/// Copies `program` into `cells` at [`PROGRAM_START`].
pub fn install_program(cells: &mut [u8; 4096], program: &[u8])
    requires
        program@.len() <= PROGRAM_CAPACITY,
    ensures
        final(cells)@ == with_program(old(cells)@, program@),
{
    let mut i: usize = 0;
    while i < program.len()
        invariant
            i <= program@.len() <= PROGRAM_CAPACITY,
            forall|k: int|
                0 <= k < 4096 ==> cells@[k] == if PROGRAM_START <= k < PROGRAM_START + i {
                    program@[k - PROGRAM_START]
                } else {
                    old(cells)@[k]
                },
        decreases program@.len() - i,
    {
        cells[PROGRAM_START + i] = program[i];
        i += 1;
    }
}

impl EmulatedMemory {
    /// A memory unit in its initial state.
    pub fn new() -> (memory: Self)
        ensures
            memory@ == MemoryState::initial(),
    {
        Self::default()
    }

    /// A memory unit with the font at [`FONT_SET_START`], every other cell zero, an
    /// empty stack and the index register at zero.
    pub fn default() -> (memory: Self)
        ensures
            memory@ == MemoryState::initial(),
    {
        let mut mem_array: [u8; 4096] = [0; 4096];
        install_font(&mut mem_array);
        EmulatedMemory { mem_array, index: 0, stack: [0; 16], stack_pointer: 0 }
    }

    /// Points the index register at `nnn`.
    pub fn set_index(&mut self, nnn: usize) -> (state: ExecutionState)
        ensures
            state == ExecutionState::Continue,
            final(self)@ == old(self)@.indexed(nnn as int),
    {
        self.index = nnn;
        ExecutionState::Continue
    }

    /// Pushes `pc`, the address of the call instruction, and asks for a jump to
    /// `nnn`.
    pub fn call_subroutine(&mut self, nnn: usize, pc: usize) -> (state: ExecutionState)
        requires
            pc <= u16::MAX,
        ensures
            state == ExecutionState::JumpTo(nnn),
            final(self)@ == old(self)@.called(pc as int),
    {
        let slot = self.stack_pointer % STACK_DEPTH;
        self.stack[slot] = pc as u16;
        self.stack_pointer = slot + 1;
        ExecutionState::JumpTo(nnn)
    }

    /// Pops the address of the latest call instruction and asks to resume after it.
    pub fn return_from_subroutine(&mut self) -> (state: ExecutionState)
        ensures
            state == ExecutionState::ReturnTo(old(self)@.return_address() as usize),
            final(self)@ == old(self)@.returned(),
    {
        let slot = (self.stack_pointer % STACK_DEPTH + (STACK_DEPTH - 1)) % STACK_DEPTH;
        self.stack_pointer = slot;
        let pc = self.stack[slot];
        ExecutionState::ReturnTo(pc as usize)
    }

    /// Asks for a jump to `nnn`. The unit itself does not change.
    pub fn jump_to_address(&mut self, nnn: usize) -> (state: ExecutionState)
        ensures
            state == ExecutionState::JumpTo(nnn),
            final(self)@ == old(self)@,
    {
        ExecutionState::JumpTo(nnn)
    }

    /// Adds `vx` to the index register, wrapping at 2^16.
    pub fn index_add(&mut self, vx: u8) -> (state: ExecutionState)
        ensures
            state == ExecutionState::Continue,
            final(self)@ == old(self)@.index_added(vx as int),
    {
        let low = (self.index % 0x10000) as u16;
        self.index = low.wrapping_add(vx as u16) as usize;
        ExecutionState::Continue
    }

    /// Stores the hundreds, tens and units digit of `x` in the three cells the index
    /// register points at.
    pub fn memory_store_bcd(&mut self, x: u8) -> (state: ExecutionState)
        requires
            old(self).index + 2 < MEM_SIZE,
        ensures
            state == ExecutionState::Continue,
            final(self)@ == old(self)@.bcd_stored(x),
    {
        self.mem_array[self.index] = x / 100;
        self.mem_array[self.index + 1] = (x / 10) % 10;
        self.mem_array[self.index + 2] = x % 10;
        ExecutionState::Continue
    }
}

/// A call followed by a return hands back the address that was pushed and leaves
/// memory and the index register alone. Unless the stack was full, it also leaves
/// the stack pointer where it was before the call; on a full stack the call wraps
/// around and the return leaves the pointer at 0. A call on a stack that is not
/// full writes the slot the pointer designates and moves the pointer up by one, and
/// a return on a stack that is not empty reads the slot below the pointer.
pub proof fn lemma_call_then_return(m: MemoryState, pc: int)
    requires
        m.well_formed(),
        0 <= pc <= u16::MAX,
    ensures
        m.called(pc).return_address() == pc,
        m.called(pc).returned().cells == m.cells,
        m.called(pc).returned().index == m.index,
        m.stack_pointer < STACK_DEPTH ==> m.called(pc).returned().stack_pointer
            == m.stack_pointer,
        m.stack_pointer == STACK_DEPTH ==> m.called(pc).returned().stack_pointer == 0,
        m.stack_pointer < STACK_DEPTH ==> m.called(pc).stack_pointer == m.stack_pointer + 1
            && m.called(pc).stack == m.stack.update(m.stack_pointer, pc as u16),
        m.stack_pointer > 0 ==> m.returned().stack_pointer == m.stack_pointer - 1
            && m.return_address() == m.stack[m.stack_pointer - 1],
        m.called(pc).well_formed(),
        m.returned().well_formed(),
{
}

} // verus!
