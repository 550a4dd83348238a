//! The register file: sixteen 8-bit registers, the last of which doubles as the
//! carry, borrow and collision flag.
//!
//! The model of a register file is the sequence of its sixteen bytes. Every
//! arithmetic handler computes its result modulo 256 and writes the flag last, so
//! the flag is always derived from the operands as they were before the handler ran
//! and wins when the destination is the flag register itself.

use crate::chip8::ExecutionState;
use crate::entropy::random_byte;
use vstd::prelude::*;

verus! {

/// Number of registers.
pub const REGISTER_COUNT: usize = 16;

/// Index of the flag register.
pub const FLAG_REGISTER: usize = 15;

/// `value` reduced to a byte.
pub open spec fn wrapped(value: int) -> u8 {
    (value % 256) as u8
}

/// The register file with the flag register set to 1 or 0.
pub open spec fn flagged(regs: Seq<u8>, flag: bool) -> Seq<u8> {
    regs.update(FLAG_REGISTER as int, if flag { 1u8 } else { 0u8 })
}

/// Register `x` holds `value`.
pub open spec fn stored(regs: Seq<u8>, x: int, value: u8) -> Seq<u8> {
    regs.update(x, value)
}

/// Register `x` grows by `kk`, modulo 256; the flag is left alone.
pub open spec fn added(regs: Seq<u8>, x: int, kk: int) -> Seq<u8> {
    regs.update(x, wrapped(regs[x] + kk))
}

/// Register `x` becomes the bitwise OR of registers `x` and `y`.
pub open spec fn ored(regs: Seq<u8>, x: int, y: int) -> Seq<u8> {
    regs.update(x, regs[x] | regs[y])
}

/// Register `x` becomes the bitwise AND of registers `x` and `y`.
pub open spec fn anded(regs: Seq<u8>, x: int, y: int) -> Seq<u8> {
    regs.update(x, regs[x] & regs[y])
}

/// Register `x` becomes the bitwise XOR of registers `x` and `y`.
pub open spec fn xored(regs: Seq<u8>, x: int, y: int) -> Seq<u8> {
    regs.update(x, regs[x] ^ regs[y])
}

/// Register `x` becomes the sum of registers `x` and `y` modulo 256; the flag tells
/// whether the sum exceeded 255.
pub open spec fn carry_added(regs: Seq<u8>, x: int, y: int) -> Seq<u8> {
    flagged(regs.update(x, wrapped(regs[x] + regs[y])), regs[x] + regs[y] > 255)
}

/// Register `x` becomes register `x` minus register `y` modulo 256; the flag tells
/// whether register `x` was the greater one.
pub open spec fn borrow_subtracted(regs: Seq<u8>, x: int, y: int) -> Seq<u8> {
    flagged(regs.update(x, wrapped(regs[x] - regs[y])), regs[x] > regs[y])
}

/// Register `x` becomes register `y` minus register `x` modulo 256; the flag tells
/// whether register `y` was the greater one.
pub open spec fn reverse_subtracted(regs: Seq<u8>, x: int, y: int) -> Seq<u8> {
    flagged(regs.update(x, wrapped(regs[y] - regs[x])), regs[y] > regs[x])
}

/// Register `x` is halved; the flag receives the bit that fell off.
pub open spec fn shifted_right(regs: Seq<u8>, x: int) -> Seq<u8> {
    flagged(regs.update(x, (regs[x] / 2) as u8), regs[x] % 2 == 1)
}

/// Register `x` is doubled modulo 256; the flag receives the bit that fell off.
pub open spec fn shifted_left(regs: Seq<u8>, x: int) -> Seq<u8> {
    flagged(regs.update(x, wrapped(regs[x] * 2)), regs[x] >= 128)
}

/// Register `x` holds the bits of `byte` that `kk` lets through.
pub open spec fn masked(regs: Seq<u8>, x: int, byte: u8, kk: u8) -> Seq<u8> {
    regs.update(x, byte & kk)
}

/// The register file.
#[derive(Debug, PartialEq)]
pub struct EmulatedCpu {
    /// The sixteen registers. `register[0xF]` is the flag and should not be used as
    /// a general-purpose register by programs.
    pub register: [u8; 16],
}

impl EmulatedCpu {
    /// A register file with every register zero.
    pub fn new() -> (cpu: Self)
        ensures
            cpu.register@ == Seq::new(16, |i: int| 0u8),
    {
        EmulatedCpu { register: [0; 16] }
    }

    /// Stores `kk` in register `x`.
    pub fn set_register(&mut self, x: u8, kk: u8) -> (state: ExecutionState)
        requires
            x < 16,
        ensures
            state == ExecutionState::Continue,
            final(self).register@ == stored(old(self).register@, x as int, kk),
    {
        self.register[x as usize] = kk;
        ExecutionState::Continue
    }

    /// Adds `kk` to register `x`, wrapping at 256. The flag is not touched.
    pub fn register_add_value(&mut self, x: u8, kk: u8) -> (state: ExecutionState)
        requires
            x < 16,
        ensures
            state == ExecutionState::Continue,
            final(self).register@ == added(old(self).register@, x as int, kk as int),
    {
        let sum = self.register[x as usize].wrapping_add(kk);
        self.register[x as usize] = sum;
        ExecutionState::Continue
    }

    /// ORs register `y` into register `x`.
    pub fn register_or(&mut self, x: u8, y: u8) -> (state: ExecutionState)
        requires
            x < 16,
            y < 16,
        ensures
            state == ExecutionState::Continue,
            final(self).register@ == ored(old(self).register@, x as int, y as int),
    {
        let value = self.register[x as usize] | self.register[y as usize];
        self.register[x as usize] = value;
        ExecutionState::Continue
    }

    /// ANDs register `y` into register `x`.
    pub fn register_and(&mut self, x: u8, y: u8) -> (state: ExecutionState)
        requires
            x < 16,
            y < 16,
        ensures
            state == ExecutionState::Continue,
            final(self).register@ == anded(old(self).register@, x as int, y as int),
    {
        let value = self.register[x as usize] & self.register[y as usize];
        self.register[x as usize] = value;
        ExecutionState::Continue
    }

    /// XORs register `y` into register `x`.
    pub fn register_xor(&mut self, x: u8, y: u8) -> (state: ExecutionState)
        requires
            x < 16,
            y < 16,
        ensures
            state == ExecutionState::Continue,
            final(self).register@ == xored(old(self).register@, x as int, y as int),
    {
        let value = self.register[x as usize] ^ self.register[y as usize];
        self.register[x as usize] = value;
        ExecutionState::Continue
    }

    /// Adds register `y` to register `x`, wrapping at 256, and sets the flag when the
    /// sum did not fit in a byte.
    pub fn register_carry_add(&mut self, x: u8, y: u8) -> (state: ExecutionState)
        requires
            x < 16,
            y < 16,
        ensures
            state == ExecutionState::Continue,
            final(self).register@ == carry_added(old(self).register@, x as int, y as int),
    {
        let a = self.register[x as usize];
        let b = self.register[y as usize];
        let carry: u8 = if a as u16 + b as u16 > 0xFF { 1 } else { 0 };
        self.register[x as usize] = a.wrapping_add(b);
        self.register[FLAG_REGISTER] = carry;
        ExecutionState::Continue
    }

    /// Subtracts register `y` from register `x`, wrapping at 256, and sets the flag
    /// when register `x` was greater than register `y` before the subtraction.
    pub fn register_borrow_sub(&mut self, x: u8, y: u8) -> (state: ExecutionState)
        requires
            x < 16,
            y < 16,
        ensures
            state == ExecutionState::Continue,
            final(self).register@ == borrow_subtracted(old(self).register@, x as int, y as int),
    {
        let a = self.register[x as usize];
        let b = self.register[y as usize];
        let no_borrow: u8 = if a > b { 1 } else { 0 };
        self.register[x as usize] = a.wrapping_sub(b);
        self.register[FLAG_REGISTER] = no_borrow;
        ExecutionState::Continue
    }

    /// Replaces register `x` by register `y` minus register `x`, wrapping at 256, and
    /// sets the flag when register `y` was greater than register `x` before the
    /// subtraction.
    pub fn register_borrow_sub_rev(&mut self, x: u8, y: u8) -> (state: ExecutionState)
        requires
            x < 16,
            y < 16,
        ensures
            state == ExecutionState::Continue,
            final(self).register@ == reverse_subtracted(old(self).register@, x as int, y as int),
    {
        let a = self.register[x as usize];
        let b = self.register[y as usize];
        let no_borrow: u8 = if b > a { 1 } else { 0 };
        self.register[x as usize] = b.wrapping_sub(a);
        self.register[FLAG_REGISTER] = no_borrow;
        ExecutionState::Continue
    }

    /// Shifts register `x` one bit to the right; the flag receives the old lowest bit.
    pub fn register_shr(&mut self, x: u8) -> (state: ExecutionState)
        requires
            x < 16,
        ensures
            state == ExecutionState::Continue,
            final(self).register@ == shifted_right(old(self).register@, x as int),
    {
        let a = self.register[x as usize];
        let low = a & 0b0000_0001;
        let rest = a >> 1;
        assert(low == a % 2 && rest == a / 2) by (bit_vector)
            requires
                low == a & 1,
                rest == a >> 1,
        ;
        self.register[x as usize] = rest;
        self.register[FLAG_REGISTER] = low;
        ExecutionState::Continue
    }

    /// Shifts register `x` one bit to the left; the flag receives the old highest bit.
    pub fn register_shl(&mut self, x: u8) -> (state: ExecutionState)
        requires
            x < 16,
        ensures
            state == ExecutionState::Continue,
            final(self).register@ == shifted_left(old(self).register@, x as int),
    {
        let a = self.register[x as usize];
        let high = (a & 0b1000_0000) >> 7;
        let rest = a << 1;
        assert(high == (if a >= 128 { 1u8 } else { 0u8 }) && rest == (a * 2) % 256) by (bit_vector)
            requires
                high == (a & 0x80) >> 7,
                rest == a << 1,
        ;
        self.register[x as usize] = rest;
        self.register[FLAG_REGISTER] = high;
        ExecutionState::Continue
    }

    /// Stores in register `x` the bits of `byte` selected by the mask `kk`.
    pub fn register_mask(&mut self, x: u8, byte: u8, kk: u8) -> (state: ExecutionState)
        requires
            x < 16,
        ensures
            state == ExecutionState::Continue,
            final(self).register@ == masked(old(self).register@, x as int, byte, kk),
    {
        self.register[x as usize] = byte & kk;
        ExecutionState::Continue
    }

    /// Stores in register `x` a random byte masked by `kk`. Which byte is drawn is
    /// not known in advance; whatever it is, the register ends up as
    /// [`EmulatedCpu::register_mask`] leaves it for that byte.
    pub fn register_random_and(&mut self, x: u8, kk: u8) -> (state: ExecutionState)
        requires
            x < 16,
        ensures
            state == ExecutionState::Continue,
            exists|byte: u8|
                final(self).register@ == #[trigger] masked(old(self).register@, x as int, byte, kk),
    {
        let byte = random_byte();
        self.register_mask(x, byte, kk)
    }
}

impl Default for EmulatedCpu {
    fn default() -> (cpu: Self)
        ensures
            cpu.register@ == Seq::new(16, |i: int| 0u8),
    {
        EmulatedCpu::new()
    }
}

/// Adding `a` and then `b` to a register is the same as adding `(a + b) mod 256`
/// once.
pub proof fn lemma_added_twice(regs: Seq<u8>, x: int, a: int, b: int)
    requires
        regs.len() == REGISTER_COUNT,
        0 <= x < REGISTER_COUNT,
    ensures
        added(added(regs, x, a), x, b) == added(regs, x, (a + b) % 256),
{
}

} // verus!
