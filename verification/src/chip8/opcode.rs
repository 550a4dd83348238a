//! Instruction words and their fields.
//!
//! An instruction is a 16-bit word stored high byte first. Its four nibbles are the
//! family `f`, the register indices `x` and `y` and the count `n`; its low byte is
//! the immediate `kk` and its low twelve bits the address `nnn`.

use vstd::prelude::*;

verus! {

/// The word made of high byte `hi` and low byte `lo`.
pub open spec fn word(hi: u8, lo: u8) -> u16 {
    (hi * 256 + lo) as u16
}

/// The family: the highest nibble.
pub open spec fn family_of(opcode: u16) -> u8 {
    (opcode / 0x1000) as u8
}

/// The first register index: the second nibble.
pub open spec fn x_of(opcode: u16) -> u8 {
    ((opcode / 0x100) % 16) as u8
}

/// The second register index: the third nibble.
pub open spec fn y_of(opcode: u16) -> u8 {
    ((opcode / 0x10) % 16) as u8
}

/// The count: the lowest nibble.
pub open spec fn n_of(opcode: u16) -> u8 {
    (opcode % 16) as u8
}

/// The immediate: the low byte.
pub open spec fn kk_of(opcode: u16) -> u8 {
    (opcode % 0x100) as u8
}

/// The address: the low twelve bits.
pub open spec fn nnn_of(opcode: u16) -> u16 {
    opcode % 0x1000
}

/// Whether `opcode` is one of the encodings of the instruction set. Every other
/// word is passed over without effect.
pub open spec fn defined(opcode: u16) -> bool {
    let f = family_of(opcode);
    let n = n_of(opcode);
    let kk = kk_of(opcode);
    ||| opcode == 0x00E0
    ||| opcode == 0x00EE
    ||| 1 <= f <= 4
    ||| (f == 5 && n == 0)
    ||| f == 6
    ||| f == 7
    ||| (f == 8 && (n <= 7 || n == 0xE))
    ||| (f == 9 && n == 0)
    ||| 0xA <= f <= 0xD
    ||| (f == 0xE && (kk == 0x9E || kk == 0xA1))
    ||| (f == 0xF && (kk == 0x07 || kk == 0x0A || kk == 0x15 || kk == 0x18 || kk == 0x1E || kk
        == 0x29 || kk == 0x33 || kk == 0x55 || kk == 0x65))
}

/// The fields of one instruction word.
#[derive(Clone, Copy, Debug, PartialEq, Eq, Structural)]
pub struct Fields {
    /// The family.
    pub f: u8,
    /// The first register index.
    pub x: u8,
    /// The second register index.
    pub y: u8,
    /// The count.
    pub n: u8,
    /// The immediate.
    pub kk: u8,
    /// The address.
    pub nnn: u16,
}

/// The fields of `opcode`.
pub open spec fn fields_of(opcode: u16) -> Fields {
    Fields {
        f: family_of(opcode),
        x: x_of(opcode),
        y: y_of(opcode),
        n: n_of(opcode),
        kk: kk_of(opcode),
        nnn: nnn_of(opcode),
    }
}

/// Joins two consecutive memory bytes into an instruction word, high byte first.
pub fn join(hi: u8, lo: u8) -> (opcode: u16)
    ensures
        opcode == word(hi, lo),
{
    let opcode = ((hi as u16) << 8) | (lo as u16);
    assert(opcode == hi as u16 * 256 + lo as u16) by (bit_vector)
        requires
            opcode == ((hi as u16) << 8) | (lo as u16),
    ;
    opcode
}

/// Splits an instruction word into its fields.
pub fn split(opcode: u16) -> (fields: Fields)
    ensures
        fields == fields_of(opcode),
        fields.f < 16,
        fields.x < 16,
        fields.y < 16,
        fields.n < 16,
        fields.nnn < 0x1000,
        opcode == fields.f * 0x1000 + fields.x * 0x100 + fields.y * 0x10 + fields.n,
        fields.kk == fields.y * 0x10 + fields.n,
        fields.nnn == fields.x * 0x100 + fields.kk,
{
    let f = ((opcode & 0xF000) >> 12) as u8;
    let x = ((opcode & 0x0F00) >> 8) as u8;
    let y = ((opcode & 0x00F0) >> 4) as u8;
    let n = (opcode & 0x000F) as u8;
    let kk = (opcode & 0x00FF) as u8;
    let nnn = opcode & 0x0FFF;
    assert((opcode & 0xF000) >> 12 == opcode / 0x1000 && (opcode & 0x0F00) >> 8 == (opcode / 0x100)
        % 16 && (opcode & 0x00F0) >> 4 == (opcode / 0x10) % 16 && opcode & 0x000F == opcode % 16
        && opcode & 0x00FF == opcode % 0x100 && opcode & 0x0FFF == opcode % 0x1000)
        by (bit_vector);
    Fields { f, x, y, n, kk, nnn }
}

/// Tells whether `opcode` is one of the encodings of the instruction set.
pub fn is_defined(opcode: u16) -> (known: bool)
    ensures
        known == defined(opcode),
{
    let fields = split(opcode);
    let f = fields.f;
    let n = fields.n;
    let kk = fields.kk;
    opcode == 0x00E0 || opcode == 0x00EE || (1 <= f && f <= 4) || (f == 5 && n == 0) || f == 6
        || f == 7 || (f == 8 && (n <= 7 || n == 0xE)) || (f == 9 && n == 0) || (0xA <= f && f
        <= 0xD) || (f == 0xE && (kk == 0x9E || kk == 0xA1)) || (f == 0xF && (kk == 0x07 || kk
        == 0x0A || kk == 0x15 || kk == 0x18 || kk == 0x1E || kk == 0x29 || kk == 0x33 || kk
        == 0x55 || kk == 0x65))
}

} // verus!
