//! A verified interpreter for the CHIP-8 virtual machine.
//!
//! [`chip8`] holds the machine built from its units: register file, memory with call
//! stack, keypad, frame buffer and timers, each with the mathematical model its
//! contracts are stated over. [`compact`] holds the same machine folded into a single
//! record whose handlers hand back the next program counter.

pub mod chip8;
pub mod compact;
mod entropy;
