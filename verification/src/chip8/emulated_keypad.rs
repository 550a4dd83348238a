//! The keypad: sixteen keys, each either pressed (1) or released (0).
//!
//! The model of the keypad is the sequence of its sixteen key states.

use crate::chip8::ExecutionState;
use vstd::prelude::*;

verus! {

/// Number of keys.
pub const KEY_COUNT: usize = 16;

/// No key is pressed.
pub open spec fn none_pressed(keys: Seq<u8>) -> bool {
    forall|k: int| 0 <= k < KEY_COUNT ==> keys[k] != 1
}

/// Key `k` is pressed and no key below it is.
pub open spec fn lowest_pressed(keys: Seq<u8>, k: int) -> bool {
    &&& 0 <= k < KEY_COUNT
    &&& keys[k] == 1
    &&& forall|j: int| 0 <= j < k ==> keys[j] != 1
}

/// The lowest pressed key, or 16 when no key is pressed.
pub open spec fn first_pressed(keys: Seq<u8>) -> int {
    if none_pressed(keys) {
        KEY_COUNT as int
    } else {
        choose|k: int| lowest_pressed(keys, k)
    }
}

/// [`first_pressed`] is the one key that [`lowest_pressed`] accepts.
pub proof fn lemma_first_pressed(keys: Seq<u8>, k: int)
    requires
        lowest_pressed(keys, k),
    ensures
        first_pressed(keys) == k,
{
    let c = choose|c: int| lowest_pressed(keys, c);
    assert(lowest_pressed(keys, c));
    if c < k {
        assert(keys[c] != 1);
    }
    if k < c {
        assert(keys[k] != 1);
    }
}

/// The keypad.
#[derive(Debug, PartialEq)]
pub struct EmulatedKeypad {
    /// The state of each key: 1 while pressed, 0 while released.
    pub keypad: [u8; 16],
}

impl EmulatedKeypad {
    /// A keypad with every key released.
    pub fn new() -> (keypad: Self)
        ensures
            keypad.keypad@ == Seq::new(16, |k: int| 0u8),
    {
        EmulatedKeypad { keypad: [0; 16] }
    }

    /// Marks `key` as pressed.
    pub fn press_key(&mut self, key: u8)
        requires
            key < 16,
        ensures
            final(self).keypad@ == old(self).keypad@.update(key as int, 1),
    {
        self.keypad[key as usize] = 1;
    }

    /// Marks `key` as released.
    pub fn release_key(&mut self, key: u8)
        requires
            key < 16,
        ensures
            final(self).keypad@ == old(self).keypad@.update(key as int, 0),
    {
        self.keypad[key as usize] = 0;
    }

    /// Asks to skip the next instruction when `key` is pressed.
    pub fn skip_if_pressed(&self, key: u8) -> (state: ExecutionState)
        requires
            key < 16,
        ensures
            state == if self.keypad@[key as int] == 1 {
                ExecutionState::Skip
            } else {
                ExecutionState::Continue
            },
    {
        if self.keypad[key as usize] == 1 {
            ExecutionState::Skip
        } else {
            ExecutionState::Continue
        }
    }

    /// Asks to skip the next instruction when `key` is released.
    pub fn skip_if_released(&self, key: u8) -> (state: ExecutionState)
        requires
            key < 16,
        ensures
            state == if self.keypad@[key as int] == 0 {
                ExecutionState::Skip
            } else {
                ExecutionState::Continue
            },
    {
        if self.keypad[key as usize] == 0 {
            ExecutionState::Skip
        } else {
            ExecutionState::Continue
        }
    }

    /// Looks for a pressed key, lowest index first. When there is one, its index is
    /// written to `vx` and execution continues; when there is none, `vx` is left
    /// alone and the instruction is held.
    pub fn wait_for_key(&self, vx: &mut u8) -> (state: ExecutionState)
        ensures
            none_pressed(self.keypad@) ==> state == ExecutionState::Hold && *final(vx) == *old(vx),
            !none_pressed(self.keypad@) ==> state == ExecutionState::Continue && lowest_pressed(
                self.keypad@,
                *final(vx) as int,
            ),
            state == if first_pressed(self.keypad@) < KEY_COUNT {
                ExecutionState::Continue
            } else {
                ExecutionState::Hold
            },
            *final(vx) == if first_pressed(self.keypad@) < KEY_COUNT {
                first_pressed(self.keypad@) as u8
            } else {
                *old(vx)
            },
    {
        let mut key: u8 = 0;
        while key < 16
            invariant
                key <= 16,
                forall|j: int| 0 <= j < key ==> self.keypad@[j] != 1,
                *vx == *old(vx),
            decreases 16 - key,
        {
            if self.keypad[key as usize] == 1 {
                *vx = key;
                proof {
                    lemma_first_pressed(self.keypad@, key as int);
                }
                return ExecutionState::Continue;
            }
            key += 1;
        }
        ExecutionState::Hold
    }
}

impl Default for EmulatedKeypad {
    fn default() -> (keypad: Self)
        ensures
            keypad.keypad@ == Seq::new(16, |k: int| 0u8),
    {
        EmulatedKeypad::new()
    }
}

} // verus!
