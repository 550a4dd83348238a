//! The delay timer and the sound timer.
//!
//! Both count down by one on every tick and stop at zero. The model of the unit is
//! [`TimersState`], the pair of counter values.

use crate::chip8::ExecutionState;
use vstd::prelude::*;

verus! {

/// A counter one tick later: one less, and zero stays zero.
pub open spec fn decayed(time: u8) -> u8 {
    if time > 0 {
        (time - 1) as u8
    } else {
        0
    }
}

/// The two counters as contracts see them.
pub struct TimersState {
    /// The delay timer.
    pub delay: u8,
    /// The sound timer.
    pub sound: u8,
}

impl TimersState {
    /// Both counters one tick later.
    pub open spec fn ticked(self) -> TimersState {
        TimersState { delay: decayed(self.delay), sound: decayed(self.sound) }
    }

    /// The sound timer stands at one: the moment at which a tone is due.
    pub open spec fn sound_at_one(self) -> bool {
        self.sound == 1
    }
}

/// One countdown counter.
#[derive(Clone, Copy)]
struct Timer {
    curr_time: u8,
}

impl Timer {
    /// Counts down by one, stopping at zero.
    fn tick(&mut self) -> (after: Self)
        ensures
            final(self).curr_time == decayed(old(self).curr_time),
            after == *final(self),
    {
        if self.curr_time > 0 {
            self.curr_time -= 1;
        }
        *self
    }
}

/// The two timers.
#[derive(Clone, Copy)]
pub struct EmulatedTimers {
    sound_timer: Timer,
    delay_timer: Timer,
}

impl View for EmulatedTimers {
    type V = TimersState;

    closed spec fn view(&self) -> TimersState {
        TimersState { delay: self.delay_timer.curr_time, sound: self.sound_timer.curr_time }
    }
}

impl EmulatedTimers {
    /// Two timers at zero.
    pub fn new() -> (timers: Self)
        ensures
            timers@ == (TimersState { delay: 0, sound: 0 }),
    {
        EmulatedTimers { sound_timer: Timer { curr_time: 0 }, delay_timer: Timer { curr_time: 0 } }
    }

    /// Counts both timers down by one, stopping at zero, and hands back the unit as
    /// it stands after the tick. A tone is due when the sound timer has just reached
    /// one: ask the result with [`EmulatedTimers::sound_crossed_one`].
    pub fn tick(&mut self) -> (after: Self)
        ensures
            final(self)@ == old(self)@.ticked(),
            after@ == old(self)@.ticked(),
    {
        self.sound_timer.tick();
        self.delay_timer.tick();
        *self
    }

    /// Sets the delay timer to `value`.
    pub fn set_delay_timer(&mut self, value: u8) -> (state: ExecutionState)
        ensures
            state == ExecutionState::Continue,
            final(self)@ == (TimersState { delay: value, sound: old(self)@.sound }),
    {
        self.delay_timer.curr_time = value;
        ExecutionState::Continue
    }

    /// Sets the sound timer to `value`.
    pub fn set_sound_timer(&mut self, value: u8) -> (state: ExecutionState)
        ensures
            state == ExecutionState::Continue,
            final(self)@ == (TimersState { delay: old(self)@.delay, sound: value }),
    {
        self.sound_timer.curr_time = value;
        ExecutionState::Continue
    }

    /// The delay timer.
    pub fn get_delay_timer(&self) -> (value: u8)
        ensures
            value == self@.delay,
    {
        self.delay_timer.curr_time
    }

    /// The sound timer.
    pub fn get_sound_timer(&self) -> (value: u8)
        ensures
            value == self@.sound,
    {
        self.sound_timer.curr_time
    }

    /// Whether the sound timer stands at one, which after a tick means that it has
    /// just come down to one and a tone should sound.
    pub fn sound_crossed_one(&self) -> (due: bool)
        ensures
            due == self@.sound_at_one(),
    {
        self.sound_timer.curr_time == 1
    }
}

impl Default for EmulatedTimers {
    fn default() -> (timers: Self)
        ensures
            timers@ == (TimersState { delay: 0, sound: 0 }),
    {
        EmulatedTimers::new()
    }
}

/// A timer never counts up and stays at zero once it is there, and after a tick the
/// sound timer stands at one exactly when it stood at two before.
pub proof fn lemma_decay(timers: TimersState)
    ensures
        timers.ticked().delay <= timers.delay,
        timers.ticked().sound <= timers.sound,
        timers.delay == 0 ==> timers.ticked().delay == 0,
        timers.sound == 0 ==> timers.ticked().sound == 0,
        timers.ticked().sound_at_one() <==> timers.sound == 2,
{
}

} // verus!
