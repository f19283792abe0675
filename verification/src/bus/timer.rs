//! The delay timer and the sound timer.

use vstd::prelude::*;

verus! {

/// An 8-bit counter that counts down to zero and stays there.
///
/// Its view is the value it holds.
#[derive(Debug)]
pub struct Timer {
    value: u8,
}

impl View for Timer {
    type V = u8;

    closed spec fn view(&self) -> u8 {
        self.value
    }
}

impl Timer {
    /// The value a timer holding `value` shows after one tick.
    pub open spec fn spec_tick(value: u8) -> u8 {
        if value == 0 {
            0
        } else {
            (value - 1) as u8
        }
    }

    /// The value a timer holding `value` shows after `ticks` ticks.
    pub open spec fn spec_after(value: u8, ticks: nat) -> u8
        decreases ticks,
    {
        if ticks == 0 {
            value
        } else {
            Timer::spec_tick(Timer::spec_after(value, (ticks - 1) as nat))
        }
    }

    /// A timer at rest.
    pub fn new() -> (timer: Timer)
        ensures
            timer@ == 0,
    {
        Timer { value: 0 }
    }

    /// One tick: the value goes down by one unless it is already zero.
    pub fn clock(&mut self)
        ensures
            final(self)@ == Timer::spec_tick(old(self)@),
    {
        let next: u8 = if self.value == 0 {
            0
        } else {
            self.value - 1
        };
        self.set(next);
    }

    /// The value held now.
    pub fn get(&self) -> (value: u8)
        ensures
            value == self@,
    {
        self.value
    }

    /// Arms the timer with `value`, whatever it held before.
    pub fn set(&mut self, value: u8)
        ensures
            final(self)@ == value,
    {
        self.value = value;
    }

    /// Ticking is counting down: after `ticks` ticks a timer holds what is
    /// left of `value`, and nothing once the ticks outnumber it.
    pub proof fn lemma_after(value: u8, ticks: nat)
        ensures
            Timer::spec_after(value, ticks) == (if ticks >= value {
                0
            } else {
                value - ticks
            }),
        decreases ticks,
    {
        if ticks > 0 {
            Timer::lemma_after(value, (ticks - 1) as nat);
        }
    }

    /// A timer started at `value` reads zero after `value` ticks, and after any
    /// number of further ticks it still reads zero.
    pub proof fn lemma_runs_out(value: u8, further: nat)
        ensures
            Timer::spec_after(value, value as nat) == 0,
            Timer::spec_after(value, value as nat + further) == 0,
    {
        Timer::lemma_after(value, value as nat);
        Timer::lemma_after(value, value as nat + further);
    }
}

impl Default for Timer {
    /// A timer at rest.
    fn default() -> (timer: Timer)
        ensures
            timer@ == 0,
    {
        Timer::new()
    }
}

} // verus!
