//! The bus: what the processor reaches besides its own registers.

use vstd::prelude::*;

pub mod ram;
pub mod rng;
pub mod timer;

verus! {

/// What the processor reaches besides its own registers: memory, the
/// pseudo-random generator, the delay timer and the sound timer.
#[derive(Debug)]
pub struct Bus {
    pub ram: ram::Ram,
    pub rng: rng::Rng,
    pub dt: timer::Timer,
    pub st: timer::Timer,
}

impl Bus {
    /// A bus with zeroed memory, an unseeded generator and both timers at rest.
    pub fn new() -> (bus: Bus)
        ensures
            bus.ram@ == ram::Ram::spec_zeroed(),
            bus.rng@ == 0,
            bus.dt@ == 0,
            bus.st@ == 0,
    {
        Bus { ram: ram::Ram::new(), rng: rng::Rng::new(), dt: timer::Timer::new(), st: timer::Timer::new() }
    }
}

impl Default for Bus {
    /// A bus with zeroed memory, an unseeded generator and both timers at rest.
    fn default() -> (bus: Bus)
        ensures
            bus.ram@ == ram::Ram::spec_zeroed(),
            bus.rng@ == 0,
            bus.dt@ == 0,
            bus.st@ == 0,
    {
        Bus::new()
    }
}

} // verus!
