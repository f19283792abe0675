//! The virtual machine: loading a program and advancing in time.

use crate::bus::ram::Ram;
use crate::bus::rng::Rng;
use crate::bus::timer::Timer;
use crate::bus::Bus;
use crate::clock::Clock;
use crate::clock::ClockState;
use crate::cpu::model::Machine;
use crate::cpu::model::Step;
use crate::cpu::Cpu;
use crate::cpu::CpuState;
use crate::crc16::spec_crc16;
use crate::crc16::Crc16;
use crate::error::Error;
use crate::io::screen::spec_fits;
use crate::io::Screen;
use crate::io::IO;
use crate::time::instant_now;
use crate::time::nanos_since;
use std::time::Instant;
use vstd::prelude::*;

verus! {

/// The label of each key of the host's keyboard that stands for a key of the
/// pad, with the number of the pad key it stands for.
pub const KEY_MAP: [(char, usize); 16] = [
    ('1', 0x1),
    ('2', 0x2),
    ('3', 0x3),
    ('4', 0xc),
    ('q', 0x4),
    ('w', 0x5),
    ('e', 0x6),
    ('r', 0xd),
    ('a', 0x7),
    ('s', 0x8),
    ('d', 0x9),
    ('f', 0xe),
    ('z', 0xa),
    ('x', 0x0),
    ('c', 0xb),
    ('v', 0xf),
];

/// Width and height of the display.
pub const SCREEN_SIZE: (usize, usize) = (64, 32);

/// Number of keys on the pad.
pub const PAD_SIZE: usize = crate::cpu::KEYS;

/// Period of the processor where none is asked for: 500 cycles a second.
pub const CPU_PERIOD: u64 = 2_000_000;

/// Period of the two timers: 60 ticks a second, to the nearest nanosecond.
pub const TIMER_PERIOD: u64 = 16_666_667;

/// Address of the first font sprite.
pub const FONT_START: u16 = 0x0000;

/// Address of the first byte of a program.
pub const PROGRAM_START: u16 = 0x0200;

/// Seed of the generator where the checksum of the program is zero.
pub const RNG_SEED: u16 = 0xcafe;

/// The sprites of the sixteen hexadecimal digits, five bytes each.
pub const FONT_SPRITES: [u8; 80] = [
    0b11110000, 0b10010000, 0b10010000, 0b10010000, 0b11110000,
    0b00100000, 0b01100000, 0b00100000, 0b00100000, 0b01110000,
    0b11110000, 0b00010000, 0b11110000, 0b10000000, 0b11110000,
    0b11110000, 0b00010000, 0b11110000, 0b00010000, 0b11110000,
    0b10010000, 0b10010000, 0b11110000, 0b00010000, 0b00010000,
    0b11110000, 0b10000000, 0b11110000, 0b00010000, 0b11110000,
    0b11110000, 0b10000000, 0b11110000, 0b10010000, 0b11110000,
    0b11110000, 0b00010000, 0b00100000, 0b01000000, 0b01000000,
    0b11110000, 0b10010000, 0b11110000, 0b10010000, 0b11110000,
    0b11110000, 0b10010000, 0b11110000, 0b00010000, 0b11110000,
    0b11110000, 0b10010000, 0b11110000, 0b10010000, 0b10010000,
    0b11100000, 0b10010000, 0b11100000, 0b10010000, 0b11100000,
    0b11110000, 0b10000000, 0b10000000, 0b10000000, 0b11110000,
    0b11100000, 0b10010000, 0b10010000, 0b10010000, 0b11100000,
    0b11110000, 0b10000000, 0b11110000, 0b10000000, 0b11110000,
    0b11110000, 0b10000000, 0b11110000, 0b10000000, 0b10000000,
];

/// The virtual machine: processor, bus, the two schedulers that pace them, and
/// the fixed shape of what the host has to lend.
#[derive(Debug)]
pub struct Chip8 {
    cpu: Cpu,
    bus: Bus,
    pad_map: [char; 16],
    clock_60htz: Clock,
    clock_cpu: Clock,
    epoch: Instant,
}

/// Everything an advance can read or change: the machine, the two schedulers
/// that pace it, and the host's buzzer flag.
#[verifier::ext_equal]
pub struct Whole {
    pub machine: Machine,
    /// The scheduler of the processor.
    pub clock_cpu: ClockState,
    /// The scheduler of the timers.
    pub clock_timers: ClockState,
    /// The buzzer flag.
    pub audio: bool,
}

/// What an advance leaves, and whether it failed.
#[verifier::ext_equal]
pub struct Advance {
    pub whole: Whole,
    pub result: Result<(), Error>,
}

impl Whole {
    /// What a machine, the display lent to it and the buzzer flag make up.
    pub open spec fn spec_of<S: Screen>(chip8: &Chip8, screen: &S, audio: bool) -> Whole {
        Whole {
            machine: Machine::spec_of(&chip8.spec_cpu(), &chip8.spec_bus(), screen),
            clock_cpu: chip8.spec_clock_cpu()@,
            clock_timers: chip8.spec_clock_timers()@,
            audio: audio,
        }
    }

    /// Whether the display is the one the machine is made for, and is a grid.
    pub open spec fn spec_display_fits(self) -> bool {
        &&& self.machine.width == SCREEN_SIZE.0
        &&& self.machine.height == SCREEN_SIZE.1
        &&& self.machine.pixels.len() == SCREEN_SIZE.0 * SCREEN_SIZE.1
    }

    /// What the check of the host's loans gives: a display or a key vector of
    /// the wrong shape is refused, the display first.
    pub open spec fn spec_check(self, keys: Seq<bool>) -> Result<(), Error> {
        if !self.spec_display_fits() {
            Err(
                Error::InvalidDisplayDimensions(
                    (self.machine.width as usize, self.machine.height as usize),
                    SCREEN_SIZE,
                ),
            )
        } else if keys.len() != PAD_SIZE {
            Err(Error::InvalidKeyVectorLength(keys.len() as usize, PAD_SIZE))
        } else {
            Ok(())
        }
    }

    /// The advance in which the processor is brought to the time `now_cpu` and
    /// then the timers to the time `now_timers`, with the keys in the state
    /// `keys`.
    ///
    /// A display or a key vector of the wrong shape fails the advance before
    /// anything is done. Otherwise the processor runs the cycles that are due;
    /// if one fails, the advance fails with it, and neither scheduler moves.
    /// If none fails, both schedulers move on, the two timers tick as often as
    /// is due, and the buzzer flag says whether the sound timer is running.
    pub open spec fn spec_clock(self, keys: Seq<bool>, now_cpu: u64, now_timers: u64) -> Advance {
        match self.spec_check(keys) {
            Err(error) => Advance { whole: self, result: Err(error) },
            Ok(()) => {
                let run = self.machine.spec_run(keys, self.clock_cpu.spec_due(now_cpu));
                match run.result {
                    Err(error) => Advance {
                        whole: Whole { machine: run.machine, ..self },
                        result: Err(error),
                    },
                    Ok(()) => {
                        let ticks = self.clock_timers.spec_due(now_timers);
                        let st = Timer::spec_after(run.machine.st, ticks);
                        Advance {
                            whole: Whole {
                                machine: Machine {
                                    dt: Timer::spec_after(run.machine.dt, ticks),
                                    st: st,
                                    ..run.machine
                                },
                                clock_cpu: self.clock_cpu.spec_ticked(now_cpu),
                                clock_timers: self.clock_timers.spec_ticked(now_timers),
                                audio: st > 0,
                            },
                            result: Ok(()),
                        }
                    },
                }
            },
        }
    }

    /// The advance of processor and timers to the one time `now`.
    pub open spec fn spec_clock_at(self, keys: Seq<bool>, now: u64) -> Advance {
        self.spec_clock(keys, now, now)
    }
}

impl Advance {
    /// The advance that leaves a machine, a display and the buzzer flag as
    /// given, with the result `result`.
    pub open spec fn spec_of<S: Screen>(
        chip8: &Chip8,
        screen: &S,
        audio: bool,
        result: Result<(), Error>,
    ) -> Advance {
        Advance { whole: Whole::spec_of(chip8, screen, audio), result: result }
    }
}

impl Chip8 {
    /// The processor.
    pub closed spec fn spec_cpu(&self) -> Cpu {
        self.cpu
    }

    /// The bus.
    pub closed spec fn spec_bus(&self) -> Bus {
        self.bus
    }

    /// The scheduler of the processor.
    pub closed spec fn spec_clock_cpu(&self) -> Clock {
        self.clock_cpu
    }

    /// The scheduler of the timers.
    pub closed spec fn spec_clock_timers(&self) -> Clock {
        self.clock_60htz
    }

    /// The labels of the host's keys, by the number of the pad key.
    pub closed spec fn spec_pad_map(&self) -> Seq<char> {
        self.pad_map@
    }

    /// What a program leaves of the processor once it is loaded: the program
    /// counter at its first byte, the call stack empty, the font table known.
    pub open spec fn spec_started(cpu: CpuState) -> CpuState {
        CpuState { pc: PROGRAM_START, stack: Seq::empty(), font: FONT_START, ..cpu }
    }

    /// The seed that a program gives the generator where none is chosen: its
    /// checksum, or [`RNG_SEED`] where the checksum is zero.
    pub open spec fn spec_derived_seed(rom: Seq<u8>) -> u16 {
        if spec_crc16(rom) == 0 {
            RNG_SEED
        } else {
            spec_crc16(rom)
        }
    }

    /// Memory after the font sprites and as much of `rom` as fits were loaded.
    pub open spec fn spec_loaded(ram: Seq<u8>, rom: Seq<u8>) -> Seq<u8> {
        Ram::spec_stored(
            Ram::spec_stored(ram, FONT_START, FONT_SPRITES@),
            PROGRAM_START,
            rom.take(Ram::spec_reach(PROGRAM_START, rom.len()) as int),
        )
    }

    /// After loading, memory holds the font sprites from [`FONT_START`] on and
    /// the program, as far as it fits, from [`PROGRAM_START`] on; every other
    /// byte is what it was.
    pub proof fn lemma_loaded(ram: Seq<u8>, rom: Seq<u8>, addr: u16)
        requires
            ram.len() == crate::bus::ram::MEMORY_SIZE,
            addr < crate::bus::ram::MEMORY_SIZE,
        ensures
            ({
                let loaded = Chip8::spec_loaded(ram, rom);
                &&& loaded.len() == ram.len()
                &&& FONT_START <= addr < FONT_START + FONT_SPRITES@.len() ==> loaded[addr as int]
                    == FONT_SPRITES@[addr - FONT_START]
                &&& PROGRAM_START <= addr < PROGRAM_START + rom.len() ==> loaded[addr as int]
                    == rom[addr - PROGRAM_START]
                &&& FONT_START + FONT_SPRITES@.len() <= addr < PROGRAM_START ==> loaded[addr as int]
                    == ram[addr as int]
                &&& PROGRAM_START + rom.len() <= addr ==> loaded[addr as int] == ram[addr as int]
            }),
    {
    }

    /// A machine with nothing loaded, whose processor runs at the period
    /// `period` (in nanoseconds), or at [`CPU_PERIOD`] where none is given.
    pub fn new(period: Option<u64>) -> (chip8: Chip8)
        requires
            period != Some(0u64),
        ensures
            chip8.spec_cpu()@ == Cpu::spec_reset(),
            chip8.spec_bus().ram@ == Ram::spec_zeroed(),
            chip8.spec_bus().rng@ == 0,
            chip8.spec_bus().dt@ == 0,
            chip8.spec_bus().st@ == 0,
            chip8.spec_clock_cpu()@ == (crate::clock::ClockState {
                period: match period {
                    Some(p) => p,
                    None => CPU_PERIOD,
                },
                last: None,
            }),
            chip8.spec_clock_timers()@ == (crate::clock::ClockState {
                period: TIMER_PERIOD,
                last: None,
            }),
            chip8.spec_pad_map().len() == PAD_SIZE,
            forall|k: int|
                0 <= k < PAD_SIZE ==> chip8.spec_pad_map()[KEY_MAP@[k].1 as int] == KEY_MAP@[k].0,
            chip8.spec_pad_map() == seq![
                'x', '1', '2', '3', 'q', 'w', 'e', 'a', 's', 'd', 'z', 'c', '4', 'r', 'f', 'v',
            ],
    {
        let period: u64 = match period {
            Some(p) => p,
            None => CPU_PERIOD,
        };
        let mut pad_map: [char; 16] = [' '; 16];
        let mut k: usize = 0;
        while k < KEY_MAP.len()
            invariant
                k <= PAD_SIZE,
                forall|j: int| 0 <= j < k ==> pad_map@[KEY_MAP@[j].1 as int] == KEY_MAP@[j].0,
            decreases PAD_SIZE - k,
        {
            let (label, key) = KEY_MAP[k];
            pad_map[key] = label;
            k += 1;
        }
        Chip8 {
            cpu: Cpu::new(),
            bus: Bus::new(),
            pad_map,
            clock_60htz: Clock::new(TIMER_PERIOD),
            clock_cpu: Clock::new(period),
            epoch: instant_now(),
        }
    }

    /// The labels of the host's keys, by the number of the pad key.
    pub fn get_pad_map(&self) -> (labels: &[char])
        ensures
            labels@ == self.spec_pad_map(),
    {
        &self.pad_map
    }

    /// The dimensions of the display that the machine draws on.
    pub fn get_screen_size(&self) -> (size: (usize, usize))
        ensures
            size == SCREEN_SIZE,
    {
        SCREEN_SIZE
    }

    /// The labels of the host's keys, by the number of the pad key.
    pub fn get_mapping(&self) -> (labels: &[char])
        ensures
            labels@ == self.spec_pad_map(),
    {
        self.get_pad_map()
    }

    /// The processor, to look at.
    pub fn cpu(&self) -> (cpu: &Cpu)
        ensures
            *cpu == self.spec_cpu(),
    {
        &self.cpu
    }

    /// The bus, to look at.
    pub fn bus(&self) -> (bus: &Bus)
        ensures
            *bus == self.spec_bus(),
    {
        &self.bus
    }

    /// Loads a program: writes the font sprites at [`FONT_START`] and `rom` at
    /// [`PROGRAM_START`], points the processor at the program, and seeds the
    /// generator with `seed`, or with a seed derived from `rom` where none is
    /// given.
    ///
    /// A program that does not fit fails with `AddressOutOfRange` once memory
    /// is full, and leaves the processor and the generator as they were. The
    /// seed zero fails with `ZeroSeed` and leaves the generator as it was.
    pub fn load_rom(&mut self, rom: &[u8], seed: Option<u16>) -> (r: Result<(), Error>)
        ensures
            final(self).spec_bus().ram@ == Chip8::spec_loaded(old(self).spec_bus().ram@, rom@),
            final(self).spec_bus().dt@ == old(self).spec_bus().dt@,
            final(self).spec_bus().st@ == old(self).spec_bus().st@,
            final(self).spec_clock_cpu() == old(self).spec_clock_cpu(),
            final(self).spec_clock_timers() == old(self).spec_clock_timers(),
            final(self).spec_pad_map() == old(self).spec_pad_map(),
            match Ram::spec_overrun(PROGRAM_START, rom@.len()) {
                Some(addr) => {
                    &&& r == Err::<(), Error>(Error::AddressOutOfRange(addr))
                    &&& final(self).spec_cpu()@ == old(self).spec_cpu()@
                    &&& final(self).spec_bus().rng@ == old(self).spec_bus().rng@
                },
                None => {
                    let chosen = match seed {
                        Some(seed) => seed,
                        None => Chip8::spec_derived_seed(rom@),
                    };
                    &&& final(self).spec_cpu()@ == Chip8::spec_started(old(self).spec_cpu()@)
                    &&& final(self).spec_bus().rng@ == (if chosen == 0 {
                        old(self).spec_bus().rng@
                    } else {
                        Rng::spec_seeded(chosen)
                    })
                    &&& r == (if chosen == 0 {
                        Err::<(), Error>(Error::ZeroSeed)
                    } else {
                        Ok(())
                    })
                },
            },
    {
        let ft: u16 = FONT_START;
        let pc: u16 = PROGRAM_START;

        // Copy sprites in memory
        match self.bus.ram.store(ft, &FONT_SPRITES) {
            Ok(()) => {},
            Err(error) => {
                return Err(error);
            },
        }

        // Copy ROM in memory
        match self.bus.ram.store(pc, rom) {
            Ok(()) => {},
            Err(error) => {
                return Err(error);
            },
        }

        // Derive seed from ROM if not provided
        let seed: u16 = match seed {
            Some(seed) => seed,
            None => {
                let crc: u16 = Crc16::at_once(rom);
                if crc == 0x0000 {
                    RNG_SEED
                } else {
                    crc
                }
            },
        };

        self.cpu.init(pc, ft);
        self.bus.rng.seed(seed)
    }

    /// Checks what the host lends: a display of the dimensions `size` with
    /// `pixels` pixels, and `keys` keys. The display has to be a grid of the
    /// dimensions [`SCREEN_SIZE`], and there have to be [`PAD_SIZE`] keys.
    fn check(size: (usize, usize), pixels: usize, keys: usize) -> (r: Result<(), Error>)
        ensures
            r == (if size != SCREEN_SIZE || pixels != SCREEN_SIZE.0 * SCREEN_SIZE.1 {
                Err::<(), Error>(Error::InvalidDisplayDimensions(size, SCREEN_SIZE))
            } else if keys != PAD_SIZE {
                Err(Error::InvalidKeyVectorLength(keys, PAD_SIZE))
            } else {
                Ok(())
            }),
    {
        if size.0 != SCREEN_SIZE.0 || size.1 != SCREEN_SIZE.1 || pixels != SCREEN_SIZE.0
            * SCREEN_SIZE.1 {
            return Err(Error::InvalidDisplayDimensions(size, SCREEN_SIZE));
        }
        if keys != PAD_SIZE {
            return Err(Error::InvalidKeyVectorLength(keys, PAD_SIZE));
        }
        Ok(())
    }

    /// Brings the processor to the time `now`: runs the cycles that are due,
    /// and moves the processor's scheduler on if none of them fails.
    fn run_cpu<S: Screen>(&mut self, now: u64, io: &mut IO<S>) -> (r: Result<(), Error>)
        requires
            Whole::spec_of(old(self), &*old(io).screen, *old(io).audio).spec_check(old(io).pad@)
                is Ok,
        ensures
            Step::spec_of(&final(self).spec_cpu(), &final(self).spec_bus(), &*final(io).screen, r)
                == Machine::spec_of(
                &old(self).spec_cpu(),
                &old(self).spec_bus(),
                &*old(io).screen,
            ).spec_run(old(io).pad@, old(self).spec_clock_cpu()@.spec_due(now)),
            final(self).spec_clock_cpu()@ == (if r is Ok {
                old(self).spec_clock_cpu()@.spec_ticked(now)
            } else {
                old(self).spec_clock_cpu()@
            }),
            final(self).spec_clock_timers() == old(self).spec_clock_timers(),
            final(self).pad_map == old(self).pad_map,
            final(self).epoch == old(self).epoch,
            final(io).pad@ == old(io).pad@,
            *final(io).audio == *old(io).audio,
            *final(final(io).screen) == *final(old(io).screen),
            *final(final(io).audio) == *final(old(io).audio),
    {
        let ghost start = Machine::spec_of(&self.cpu, &self.bus, &*io.screen);
        let ghost keys = io.pad@;

        let cycles: u64 = self.clock_cpu.due(now);
        let mut done: u64 = 0;
        while done < cycles
            invariant
                done <= cycles,
                cycles == old(self).clock_cpu@.spec_due(now),
                start == Machine::spec_of(&old(self).cpu, &old(self).bus, &*old(io).screen),
                keys == old(io).pad@,
                io.pad@ == keys,
                keys.len() == PAD_SIZE,
                spec_fits(io.screen.pixels(), io.screen.width(), io.screen.height()),
                Step::spec_of(&self.cpu, &self.bus, &*io.screen, Ok(())) == start.spec_run(
                    keys,
                    done as nat,
                ),
                self.clock_cpu == old(self).clock_cpu,
                self.clock_60htz == old(self).clock_60htz,
                self.pad_map == old(self).pad_map,
                self.epoch == old(self).epoch,
                *io.audio == *old(io).audio,
                *final(io.screen) == *final(old(io).screen),
                *final(io.audio) == *final(old(io).audio),
            decreases cycles - done,
        {
            match self.cpu.cycle(&mut self.bus, io) {
                Ok(()) => {},
                Err(error) => {
                    proof {
                        start.lemma_run_stops(keys, (done + 1) as nat, cycles as nat);
                    }
                    return Err(error);
                },
            }
            done += 1;
        }
        self.clock_cpu.tick(now);
        Ok(())
    }

    /// Brings the timers to the time `now`: both tick as often as is due, and
    /// their scheduler moves on.
    fn run_timers(&mut self, now: u64)
        ensures
            final(self).spec_bus().dt@ == Timer::spec_after(
                old(self).spec_bus().dt@,
                old(self).spec_clock_timers()@.spec_due(now),
            ),
            final(self).spec_bus().st@ == Timer::spec_after(
                old(self).spec_bus().st@,
                old(self).spec_clock_timers()@.spec_due(now),
            ),
            final(self).spec_clock_timers()@ == old(self).spec_clock_timers()@.spec_ticked(now),
            final(self).spec_bus().ram == old(self).spec_bus().ram,
            final(self).spec_bus().rng == old(self).spec_bus().rng,
            final(self).spec_cpu() == old(self).spec_cpu(),
            final(self).spec_clock_cpu() == old(self).spec_clock_cpu(),
            final(self).pad_map == old(self).pad_map,
            final(self).epoch == old(self).epoch,
    {
        let ticks: u64 = self.clock_60htz.tick(now);
        let ghost ran = *self;
        let mut ticked: u64 = 0;
        while ticked < ticks
            invariant
                ticked <= ticks,
                self.bus.dt@ == Timer::spec_after(ran.bus.dt@, ticked as nat),
                self.bus.st@ == Timer::spec_after(ran.bus.st@, ticked as nat),
                self.bus.ram == ran.bus.ram,
                self.bus.rng == ran.bus.rng,
                self.cpu == ran.cpu,
                self.clock_cpu == ran.clock_cpu,
                self.clock_60htz == ran.clock_60htz,
                self.pad_map == ran.pad_map,
                self.epoch == ran.epoch,
            decreases ticks - ticked,
        {
            self.bus.dt.clock();
            self.bus.st.clock();
            ticked += 1;
        }
    }

    /// Advances the machine to the present, as the monotonic clock counts the
    /// nanoseconds since the machine was made. The clock is read once for the
    /// processor and, once the processor has run, once more for the timers.
    /// What the clock reads is not for the machine to say; whatever it reads,
    /// the advance is the one to those two times.
    ///
    /// `io` lends the same display and the same flag after the advance as
    /// before it, and the keys stay as they are.
    pub fn clock<S: Screen>(&mut self, io: &mut IO<S>) -> (r: Result<(), Error>)
        ensures
            (exists|now_cpu: u64, now_timers: u64|
                Advance::spec_of(final(self), &*final(io).screen, *final(io).audio, r)
                    == Whole::spec_of(old(self), &*old(io).screen, *old(io).audio).spec_clock(
                    old(io).pad@,
                    now_cpu,
                    now_timers,
                )),
            final(self).spec_pad_map() == old(self).spec_pad_map(),
            final(io).pad@ == old(io).pad@,
            *final(final(io).screen) == *final(old(io).screen),
            *final(final(io).audio) == *final(old(io).audio),
    {
        let ghost before = Whole::spec_of(&*self, &*io.screen, *io.audio);
        let ghost keys = io.pad@;
        match Chip8::check(io.screen.size(), io.screen.as_slice().len(), io.pad.len()) {
            Ok(()) => {},
            Err(error) => {
                assert(Advance::spec_of(&*self, &*io.screen, *io.audio, Err(error))
                    == before.spec_clock(keys, 0, 0));
                return Err(error);
            },
        }
        let now_cpu: u64 = nanos_since(&self.epoch);
        match self.run_cpu(now_cpu, io) {
            Ok(()) => {},
            Err(error) => {
                assert(Advance::spec_of(&*self, &*io.screen, *io.audio, Err(error))
                    == before.spec_clock(keys, now_cpu, 0));
                return Err(error);
            },
        }
        let now_timers: u64 = nanos_since(&self.epoch);
        self.run_timers(now_timers);
        *io.audio = self.bus.st.get() > 0;
        assert(Advance::spec_of(&*self, &*io.screen, *io.audio, Ok(())) == before.spec_clock(
            keys,
            now_cpu,
            now_timers,
        ));
        Ok(())
    }

    /// Advances the machine, processor and timers, to the time `now`, a count
    /// of nanoseconds from a start that the host chooses and keeps to.
    ///
    /// `io` lends the same display and the same flag after the advance as
    /// before it, and the keys stay as they are.
    pub fn clock_at<S: Screen>(&mut self, now: u64, io: &mut IO<S>) -> (r: Result<(), Error>)
        ensures
            Advance::spec_of(final(self), &*final(io).screen, *final(io).audio, r) == Whole::spec_of(
                old(self),
                &*old(io).screen,
                *old(io).audio,
            ).spec_clock_at(old(io).pad@, now),
            final(self).spec_pad_map() == old(self).spec_pad_map(),
            final(io).pad@ == old(io).pad@,
            *final(final(io).screen) == *final(old(io).screen),
            *final(final(io).audio) == *final(old(io).audio),
    {
        match Chip8::check(io.screen.size(), io.screen.as_slice().len(), io.pad.len()) {
            Ok(()) => {},
            Err(error) => {
                return Err(error);
            },
        }
        match self.run_cpu(now, io) {
            Ok(()) => {},
            Err(error) => {
                return Err(error);
            },
        }
        self.run_timers(now);
        *io.audio = self.bus.st.get() > 0;
        Ok(())
    }
}

} // verus!
