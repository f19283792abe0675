//! What the instructions mean: the machine as plain values, and what each
//! instruction, a cycle and a run of cycles make of it.

use crate::bus::ram::Ram;
use crate::bus::ram::MEMORY_SIZE;
use crate::bus::rng::Rng;
use crate::bus::Bus;
use crate::cpu::Cpu;
use crate::cpu::CpuState;
use crate::cpu::ProgramCounter;
use crate::cpu::FONT_SIZE;
use crate::cpu::KEYS;
use crate::cpu::STACK_DEPTH;
use crate::error::Error;
use crate::io::screen::lemma_sprite_keeps_len;
use crate::io::screen::spec_fits;
use crate::io::screen::spec_sprite_collides;
use crate::io::screen::spec_sprite_drawn;
use crate::io::Screen;
use vstd::prelude::*;

verus! {

/// The whole machine as plain values: what one instruction can read or change.
#[verifier::ext_equal]
pub struct Machine {
    /// The processor.
    pub cpu: CpuState,
    /// The bytes of memory.
    pub ram: Seq<u8>,
    /// The state of the pseudo-random generator.
    pub rng: u16,
    /// The delay timer.
    pub dt: u8,
    /// The sound timer.
    pub st: u8,
    /// The pixels of the display, row after row.
    pub pixels: Seq<bool>,
    /// Number of pixels in a row of the display.
    pub width: nat,
    /// Number of rows of the display.
    pub height: nat,
}

/// What executing one instruction gives: the machine it leaves, and what is to
/// become of the program counter, or why the instruction failed. A failed
/// instruction leaves the machine with what it had done before it failed.
#[verifier::ext_equal]
pub struct Effect {
    pub machine: Machine,
    pub result: Result<ProgramCounter, Error>,
}

/// What one cycle gives: the machine it leaves, and whether it failed. A failed
/// cycle leaves the program counter on the instruction that failed.
#[verifier::ext_equal]
pub struct Step {
    pub machine: Machine,
    pub result: Result<(), Error>,
}

impl Effect {
    /// The effect that leaves a processor, a bus and a display as given, with
    /// the result `result`.
    pub open spec fn spec_of<S: Screen>(
        cpu: &Cpu,
        bus: &Bus,
        screen: &S,
        result: Result<ProgramCounter, Error>,
    ) -> Effect {
        Effect { machine: Machine::spec_of(cpu, bus, screen), result: result }
    }
}

impl Step {
    /// The step that leaves a processor, a bus and a display as given, with
    /// the result `result`.
    pub open spec fn spec_of<S: Screen>(
        cpu: &Cpu,
        bus: &Bus,
        screen: &S,
        result: Result<(), Error>,
    ) -> Step {
        Step { machine: Machine::spec_of(cpu, bus, screen), result: result }
    }
}

/// The first key at or after `from` that is pressed, if any is.
pub open spec fn spec_pressed_from(keys: Seq<bool>, from: int) -> Option<int>
    decreases keys.len() - from,
{
    if from >= keys.len() {
        None
    } else if keys[from] {
        Some(from)
    } else {
        spec_pressed_from(keys, from + 1)
    }
}

/// The three decimal digits of `value`: hundreds, tens, units.
pub open spec fn spec_digits(value: u8) -> Seq<u8> {
    seq![(value / 100) % 10, (value / 10) % 10, value % 10]
}

impl Machine {
    /// Whether the machine is one that can exist: sixteen registers, a stack
    /// within its depth, memory of its size, a display that is a grid.
    pub open spec fn wf(self) -> bool {
        &&& self.cpu.wf()
        &&& self.ram.len() == MEMORY_SIZE
        &&& spec_fits(self.pixels, self.width, self.height)
    }

    /// The machine that a processor, a bus and a display make up.
    pub open spec fn spec_of<S: Screen>(cpu: &Cpu, bus: &Bus, screen: &S) -> Machine {
        Machine {
            cpu: cpu@,
            ram: bus.ram@,
            rng: bus.rng@,
            dt: bus.dt@,
            st: bus.st@,
            pixels: screen.pixels(),
            width: screen.width(),
            height: screen.height(),
        }
    }

    /// The machine unchanged, and on to the next instruction.
    pub open spec fn spec_next(self) -> Effect {
        Effect { machine: self, result: Ok(ProgramCounter::Next) }
    }

    /// The machine unchanged, and the next instruction left out if `cond` holds.
    pub open spec fn spec_skip_if(self, cond: bool) -> Effect {
        Effect {
            machine: self,
            result: Ok(
                if cond {
                    ProgramCounter::Skip
                } else {
                    ProgramCounter::Next
                },
            ),
        }
    }

    /// The machine unchanged, and a jump to `addr`.
    pub open spec fn spec_jump(self, addr: u16) -> Effect {
        Effect { machine: self, result: Ok(ProgramCounter::Jump(addr)) }
    }

    /// The machine unchanged, and the failure `error`.
    pub open spec fn spec_fail(self, error: Error) -> Effect {
        Effect { machine: self, result: Err(error) }
    }

    /// The machine with the processor `cpu`.
    pub open spec fn spec_with_cpu(self, cpu: CpuState) -> Machine {
        Machine { cpu: cpu, ..self }
    }

    /// The machine with register `x` set to `value`.
    pub open spec fn spec_set(self, x: int, value: u8) -> Machine {
        self.spec_with_cpu(self.cpu.spec_set(x, value))
    }

    /// The machine with register `x` set to `value` and then the flag register
    /// to `flag`.
    pub open spec fn spec_set_flagged(self, x: int, value: u8, flag: bool) -> Machine {
        self.spec_with_cpu(self.cpu.spec_set_flagged(x, value, flag))
    }

    /// The machine with the index register set to `i`.
    pub open spec fn spec_set_index(self, i: u16) -> Machine {
        self.spec_with_cpu(CpuState { i: i, ..self.cpu })
    }

    /// Return: the newest address leaves the call stack and becomes the
    /// program counter.
    pub open spec fn spec_ret(self) -> Effect {
        if self.cpu.stack.len() > 0 {
            self.spec_with_cpu(CpuState { stack: self.cpu.stack.drop_last(), ..self.cpu }).spec_jump(
                self.cpu.stack.last(),
            )
        } else {
            self.spec_fail(Error::StackUnderflow)
        }
    }

    /// Call: the address of the next instruction goes on the call stack, and
    /// `addr` becomes the program counter.
    pub open spec fn spec_call(self, addr: u16) -> Effect {
        if self.cpu.stack.len() < STACK_DEPTH {
            self.spec_with_cpu(
                CpuState {
                    stack: self.cpu.stack.push(ProgramCounter::Next.spec_apply(self.cpu.pc)),
                    ..self.cpu
                },
            ).spec_jump(addr)
        } else {
            self.spec_fail(Error::StackOverflow)
        }
    }

    /// Random: register `x` takes the generator's next byte masked with `kk`.
    pub open spec fn spec_rnd(self, x: int, kk: u8) -> Effect {
        (Machine { rng: Rng::spec_advance(self.rng, 8), ..self }).spec_set(
            x,
            Rng::spec_byte(self.rng) & kk,
        ).spec_next()
    }

    /// Draw: the `n` bytes that the index register points at are drawn as a
    /// sprite at the place that registers `x` and `y` give, and the flag
    /// register says whether a lit pixel was put out. A byte beyond memory
    /// stops the drawing: the rows before it are drawn, the flag stays.
    pub open spec fn spec_drw(self, x: int, y: int, n: u8) -> Effect {
        let rows = Ram::spec_reach(self.cpu.i, n as nat);
        let sprite = Seq::new(rows, |k: int| self.ram[self.cpu.i + k]);
        let drawn = Machine {
            pixels: spec_sprite_drawn(
                self.pixels,
                self.width,
                self.height,
                self.cpu.v[x],
                self.cpu.v[y],
                sprite,
                rows,
            ),
            ..self
        };
        match Ram::spec_overrun(self.cpu.i, n as nat) {
            Some(addr) => drawn.spec_fail(Error::AddressOutOfRange(addr)),
            None => drawn.spec_set(
                crate::cpu::FLAG as int,
                if spec_sprite_collides(
                    self.pixels,
                    self.width,
                    self.height,
                    self.cpu.v[x],
                    self.cpu.v[y],
                    sprite,
                    rows,
                ) {
                    1u8
                } else {
                    0u8
                },
            ).spec_next(),
        }
    }

    /// Skip if the key that register `x` names is pressed (`pressed`) or is
    /// not (`!pressed`); a value that names no key fails.
    pub open spec fn spec_skip_key(self, keys: Seq<bool>, x: int, pressed: bool) -> Effect {
        if self.cpu.v[x] < KEYS {
            self.spec_skip_if(keys[self.cpu.v[x] as int] == pressed)
        } else {
            self.spec_fail(Error::KeyIndexOutOfRange(self.cpu.v[x]))
        }
    }

    /// Wait for a key: with a key pressed, register `x` takes the number of the
    /// first one; with none, the instruction is to be executed again.
    pub open spec fn spec_wait(self, keys: Seq<bool>, x: int) -> Effect {
        match spec_pressed_from(keys, 0) {
            Some(key) => self.spec_set(x, key as u8).spec_next(),
            None => Effect { machine: self, result: Ok(ProgramCounter::Wait) },
        }
    }

    /// Stores `bytes` where the index register points. A byte that would fall
    /// beyond memory stops the storing: the bytes before it are stored.
    pub open spec fn spec_store(self, bytes: Seq<u8>) -> Effect {
        let stored = Machine {
            ram: Ram::spec_stored(
                self.ram,
                self.cpu.i,
                bytes.take(Ram::spec_reach(self.cpu.i, bytes.len()) as int),
            ),
            ..self
        };
        match Ram::spec_overrun(self.cpu.i, bytes.len()) {
            Some(addr) => stored.spec_fail(Error::AddressOutOfRange(addr)),
            None => stored.spec_next(),
        }
    }

    /// Loads registers `V0` to `Vx` from where the index register points. A
    /// byte beyond memory stops the loading: the registers before it are loaded.
    pub open spec fn spec_load(self, x: int) -> Effect {
        let reach = Ram::spec_reach(self.cpu.i, (x + 1) as nat);
        let loaded = self.spec_with_cpu(
            CpuState {
                v: Seq::new(
                    self.cpu.v.len(),
                    |r: int|
                        if r < reach {
                            self.ram[self.cpu.i + r]
                        } else {
                            self.cpu.v[r]
                        },
                ),
                ..self.cpu
            },
        );
        match Ram::spec_overrun(self.cpu.i, (x + 1) as nat) {
            Some(addr) => loaded.spec_fail(Error::AddressOutOfRange(addr)),
            None => loaded.spec_next(),
        }
    }

    /// What the instruction made of the bytes `hi` and `lo` does to the
    /// machine, with the keys in the state `keys`.
    ///
    /// The four nibbles of the instruction select it; `x` and `y` name
    /// registers, `n` is the last nibble, `kk` the low byte and `nnn` the low
    /// twelve bits. Arithmetic on registers wraps round at eight bits.
    #[verifier::opaque]
    pub open spec fn spec_execute(self, keys: Seq<bool>, hi: u8, lo: u8) -> Effect {
        let op = hi / 0x10;
        let x = (hi % 0x10) as int;
        let y = (lo / 0x10) as int;
        let n = lo % 0x10;
        let kk = lo;
        let nnn = ((hi % 0x10) * 0x100 + lo) as u16;
        let vx = self.cpu.v[x];
        let vy = self.cpu.v[y];
        if hi == 0x00 && lo == 0x00 {
            // 0000: nothing
            self.spec_next()
        } else if hi == 0x00 && lo == 0xe0 {
            // 00E0: clear the display
            (Machine { pixels: Seq::new(self.pixels.len(), |p: int| false), ..self }).spec_next()
        } else if hi == 0x00 && lo == 0xee {
            // 00EE: return
            self.spec_ret()
        } else if op == 0x1 {
            // 1nnn: jump to nnn
            self.spec_jump(nnn)
        } else if op == 0x2 {
            // 2nnn: call nnn
            self.spec_call(nnn)
        } else if op == 0x3 {
            // 3xkk: skip if Vx == kk
            self.spec_skip_if(vx == kk)
        } else if op == 0x4 {
            // 4xkk: skip if Vx != kk
            self.spec_skip_if(vx != kk)
        } else if op == 0x5 && n == 0x0 {
            // 5xy0: skip if Vx == Vy
            self.spec_skip_if(vx == vy)
        } else if op == 0x6 {
            // 6xkk: Vx = kk
            self.spec_set(x, kk).spec_next()
        } else if op == 0x7 {
            // 7xkk: Vx += kk, the flag untouched
            self.spec_set(x, vx.wrapping_add(kk)).spec_next()
        } else if op == 0x8 && n == 0x0 {
            // 8xy0: Vx = Vy
            self.spec_set(x, vy).spec_next()
        } else if op == 0x8 && n == 0x1 {
            // 8xy1: Vx |= Vy
            self.spec_set(x, vx | vy).spec_next()
        } else if op == 0x8 && n == 0x2 {
            // 8xy2: Vx &= Vy
            self.spec_set(x, vx & vy).spec_next()
        } else if op == 0x8 && n == 0x3 {
            // 8xy3: Vx ^= Vy
            self.spec_set(x, vx ^ vy).spec_next()
        } else if op == 0x8 && n == 0x4 {
            // 8xy4: Vx += Vy, VF = carry
            self.spec_set_flagged(x, vx.wrapping_add(vy), vx + vy > u8::MAX).spec_next()
        } else if op == 0x8 && n == 0x5 {
            // 8xy5: Vx -= Vy, VF = whether Vx was the greater
            self.spec_set_flagged(x, vx.wrapping_sub(vy), vx > vy).spec_next()
        } else if op == 0x8 && n == 0x6 {
            // 8xy6: Vx >>= 1, VF = the bit shifted out
            self.spec_set_flagged(x, vx >> 1, vx & 0x01 != 0).spec_next()
        } else if op == 0x8 && n == 0x7 {
            // 8xy7: Vx = Vy - Vx, VF = whether Vy was the greater
            self.spec_set_flagged(x, vy.wrapping_sub(vx), vy > vx).spec_next()
        } else if op == 0x8 && n == 0xe {
            // 8xyE: Vx <<= 1, VF = the bit shifted out
            self.spec_set_flagged(x, vx << 1, vx & 0x80 != 0).spec_next()
        } else if op == 0x9 && n == 0x0 {
            // 9xy0: skip if Vx != Vy
            self.spec_skip_if(vx != vy)
        } else if op == 0xa {
            // Annn: I = nnn
            self.spec_set_index(nnn).spec_next()
        } else if op == 0xb {
            // Bnnn: jump to nnn + V0
            self.spec_jump(nnn.wrapping_add(self.cpu.v[0] as u16))
        } else if op == 0xc {
            // Cxkk: Vx = random byte & kk
            self.spec_rnd(x, kk)
        } else if op == 0xd {
            // Dxyn: draw n rows from I at (Vx, Vy), VF = collision
            self.spec_drw(x, y, n)
        } else if op == 0xe && lo == 0x9e {
            // Ex9E: skip if key Vx is pressed
            self.spec_skip_key(keys, x, true)
        } else if op == 0xe && lo == 0xa1 {
            // ExA1: skip if key Vx is not pressed
            self.spec_skip_key(keys, x, false)
        } else if op == 0xf && lo == 0x07 {
            // Fx07: Vx = delay timer
            self.spec_set(x, self.dt).spec_next()
        } else if op == 0xf && lo == 0x0a {
            // Fx0A: wait for a key, Vx = its number
            self.spec_wait(keys, x)
        } else if op == 0xf && lo == 0x15 {
            // Fx15: delay timer = Vx
            (Machine { dt: vx, ..self }).spec_next()
        } else if op == 0xf && lo == 0x18 {
            // Fx18: sound timer = Vx
            (Machine { st: vx, ..self }).spec_next()
        } else if op == 0xf && lo == 0x1e {
            // Fx1E: I += Vx
            self.spec_set_index(self.cpu.i.wrapping_add(vx as u16)).spec_next()
        } else if op == 0xf && lo == 0x29 {
            // Fx29: I = address of the font sprite of Vx
            self.spec_set_index(self.cpu.font.wrapping_add((vx * FONT_SIZE) as u16)).spec_next()
        } else if op == 0xf && lo == 0x33 {
            // Fx33: store the decimal digits of Vx at I
            self.spec_store(spec_digits(vx))
        } else if op == 0xf && lo == 0x55 {
            // Fx55: store V0 to Vx at I
            self.spec_store(self.cpu.v.take(x + 1))
        } else if op == 0xf && lo == 0x65 {
            // Fx65: load V0 to Vx from I
            self.spec_load(x)
        } else {
            self.spec_fail(Error::UnknownOpcode(op, hi % 0x10, lo / 0x10, n))
        }
    }

    /// One cycle: the two bytes at the program counter are fetched and the
    /// instruction they make is executed; then the program counter moves as the
    /// instruction says. A fetch beyond memory fails and changes nothing.
    pub open spec fn spec_cycle(self, keys: Seq<bool>) -> Step {
        match Ram::spec_overrun(self.cpu.pc, 2) {
            Some(addr) => Step { machine: self, result: Err(Error::AddressOutOfRange(addr)) },
            None => {
                let effect = self.spec_execute(
                    keys,
                    self.ram[self.cpu.pc as int],
                    self.ram[self.cpu.pc + 1],
                );
                match effect.result {
                    Ok(pc) => Step {
                        machine: effect.machine.spec_with_cpu(
                            CpuState { pc: pc.spec_apply(self.cpu.pc), ..effect.machine.cpu },
                        ),
                        result: Ok(()),
                    },
                    Err(error) => Step { machine: effect.machine, result: Err(error) },
                }
            },
        }
    }

    /// `cycles` cycles one after another, up to the first that fails: what
    /// that one leaves is what the run leaves.
    pub open spec fn spec_run(self, keys: Seq<bool>, cycles: nat) -> Step
        decreases cycles,
    {
        if cycles == 0 {
            Step { machine: self, result: Ok(()) }
        } else {
            let before = self.spec_run(keys, (cycles - 1) as nat);
            match before.result {
                Ok(()) => before.machine.spec_cycle(keys),
                Err(_) => before,
            }
        }
    }

    /// A run that has failed after `failed` cycles is the same however many
    /// more cycles were asked for.
    pub proof fn lemma_run_stops(self, keys: Seq<bool>, failed: nat, cycles: nat)
        requires
            self.spec_run(keys, failed).result is Err,
            failed <= cycles,
        ensures
            self.spec_run(keys, cycles) == self.spec_run(keys, failed),
        decreases cycles,
    {
        if failed < cycles {
            self.lemma_run_stops(keys, failed, (cycles - 1) as nat);
        }
    }

    /// Clearing the display puts every pixel out, whatever the display showed,
    /// changes nothing else, and goes on to the next instruction.
    pub proof fn lemma_clear_screen(self, keys: Seq<bool>)
        ensures
            ({
                let effect = self.spec_execute(keys, 0x00, 0xe0);
                &&& effect.result == Ok::<ProgramCounter, Error>(ProgramCounter::Next)
                &&& effect.machine.pixels.len() == self.pixels.len()
                &&& forall|p: int| 0 <= p < self.pixels.len() ==> !effect.machine.pixels[p]
                &&& effect.machine == (Machine { pixels: effect.machine.pixels, ..self })
            }),
    {
        reveal(Machine::spec_execute);
    }

    /// Setting register `x` to `kk` and then adding `jj` to it takes two
    /// cycles, leaves `kk + jj` in the register, wrapped round at eight bits,
    /// and the program counter four bytes on; nothing else changes.
    pub proof fn lemma_set_then_add(self, keys: Seq<bool>, x: u8, kk: u8, jj: u8)
        requires
            self.wf(),
            x < 0x10,
            self.cpu.pc + 3 < MEMORY_SIZE,
            self.ram[self.cpu.pc as int] == 0x60 + x,
            self.ram[self.cpu.pc + 1] == kk,
            self.ram[self.cpu.pc + 2] == 0x70 + x,
            self.ram[self.cpu.pc + 3] == jj,
        ensures
            self.spec_run(keys, 2) == (Step {
                machine: self.spec_with_cpu(
                    CpuState {
                        v: self.cpu.v.update(x as int, kk.wrapping_add(jj)),
                        pc: (self.cpu.pc + 4) as u16,
                        ..self.cpu
                    },
                ),
                result: Ok(()),
            }),
    {
        reveal(Machine::spec_execute);
        reveal_with_fuel(Machine::spec_run, 3);
    }

    /// An instruction leaves a machine that can exist as one that can exist,
    /// with a display of the dimensions it had.
    pub proof fn lemma_execute_keeps_wf(self, keys: Seq<bool>, hi: u8, lo: u8)
        requires
            self.wf(),
        ensures
            self.spec_execute(keys, hi, lo).machine.wf(),
            self.spec_execute(keys, hi, lo).machine.width == self.width,
            self.spec_execute(keys, hi, lo).machine.height == self.height,
    {
        reveal(Machine::spec_execute);
        let x = (hi % 0x10) as int;
        let y = (lo / 0x10) as int;
        let rows = Ram::spec_reach(self.cpu.i, (lo % 0x10) as nat);
        lemma_sprite_keeps_len(
            self.pixels,
            self.width,
            self.height,
            self.cpu.v[x],
            self.cpu.v[y],
            Seq::new(rows, |k: int| self.ram[self.cpu.i + k]),
            rows,
        );
    }

    /// A cycle leaves a machine that can exist as one that can exist, with a
    /// display of the dimensions it had.
    pub proof fn lemma_cycle_keeps_wf(self, keys: Seq<bool>)
        requires
            self.wf(),
        ensures
            self.spec_cycle(keys).machine.wf(),
            self.spec_cycle(keys).machine.width == self.width,
            self.spec_cycle(keys).machine.height == self.height,
    {
        if Ram::spec_overrun(self.cpu.pc, 2) is None {
            self.lemma_execute_keeps_wf(
                keys,
                self.ram[self.cpu.pc as int],
                self.ram[self.cpu.pc + 1],
            );
        }
    }

    /// However many cycles run, a machine that can exist stays one, with a
    /// display of the dimensions it had.
    pub proof fn lemma_run_keeps_wf(self, keys: Seq<bool>, cycles: nat)
        requires
            self.wf(),
        ensures
            self.spec_run(keys, cycles).machine.wf(),
            self.spec_run(keys, cycles).machine.width == self.width,
            self.spec_run(keys, cycles).machine.height == self.height,
        decreases cycles,
    {
        if cycles > 0 {
            self.lemma_run_keeps_wf(keys, (cycles - 1) as nat);
            self.spec_run(keys, (cycles - 1) as nat).machine.lemma_cycle_keeps_wf(keys);
        }
    }
}

} // verus!
