//! The processor: registers, call stack, and the cycle that fetches and
//! executes one instruction.

use crate::bus::ram::Ram;
use crate::bus::Bus;
use crate::cpu::model::spec_digits;
use crate::cpu::model::spec_pressed_from;
use crate::cpu::model::Effect;
use crate::cpu::model::Machine;
use crate::cpu::model::Step;
use crate::error::Error;
use crate::io::screen::spec_collides;
use crate::io::screen::spec_drawn;
use crate::io::screen::spec_fits;
use crate::io::screen::spec_sprite_collides;
use crate::io::screen::spec_sprite_drawn;
use crate::io::screen::spec_sprite_row;
use crate::io::Screen;
use crate::io::IO;
use vstd::prelude::*;
use vstd::slice::slice_subrange;

pub mod model;

verus! {

/// Number of bytes in one built-in font sprite.
pub const FONT_SIZE: u16 = 5;

/// Number of bytes in one instruction.
pub const OPCODE_SIZE: u16 = 2;

/// Number of general-purpose registers.
pub const REGISTERS: usize = 0x10;

/// Number of return addresses the call stack holds.
pub const STACK_DEPTH: usize = 0x10;

/// Number of keys on the pad.
pub const KEYS: usize = 0x10;

/// Index of the register that doubles as flag: carry, borrow, the bit shifted
/// out, or sprite collision.
pub const FLAG: usize = 0xf;

/// The processor: sixteen 8-bit registers, the index register, the program
/// counter, the call stack and the address of the font table.
#[derive(Debug)]
pub struct Cpu {
    v: [u8; 0x10],
    i: u16,
    pc: u16,
    stack: CallStack,
    ft: u16,
}

/// The call stack: up to sixteen return addresses and the count of those in
/// use, which never leaves the range from 0 to 16.
///
/// Its view is the sequence of the addresses in use, the oldest first.
#[derive(Debug)]
pub struct CallStack {
    sp: u8,
    slots: [u16; 0x10],
}

/// What a processor holds, as plain values.
#[verifier::ext_equal]
pub struct CpuState {
    /// The registers `V0` to `VF`.
    pub v: Seq<u8>,
    /// The index register `I`.
    pub i: u16,
    /// The program counter.
    pub pc: u16,
    /// The return addresses on the call stack, the oldest first.
    pub stack: Seq<u16>,
    /// The address of the first font sprite.
    pub font: u16,
}

/// What an instruction does to the program counter.
#[derive(Debug, Clone, Copy, PartialEq, Eq)]
pub enum ProgramCounter {
    /// Stay on this instruction.
    Wait,
    /// Go to the next instruction.
    Next,
    /// Leave the next instruction out.
    Skip,
    /// Go to the given address.
    Jump(u16),
}

impl ProgramCounter {
    /// `Skip` if `cond` holds, `Next` if not.
    pub fn skip_if(cond: bool) -> (pc: ProgramCounter)
        ensures
            pc == (if cond {
                ProgramCounter::Skip
            } else {
                ProgramCounter::Next
            }),
    {
        if cond {
            ProgramCounter::Skip
        } else {
            ProgramCounter::Next
        }
    }

    /// `Wait` if `cond` holds, `Next` if not.
    pub fn wait_if(cond: bool) -> (pc: ProgramCounter)
        ensures
            pc == (if cond {
                ProgramCounter::Wait
            } else {
                ProgramCounter::Next
            }),
    {
        if cond {
            ProgramCounter::Wait
        } else {
            ProgramCounter::Next
        }
    }

    /// The program counter that follows `pc`: addresses wrap round at 16 bits.
    pub open spec fn spec_apply(self, pc: u16) -> u16 {
        match self {
            ProgramCounter::Wait => pc,
            ProgramCounter::Next => pc.wrapping_add(OPCODE_SIZE),
            ProgramCounter::Skip => pc.wrapping_add((2 * OPCODE_SIZE) as u16),
            ProgramCounter::Jump(addr) => addr,
        }
    }
}

impl CpuState {
    /// Whether the state is one a processor can be in.
    pub open spec fn wf(self) -> bool {
        self.v.len() == REGISTERS && self.stack.len() <= STACK_DEPTH
    }

    /// The state with register `x` set to `value`.
    pub open spec fn spec_set(self, x: int, value: u8) -> CpuState {
        CpuState { v: self.v.update(x, value), ..self }
    }

    /// The state with register `x` set to `value` and then the flag register
    /// to `flag`: where `x` is the flag register itself, the flag stays.
    pub open spec fn spec_set_flagged(self, x: int, value: u8, flag: bool) -> CpuState {
        CpuState {
            v: self.v.update(x, value).update(
                FLAG as int,
                if flag {
                    1u8
                } else {
                    0u8
                },
            ),
            ..self
        }
    }
}

impl View for CallStack {
    type V = Seq<u16>;

    closed spec fn view(&self) -> Seq<u16> {
        self.slots@.take(self.sp as int)
    }
}

impl CallStack {
    #[verifier::type_invariant]
    spec fn inv(self) -> bool {
        self.sp <= STACK_DEPTH
    }

    /// What putting an address on the stack `stack` gives.
    pub open spec fn spec_push(stack: Seq<u16>) -> Result<(), Error> {
        if stack.len() < STACK_DEPTH {
            Ok(())
        } else {
            Err(Error::StackOverflow)
        }
    }

    /// The stack after `addr` was put on it: a full stack stays as it is.
    pub open spec fn spec_pushed(stack: Seq<u16>, addr: u16) -> Seq<u16> {
        if stack.len() < STACK_DEPTH {
            stack.push(addr)
        } else {
            stack
        }
    }

    /// What taking the newest address off the stack `stack` gives.
    pub open spec fn spec_pop(stack: Seq<u16>) -> Result<u16, Error> {
        if stack.len() > 0 {
            Ok(stack.last())
        } else {
            Err(Error::StackUnderflow)
        }
    }

    /// The stack after its newest address was taken off: an empty stack stays
    /// as it is.
    pub open spec fn spec_popped(stack: Seq<u16>) -> Seq<u16> {
        if stack.len() > 0 {
            stack.drop_last()
        } else {
            stack
        }
    }

    /// The stack after the addresses `addrs` were put on it one by one.
    pub open spec fn spec_pushed_all(stack: Seq<u16>, addrs: Seq<u16>) -> Seq<u16>
        decreases addrs.len(),
    {
        if addrs.len() == 0 {
            stack
        } else {
            CallStack::spec_pushed(
                CallStack::spec_pushed_all(stack, addrs.drop_last()),
                addrs.last(),
            )
        }
    }

    /// Up to sixteen addresses put on an empty stack all find room, and come
    /// off again the newest first; a seventeenth fails with `StackOverflow`,
    /// and taking an address off an empty stack fails with `StackUnderflow`.
    pub proof fn lemma_discipline(addrs: Seq<u16>, addr: u16)
        requires
            addrs.len() <= STACK_DEPTH,
        ensures
            CallStack::spec_pushed_all(Seq::empty(), addrs) == addrs,
            addrs.len() < STACK_DEPTH ==> CallStack::spec_push(addrs) == Ok::<(), Error>(())
                && CallStack::spec_pop(CallStack::spec_pushed(addrs, addr)) == Ok::<u16, Error>(
                addr,
            ) && CallStack::spec_popped(CallStack::spec_pushed(addrs, addr)) == addrs,
            addrs.len() == STACK_DEPTH ==> CallStack::spec_push(addrs) == Err::<(), Error>(
                Error::StackOverflow,
            ) && CallStack::spec_pushed(addrs, addr) == addrs,
            CallStack::spec_pop(Seq::empty()) == Err::<u16, Error>(Error::StackUnderflow),
        decreases addrs.len(),
    {
        if addrs.len() > 0 {
            CallStack::lemma_discipline(addrs.drop_last(), addrs.last());
        }
    }

    /// An empty stack.
    pub fn new() -> (stack: CallStack)
        ensures
            stack@ == Seq::<u16>::empty(),
    {
        CallStack { sp: 0, slots: [0u16; 0x10] }
    }

    /// Number of addresses on the stack: never more than [`STACK_DEPTH`].
    pub fn len(&self) -> (n: usize)
        ensures
            n == self@.len(),
            n <= STACK_DEPTH,
    {
        proof {
            use_type_invariant(self);
        }
        self.sp as usize
    }

    /// Takes every address off the stack.
    pub fn clear(&mut self)
        ensures
            final(self)@ == Seq::<u16>::empty(),
    {
        self.sp = 0;
    }

    /// Puts `addr` on the stack, or fails with `StackOverflow` and changes
    /// nothing where the stack is full.
    pub fn push(&mut self, addr: u16) -> (r: Result<(), Error>)
        ensures
            r == CallStack::spec_push(old(self)@),
            final(self)@ == CallStack::spec_pushed(old(self)@, addr),
    {
        proof {
            use_type_invariant(&*self);
        }
        if (self.sp as usize) < self.slots.len() {
            self.slots[self.sp as usize] = addr;
            self.sp += 1;
            Ok(())
        } else {
            Err(Error::StackOverflow)
        }
    }

    /// Takes the newest address off the stack, or fails with `StackUnderflow`
    /// and changes nothing where the stack is empty.
    pub fn pop(&mut self) -> (r: Result<u16, Error>)
        ensures
            r == CallStack::spec_pop(old(self)@),
            final(self)@ == CallStack::spec_popped(old(self)@),
    {
        proof {
            use_type_invariant(&*self);
        }
        if self.sp > 0 {
            self.sp -= 1;
            Ok(self.slots[self.sp as usize])
        } else {
            Err(Error::StackUnderflow)
        }
    }
}

impl View for Cpu {
    type V = CpuState;

    closed spec fn view(&self) -> CpuState {
        CpuState { v: self.v@, i: self.i, pc: self.pc, stack: self.stack@, font: self.ft }
    }
}

impl Cpu {
    /// What a new processor holds: zero in every register, an empty stack.
    pub open spec fn spec_reset() -> CpuState {
        CpuState {
            v: Seq::new(REGISTERS as nat, |x: int| 0u8),
            i: 0,
            pc: 0,
            stack: Seq::empty(),
            font: 0,
        }
    }

    /// A processor with every register, the stack and the program counter at
    /// zero.
    pub fn new() -> (cpu: Cpu)
        ensures
            cpu@ == Cpu::spec_reset(),
    {
        Cpu { v: [0u8; 0x10], i: 0, pc: 0, stack: CallStack::new(), ft: 0 }
    }

    /// Points the processor at a program: sets the program counter and the
    /// address of the font table, and empties the call stack. The registers
    /// keep what they hold.
    pub fn init(&mut self, pc: u16, ft: u16)
        ensures
            final(self)@ == (CpuState { pc: pc, stack: Seq::empty(), font: ft, ..old(self)@ }),
    {
        self.pc = pc;
        self.stack.clear();
        self.ft = ft;
    }

    /// The registers `V0` to `VF`.
    pub fn registers(&self) -> (v: &[u8; 0x10])
        ensures
            v@ == self@.v,
    {
        &self.v
    }

    /// The index register `I`.
    pub fn index(&self) -> (i: u16)
        ensures
            i == self@.i,
    {
        self.i
    }

    /// The program counter.
    pub fn pc(&self) -> (pc: u16)
        ensures
            pc == self@.pc,
    {
        self.pc
    }

    /// Number of return addresses on the call stack: never more than
    /// [`STACK_DEPTH`].
    pub fn depth(&self) -> (n: usize)
        ensures
            n == self@.stack.len(),
            n <= STACK_DEPTH,
    {
        self.stack.len()
    }

    /// Puts `addr` on the call stack, or fails with `StackOverflow` and changes
    /// nothing where the stack is full.
    pub fn stack_push(&mut self, addr: u16) -> (r: Result<(), Error>)
        ensures
            r == CallStack::spec_push(old(self)@.stack),
            final(self)@ == (CpuState {
                stack: CallStack::spec_pushed(old(self)@.stack, addr),
                ..old(self)@
            }),
    {
        self.stack.push(addr)
    }

    /// Takes the newest address off the call stack, or fails with
    /// `StackUnderflow` and changes nothing where the stack is empty.
    pub fn stack_pop(&mut self) -> (r: Result<u16, Error>)
        ensures
            r == CallStack::spec_pop(old(self)@.stack),
            final(self)@ == (CpuState {
                stack: CallStack::spec_popped(old(self)@.stack),
                ..old(self)@
            }),
    {
        self.stack.pop()
    }

    /// No operation.
    fn op_nop<S: Screen>(&mut self, bus: &mut Bus, screen: &mut S) -> (r: Result<ProgramCounter, Error>)
        ensures
            Effect::spec_of(final(self), final(bus), final(screen), r)
                == Machine::spec_of(old(self), old(bus), old(screen)).spec_next(),
    {
        Ok(ProgramCounter::Next)
    }

    /// Clears the display.
    fn op_cls<S: Screen>(&mut self, bus: &mut Bus, screen: &mut S) -> (r: Result<ProgramCounter, Error>)
        ensures
            Effect::spec_of(final(self), final(bus), final(screen), r)
                == (Machine {
                pixels: Seq::new(old(screen).pixels().len(), |p: int| false),
                ..Machine::spec_of(old(self), old(bus), old(screen))
            }).spec_next(),
    {
        screen.clear();
        Ok(ProgramCounter::Next)
    }

    /// Returns from a subroutine.
    fn op_ret<S: Screen>(&mut self, bus: &mut Bus, screen: &mut S) -> (r: Result<ProgramCounter, Error>)
        ensures
            Effect::spec_of(final(self), final(bus), final(screen), r)
                == Machine::spec_of(old(self), old(bus), old(screen)).spec_ret(),
    {
        match self.stack_pop() {
            Ok(addr) => Ok(ProgramCounter::Jump(addr)),
            Err(error) => Err(error),
        }
    }

    /// Jumps to `nnn`.
    fn op_jmp<S: Screen>(&mut self, bus: &mut Bus, screen: &mut S, nnn: u16) -> (r: Result<
        ProgramCounter,
        Error,
    >)
        ensures
            Effect::spec_of(final(self), final(bus), final(screen), r)
                == Machine::spec_of(old(self), old(bus), old(screen)).spec_jump(nnn),
    {
        Ok(ProgramCounter::Jump(nnn))
    }

    /// Calls the subroutine at `nnn`.
    fn op_call<S: Screen>(&mut self, bus: &mut Bus, screen: &mut S, nnn: u16) -> (r: Result<
        ProgramCounter,
        Error,
    >)
        ensures
            Effect::spec_of(final(self), final(bus), final(screen), r)
                == Machine::spec_of(old(self), old(bus), old(screen)).spec_call(nnn),
    {
        match self.stack_push(self.pc.wrapping_add(OPCODE_SIZE)) {
            Ok(()) => Ok(ProgramCounter::Jump(nnn)),
            Err(error) => Err(error),
        }
    }

    /// Skips if register `x` equals `kk`.
    fn op_sei<S: Screen>(&mut self, bus: &mut Bus, screen: &mut S, x: usize, kk: u8) -> (r: Result<
        ProgramCounter,
        Error,
    >)
        requires
            x < REGISTERS,
        ensures
            Effect::spec_of(final(self), final(bus), final(screen), r)
                == Machine::spec_of(old(self), old(bus), old(screen)).spec_skip_if(
                old(self)@.v[x as int] == kk,
            ),
    {
        Ok(ProgramCounter::skip_if(self.v[x] == kk))
    }

    /// Skips if register `x` differs from `kk`.
    fn op_snei<S: Screen>(&mut self, bus: &mut Bus, screen: &mut S, x: usize, kk: u8) -> (r: Result<
        ProgramCounter,
        Error,
    >)
        requires
            x < REGISTERS,
        ensures
            Effect::spec_of(final(self), final(bus), final(screen), r)
                == Machine::spec_of(old(self), old(bus), old(screen)).spec_skip_if(
                old(self)@.v[x as int] != kk,
            ),
    {
        Ok(ProgramCounter::skip_if(self.v[x] != kk))
    }

    /// Skips if registers `x` and `y` are equal.
    fn op_se<S: Screen>(&mut self, bus: &mut Bus, screen: &mut S, x: usize, y: usize) -> (r: Result<
        ProgramCounter,
        Error,
    >)
        requires
            x < REGISTERS,
            y < REGISTERS,
        ensures
            Effect::spec_of(final(self), final(bus), final(screen), r)
                == Machine::spec_of(old(self), old(bus), old(screen)).spec_skip_if(
                old(self)@.v[x as int] == old(self)@.v[y as int],
            ),
    {
        Ok(ProgramCounter::skip_if(self.v[x] == self.v[y]))
    }

    /// Sets register `x` to `kk`.
    fn op_movi<S: Screen>(&mut self, bus: &mut Bus, screen: &mut S, x: usize, kk: u8) -> (r: Result<
        ProgramCounter,
        Error,
    >)
        requires
            x < REGISTERS,
        ensures
            Effect::spec_of(final(self), final(bus), final(screen), r)
                == Machine::spec_of(old(self), old(bus), old(screen)).spec_set(
                x as int,
                kk,
            ).spec_next(),
    {
        self.v[x] = kk;
        Ok(ProgramCounter::Next)
    }

    /// Adds `kk` to register `x`; the flag register is not touched.
    fn op_addi<S: Screen>(&mut self, bus: &mut Bus, screen: &mut S, x: usize, kk: u8) -> (r: Result<
        ProgramCounter,
        Error,
    >)
        requires
            x < REGISTERS,
        ensures
            Effect::spec_of(final(self), final(bus), final(screen), r)
                == Machine::spec_of(old(self), old(bus), old(screen)).spec_set(
                x as int,
                old(self)@.v[x as int].wrapping_add(kk),
            ).spec_next(),
    {
        self.v[x] = self.v[x].wrapping_add(kk);
        Ok(ProgramCounter::Next)
    }

    /// Copies register `y` to register `x`.
    fn op_mov<S: Screen>(&mut self, bus: &mut Bus, screen: &mut S, x: usize, y: usize) -> (r: Result<
        ProgramCounter,
        Error,
    >)
        requires
            x < REGISTERS,
            y < REGISTERS,
        ensures
            Effect::spec_of(final(self), final(bus), final(screen), r)
                == Machine::spec_of(old(self), old(bus), old(screen)).spec_set(
                x as int,
                old(self)@.v[y as int],
            ).spec_next(),
    {
        self.v[x] = self.v[y];
        Ok(ProgramCounter::Next)
    }

    /// Ors register `y` into register `x`.
    fn op_or<S: Screen>(&mut self, bus: &mut Bus, screen: &mut S, x: usize, y: usize) -> (r: Result<
        ProgramCounter,
        Error,
    >)
        requires
            x < REGISTERS,
            y < REGISTERS,
        ensures
            Effect::spec_of(final(self), final(bus), final(screen), r)
                == Machine::spec_of(old(self), old(bus), old(screen)).spec_set(
                x as int,
                old(self)@.v[x as int] | old(self)@.v[y as int],
            ).spec_next(),
    {
        self.v[x] = self.v[x] | self.v[y];
        Ok(ProgramCounter::Next)
    }

    /// Ands register `y` into register `x`.
    fn op_and<S: Screen>(&mut self, bus: &mut Bus, screen: &mut S, x: usize, y: usize) -> (r: Result<
        ProgramCounter,
        Error,
    >)
        requires
            x < REGISTERS,
            y < REGISTERS,
        ensures
            Effect::spec_of(final(self), final(bus), final(screen), r)
                == Machine::spec_of(old(self), old(bus), old(screen)).spec_set(
                x as int,
                old(self)@.v[x as int] & old(self)@.v[y as int],
            ).spec_next(),
    {
        self.v[x] = self.v[x] & self.v[y];
        Ok(ProgramCounter::Next)
    }

    /// Exclusive-ors register `y` into register `x`.
    fn op_xor<S: Screen>(&mut self, bus: &mut Bus, screen: &mut S, x: usize, y: usize) -> (r: Result<
        ProgramCounter,
        Error,
    >)
        requires
            x < REGISTERS,
            y < REGISTERS,
        ensures
            Effect::spec_of(final(self), final(bus), final(screen), r)
                == Machine::spec_of(old(self), old(bus), old(screen)).spec_set(
                x as int,
                old(self)@.v[x as int] ^ old(self)@.v[y as int],
            ).spec_next(),
    {
        self.v[x] = self.v[x] ^ self.v[y];
        Ok(ProgramCounter::Next)
    }

    /// Adds register `y` to register `x`; the flag register says whether the
    /// sum went over eight bits.
    fn op_add<S: Screen>(&mut self, bus: &mut Bus, screen: &mut S, x: usize, y: usize) -> (r: Result<
        ProgramCounter,
        Error,
    >)
        requires
            x < REGISTERS,
            y < REGISTERS,
        ensures
            Effect::spec_of(final(self), final(bus), final(screen), r)
                == Machine::spec_of(old(self), old(bus), old(screen)).spec_set_flagged(
                x as int,
                old(self)@.v[x as int].wrapping_add(old(self)@.v[y as int]),
                old(self)@.v[x as int] + old(self)@.v[y as int] > u8::MAX,
            ).spec_next(),
    {
        let vf: u8 = if self.v[x] > u8::MAX - self.v[y] {
            0x01
        } else {
            0x00
        };
        self.v[x] = self.v[x].wrapping_add(self.v[y]);
        self.v[FLAG] = vf;
        Ok(ProgramCounter::Next)
    }

    /// Subtracts register `y` from register `x`; the flag register says
    /// whether register `x` was the greater.
    fn op_sub<S: Screen>(&mut self, bus: &mut Bus, screen: &mut S, x: usize, y: usize) -> (r: Result<
        ProgramCounter,
        Error,
    >)
        requires
            x < REGISTERS,
            y < REGISTERS,
        ensures
            Effect::spec_of(final(self), final(bus), final(screen), r)
                == Machine::spec_of(old(self), old(bus), old(screen)).spec_set_flagged(
                x as int,
                old(self)@.v[x as int].wrapping_sub(old(self)@.v[y as int]),
                old(self)@.v[x as int] > old(self)@.v[y as int],
            ).spec_next(),
    {
        let vf: u8 = if self.v[x] > self.v[y] {
            0x01
        } else {
            0x00
        };
        self.v[x] = self.v[x].wrapping_sub(self.v[y]);
        self.v[FLAG] = vf;
        Ok(ProgramCounter::Next)
    }

    /// Shifts register `x` right by one bit; the flag register takes the bit
    /// shifted out.
    fn op_shr<S: Screen>(&mut self, bus: &mut Bus, screen: &mut S, x: usize, y: usize) -> (r: Result<
        ProgramCounter,
        Error,
    >)
        requires
            x < REGISTERS,
        ensures
            Effect::spec_of(final(self), final(bus), final(screen), r)
                == Machine::spec_of(old(self), old(bus), old(screen)).spec_set_flagged(
                x as int,
                old(self)@.v[x as int] >> 1,
                old(self)@.v[x as int] & 0x01 != 0,
            ).spec_next(),
    {
        let vf: u8 = if self.v[x] & 0x01 != 0 {
            0x01
        } else {
            0x00
        };
        self.v[x] = self.v[x] >> 1;
        self.v[FLAG] = vf;
        Ok(ProgramCounter::Next)
    }

    /// Sets register `x` to register `y` less register `x`; the flag register
    /// says whether register `y` was the greater.
    fn op_subn<S: Screen>(&mut self, bus: &mut Bus, screen: &mut S, x: usize, y: usize) -> (r: Result<
        ProgramCounter,
        Error,
    >)
        requires
            x < REGISTERS,
            y < REGISTERS,
        ensures
            Effect::spec_of(final(self), final(bus), final(screen), r)
                == Machine::spec_of(old(self), old(bus), old(screen)).spec_set_flagged(
                x as int,
                old(self)@.v[y as int].wrapping_sub(old(self)@.v[x as int]),
                old(self)@.v[y as int] > old(self)@.v[x as int],
            ).spec_next(),
    {
        let vf: u8 = if self.v[y] > self.v[x] {
            0x01
        } else {
            0x00
        };
        self.v[x] = self.v[y].wrapping_sub(self.v[x]);
        self.v[FLAG] = vf;
        Ok(ProgramCounter::Next)
    }

    /// Shifts register `x` left by one bit; the flag register takes the bit
    /// shifted out.
    fn op_shl<S: Screen>(&mut self, bus: &mut Bus, screen: &mut S, x: usize, y: usize) -> (r: Result<
        ProgramCounter,
        Error,
    >)
        requires
            x < REGISTERS,
        ensures
            Effect::spec_of(final(self), final(bus), final(screen), r)
                == Machine::spec_of(old(self), old(bus), old(screen)).spec_set_flagged(
                x as int,
                old(self)@.v[x as int] << 1,
                old(self)@.v[x as int] & 0x80 != 0,
            ).spec_next(),
    {
        let vf: u8 = if self.v[x] & 0x80 != 0 {
            0x01
        } else {
            0x00
        };
        self.v[x] = self.v[x] << 1;
        self.v[FLAG] = vf;
        Ok(ProgramCounter::Next)
    }

    /// Skips if registers `x` and `y` differ.
    fn op_sne<S: Screen>(&mut self, bus: &mut Bus, screen: &mut S, x: usize, y: usize) -> (r: Result<
        ProgramCounter,
        Error,
    >)
        requires
            x < REGISTERS,
            y < REGISTERS,
        ensures
            Effect::spec_of(final(self), final(bus), final(screen), r)
                == Machine::spec_of(old(self), old(bus), old(screen)).spec_skip_if(
                old(self)@.v[x as int] != old(self)@.v[y as int],
            ),
    {
        Ok(ProgramCounter::skip_if(self.v[x] != self.v[y]))
    }

    /// Sets the index register to `nnn`.
    fn op_lea<S: Screen>(&mut self, bus: &mut Bus, screen: &mut S, nnn: u16) -> (r: Result<
        ProgramCounter,
        Error,
    >)
        ensures
            Effect::spec_of(final(self), final(bus), final(screen), r)
                == Machine::spec_of(old(self), old(bus), old(screen)).spec_set_index(nnn).spec_next(),
    {
        self.i = nnn;
        Ok(ProgramCounter::Next)
    }

    /// Jumps to `nnn` plus register 0.
    fn op_jmpshort<S: Screen>(&mut self, bus: &mut Bus, screen: &mut S, nnn: u16) -> (r: Result<
        ProgramCounter,
        Error,
    >)
        ensures
            Effect::spec_of(final(self), final(bus), final(screen), r)
                == Machine::spec_of(old(self), old(bus), old(screen)).spec_jump(
                nnn.wrapping_add(old(self)@.v[0] as u16),
            ),
    {
        let addr: u16 = nnn.wrapping_add(self.v[0] as u16);
        Ok(ProgramCounter::Jump(addr))
    }

    /// Sets register `x` to a random byte masked with `kk`.
    fn op_rnd<S: Screen>(&mut self, bus: &mut Bus, screen: &mut S, x: usize, kk: u8) -> (r: Result<
        ProgramCounter,
        Error,
    >)
        requires
            x < REGISTERS,
        ensures
            Effect::spec_of(final(self), final(bus), final(screen), r)
                == Machine::spec_of(old(self), old(bus), old(screen)).spec_rnd(x as int, kk),
    {
        self.v[x] = bus.rng.get_byte() & kk;
        Ok(ProgramCounter::Next)
    }

    /// Draws the sprite of `n` rows at the index register, at the place that
    /// registers `x` and `y` give; the flag register says whether a lit pixel
    /// was put out.
    fn op_drw<S: Screen>(&mut self, bus: &mut Bus, screen: &mut S, x: usize, y: usize, n: u8) -> (r:
        Result<ProgramCounter, Error>)
        requires
            x < REGISTERS,
            y < REGISTERS,
            spec_fits(old(screen).pixels(), old(screen).width(), old(screen).height()),
        ensures
            Effect::spec_of(final(self), final(bus), final(screen), r)
                == Machine::spec_of(old(self), old(bus), old(screen)).spec_drw(x as int, y as int, n),
            final(screen).pixels().len() == old(screen).pixels().len(),
    {
        let ghost rows = Ram::spec_reach(self.i, n as nat);
        let ghost sprite = Seq::new(rows, |k: int| bus.ram@[self.i + k]);
        let ghost before = screen.pixels();
        proof {
            bus.ram.lemma_len();
        }
        let mut vf: u8 = 0x00;
        let mut k: u8 = 0;
        while k < n
            invariant
                k <= n,
                k <= rows,
                x < REGISTERS,
                y < REGISTERS,
                *self == *old(self),
                *bus == *old(bus),
                rows == Ram::spec_reach(self.i, n as nat),
                before == old(screen).pixels(),
                screen.pixels().len() == before.len(),
                sprite == Seq::new(rows, |k: int| bus.ram@[self.i + k]),
                bus.ram@.len() == crate::bus::ram::MEMORY_SIZE,
                screen.width() == old(screen).width(),
                screen.height() == old(screen).height(),
                spec_fits(screen.pixels(), screen.width(), screen.height()),
                screen.pixels() == spec_sprite_drawn(
                    before,
                    screen.width(),
                    screen.height(),
                    self.v@[x as int],
                    self.v@[y as int],
                    sprite,
                    k as nat,
                ),
                (vf == 0x01) == spec_sprite_collides(
                    before,
                    screen.width(),
                    screen.height(),
                    self.v@[x as int],
                    self.v@[y as int],
                    sprite,
                    k as nat,
                ),
                vf == 0x00 || vf == 0x01,
            decreases n - k,
        {
            let addr: u16 = self.i.wrapping_add(k as u16);
            let byte: u8 = match bus.ram.read(addr) {
                Ok(byte) => byte,
                Err(error) => {
                    return Err(error);
                },
            };
            let row: u8 = self.v[y].wrapping_add(k);
            let ghost drawn = screen.pixels();
            let ghost collided = vf == 0x01;
            assert(k < rows);
            assert(byte == sprite[k as int]);
            assert(row == spec_sprite_row(self.v@[y as int], k as int));
            let hit: bool = screen.draw(self.v[x], row, byte);
            if hit {
                vf = 0x01;
            }
            k += 1;
            assert(screen.pixels() == spec_drawn(
                drawn,
                screen.width(),
                screen.height(),
                self.v@[x as int],
                row,
                byte,
            ));
            assert(screen.pixels() == spec_sprite_drawn(
                before,
                screen.width(),
                screen.height(),
                self.v@[x as int],
                self.v@[y as int],
                sprite,
                k as nat,
            ));
            assert((vf == 0x01) == (collided || spec_collides(
                drawn,
                screen.width(),
                screen.height(),
                self.v@[x as int],
                row,
                byte,
            )));
        }
        self.v[FLAG] = vf;
        Ok(ProgramCounter::Next)
    }

    /// Skips if the key that register `x` names is pressed.
    fn op_skp<S: Screen>(&mut self, bus: &mut Bus, screen: &mut S, pad: &[bool], x: usize) -> (r:
        Result<ProgramCounter, Error>)
        requires
            x < REGISTERS,
            pad@.len() == KEYS,
        ensures
            Effect::spec_of(final(self), final(bus), final(screen), r)
                == Machine::spec_of(old(self), old(bus), old(screen)).spec_skip_key(
                pad@,
                x as int,
                true,
            ),
    {
        if (self.v[x] as usize) < pad.len() {
            Ok(ProgramCounter::skip_if(pad[self.v[x] as usize]))
        } else {
            Err(Error::KeyIndexOutOfRange(self.v[x]))
        }
    }

    /// Skips if the key that register `x` names is not pressed.
    fn op_sknp<S: Screen>(&mut self, bus: &mut Bus, screen: &mut S, pad: &[bool], x: usize) -> (r:
        Result<ProgramCounter, Error>)
        requires
            x < REGISTERS,
            pad@.len() == KEYS,
        ensures
            Effect::spec_of(final(self), final(bus), final(screen), r)
                == Machine::spec_of(old(self), old(bus), old(screen)).spec_skip_key(
                pad@,
                x as int,
                false,
            ),
    {
        if (self.v[x] as usize) < pad.len() {
            Ok(ProgramCounter::skip_if(!pad[self.v[x] as usize]))
        } else {
            Err(Error::KeyIndexOutOfRange(self.v[x]))
        }
    }

    /// Sets register `x` to the delay timer.
    fn op_get_dt<S: Screen>(&mut self, bus: &mut Bus, screen: &mut S, x: usize) -> (r: Result<
        ProgramCounter,
        Error,
    >)
        requires
            x < REGISTERS,
        ensures
            Effect::spec_of(final(self), final(bus), final(screen), r)
                == Machine::spec_of(old(self), old(bus), old(screen)).spec_set(
                x as int,
                old(bus).dt@,
            ).spec_next(),
    {
        self.v[x] = bus.dt.get();
        Ok(ProgramCounter::Next)
    }

    /// Waits for a key: with one pressed, register `x` takes the number of the
    /// first; with none, the instruction comes round again.
    fn op_wait<S: Screen>(&mut self, bus: &mut Bus, screen: &mut S, pad: &[bool], x: usize) -> (r:
        Result<ProgramCounter, Error>)
        requires
            x < REGISTERS,
            pad@.len() == KEYS,
        ensures
            Effect::spec_of(final(self), final(bus), final(screen), r)
                == Machine::spec_of(old(self), old(bus), old(screen)).spec_wait(pad@, x as int),
    {
        let mut key: usize = 0;
        while key < pad.len()
            invariant
                key <= pad@.len(),
                pad@.len() == KEYS,
                x < REGISTERS,
                *self == *old(self),
                spec_pressed_from(pad@, 0) == spec_pressed_from(pad@, key as int),
            decreases pad@.len() - key,
        {
            if pad[key] {
                self.v[x] = key as u8;
                return Ok(ProgramCounter::Next);
            }
            key += 1;
        }
        Ok(ProgramCounter::wait_if(true))
    }

    /// Sets the delay timer to register `x`.
    fn op_set_dt<S: Screen>(&mut self, bus: &mut Bus, screen: &mut S, x: usize) -> (r: Result<
        ProgramCounter,
        Error,
    >)
        requires
            x < REGISTERS,
        ensures
            Effect::spec_of(final(self), final(bus), final(screen), r)
                == (Machine {
                dt: old(self)@.v[x as int],
                ..Machine::spec_of(old(self), old(bus), old(screen))
            }).spec_next(),
    {
        bus.dt.set(self.v[x]);
        Ok(ProgramCounter::Next)
    }

    /// Sets the sound timer to register `x`.
    fn op_set_st<S: Screen>(&mut self, bus: &mut Bus, screen: &mut S, x: usize) -> (r: Result<
        ProgramCounter,
        Error,
    >)
        requires
            x < REGISTERS,
        ensures
            Effect::spec_of(final(self), final(bus), final(screen), r)
                == (Machine {
                st: old(self)@.v[x as int],
                ..Machine::spec_of(old(self), old(bus), old(screen))
            }).spec_next(),
    {
        bus.st.set(self.v[x]);
        Ok(ProgramCounter::Next)
    }

    /// Adds register `x` to the index register.
    fn op_inc<S: Screen>(&mut self, bus: &mut Bus, screen: &mut S, x: usize) -> (r: Result<
        ProgramCounter,
        Error,
    >)
        requires
            x < REGISTERS,
        ensures
            Effect::spec_of(final(self), final(bus), final(screen), r)
                == Machine::spec_of(old(self), old(bus), old(screen)).spec_set_index(
                old(self)@.i.wrapping_add(old(self)@.v[x as int] as u16),
            ).spec_next(),
    {
        self.i = self.i.wrapping_add(self.v[x] as u16);
        Ok(ProgramCounter::Next)
    }

    /// Points the index register at the font sprite of the digit in register
    /// `x`.
    fn op_ldfont<S: Screen>(&mut self, bus: &mut Bus, screen: &mut S, x: usize) -> (r: Result<
        ProgramCounter,
        Error,
    >)
        requires
            x < REGISTERS,
        ensures
            Effect::spec_of(final(self), final(bus), final(screen), r)
                == Machine::spec_of(old(self), old(bus), old(screen)).spec_set_index(
                old(self)@.font.wrapping_add((old(self)@.v[x as int] * FONT_SIZE) as u16),
            ).spec_next(),
    {
        self.i = self.ft.wrapping_add((self.v[x] as u16) * FONT_SIZE);
        Ok(ProgramCounter::Next)
    }

    /// Stores the three decimal digits of register `x` at the index register.
    fn op_bcd<S: Screen>(&mut self, bus: &mut Bus, screen: &mut S, x: usize) -> (r: Result<
        ProgramCounter,
        Error,
    >)
        requires
            x < REGISTERS,
        ensures
            Effect::spec_of(final(self), final(bus), final(screen), r)
                == Machine::spec_of(old(self), old(bus), old(screen)).spec_store(
                spec_digits(old(self)@.v[x as int]),
            ),
    {
        let digits: [u8; 3] = [(self.v[x] / 100) % 10, (self.v[x] / 10) % 10, self.v[x] % 10];
        match bus.ram.store(self.i, &digits) {
            Ok(()) => Ok(ProgramCounter::Next),
            Err(error) => Err(error),
        }
    }

    /// Stores registers 0 to `x` at the index register.
    fn op_pusha<S: Screen>(&mut self, bus: &mut Bus, screen: &mut S, x: usize) -> (r: Result<
        ProgramCounter,
        Error,
    >)
        requires
            x < REGISTERS,
        ensures
            Effect::spec_of(final(self), final(bus), final(screen), r)
                == Machine::spec_of(old(self), old(bus), old(screen)).spec_store(
                old(self)@.v.take(x + 1),
            ),
    {
        let registers = slice_subrange(self.v.as_slice(), 0, x + 1);
        match bus.ram.store(self.i, registers) {
            Ok(()) => Ok(ProgramCounter::Next),
            Err(error) => Err(error),
        }
    }

    /// Loads registers 0 to `x` from the index register.
    fn op_popa<S: Screen>(&mut self, bus: &mut Bus, screen: &mut S, x: usize) -> (r: Result<
        ProgramCounter,
        Error,
    >)
        requires
            x < REGISTERS,
        ensures
            Effect::spec_of(final(self), final(bus), final(screen), r)
                == Machine::spec_of(old(self), old(bus), old(screen)).spec_load(x as int),
    {
        proof {
            bus.ram.lemma_len();
        }
        let mut k: usize = 0;
        while k <= x
            invariant
                k <= x + 1,
                x < REGISTERS,
                k == Ram::spec_reach(self.i, k as nat),
                *bus == *old(bus),
                bus.ram@.len() == crate::bus::ram::MEMORY_SIZE,
                self.i == old(self).i,
                self.pc == old(self).pc,
                self.stack == old(self).stack,
                self.ft == old(self).ft,
                forall|j: int|
                    0 <= j < REGISTERS ==> self.v@[j] == (if j < k {
                        bus.ram@[self.i + j]
                    } else {
                        old(self).v@[j]
                    }),
            decreases x + 1 - k,
        {
            match bus.ram.read(self.i.wrapping_add(k as u16)) {
                Ok(byte) => {
                    self.v[k] = byte;
                },
                Err(error) => {
                    return Err(error);
                },
            }
            k += 1;
        }
        Ok(ProgramCounter::Next)
    }

    /// One cycle: fetches the instruction at the program counter, executes it
    /// and moves the program counter as the instruction says. A cycle that
    /// fails leaves the program counter where it was, and of the rest what the
    /// instruction had done before it failed.
    ///
    /// The keys and the buzzer flag stay as they are, and `io` lends the same
    /// display and the same flag after the cycle as before it.
    pub fn cycle<S: Screen>(&mut self, bus: &mut Bus, io: &mut IO<S>) -> (r: Result<(), Error>)
        requires
            spec_fits(old(io).screen.pixels(), old(io).screen.width(), old(io).screen.height()),
            old(io).pad@.len() == KEYS,
        ensures
            Step::spec_of(final(self), final(bus), &*final(io).screen, r) == Machine::spec_of(
                old(self),
                old(bus),
                &*old(io).screen,
            ).spec_cycle(old(io).pad@),
            final(io).pad@ == old(io).pad@,
            *final(io).audio == *old(io).audio,
            *final(final(io).screen) == *final(old(io).screen),
            *final(final(io).audio) == *final(old(io).audio),
            final(io).screen.width() == old(io).screen.width(),
            final(io).screen.height() == old(io).screen.height(),
            final(io).screen.pixels().len() == old(io).screen.pixels().len(),
    {
        proof {
            bus.ram.lemma_len();
            reveal(Machine::spec_execute);
        }
        // Fetch
        let hi: u8 = match bus.ram.read(self.pc) {
            Ok(byte) => byte,
            Err(error) => {
                return Err(error);
            },
        };
        let lo: u8 = match bus.ram.read(self.pc.wrapping_add(1)) {
            Ok(byte) => byte,
            Err(error) => {
                return Err(error);
            },
        };
        let opcode: (u8, u8, u8, u8) = (hi / 0x10, hi % 0x10, lo / 0x10, lo % 0x10);
        let x: usize = opcode.1 as usize;
        let y: usize = opcode.2 as usize;
        let n: u8 = opcode.3;
        let kk: u8 = lo;
        let nnn: u16 = (opcode.1 as u16) * 0x100 + (lo as u16);

        // Decode and execute
        let executed = match opcode {
            (0x0, 0x0, 0x0, 0x0) => self.op_nop(bus, io.screen),
            (0x0, 0x0, 0xe, 0x0) => self.op_cls(bus, io.screen),
            (0x0, 0x0, 0xe, 0xe) => self.op_ret(bus, io.screen),
            (0x1, _, _, _) => self.op_jmp(bus, io.screen, nnn),
            (0x2, _, _, _) => self.op_call(bus, io.screen, nnn),
            (0x3, _, _, _) => self.op_sei(bus, io.screen, x, kk),
            (0x4, _, _, _) => self.op_snei(bus, io.screen, x, kk),
            (0x5, _, _, 0x0) => self.op_se(bus, io.screen, x, y),
            (0x6, _, _, _) => self.op_movi(bus, io.screen, x, kk),
            (0x7, _, _, _) => self.op_addi(bus, io.screen, x, kk),
            (0x8, _, _, 0x0) => self.op_mov(bus, io.screen, x, y),
            (0x8, _, _, 0x1) => self.op_or(bus, io.screen, x, y),
            (0x8, _, _, 0x2) => self.op_and(bus, io.screen, x, y),
            (0x8, _, _, 0x3) => self.op_xor(bus, io.screen, x, y),
            (0x8, _, _, 0x4) => self.op_add(bus, io.screen, x, y),
            (0x8, _, _, 0x5) => self.op_sub(bus, io.screen, x, y),
            (0x8, _, _, 0x6) => self.op_shr(bus, io.screen, x, y),
            (0x8, _, _, 0x7) => self.op_subn(bus, io.screen, x, y),
            (0x8, _, _, 0xe) => self.op_shl(bus, io.screen, x, y),
            (0x9, _, _, 0x0) => self.op_sne(bus, io.screen, x, y),
            (0xa, _, _, _) => self.op_lea(bus, io.screen, nnn),
            (0xb, _, _, _) => self.op_jmpshort(bus, io.screen, nnn),
            (0xc, _, _, _) => self.op_rnd(bus, io.screen, x, kk),
            (0xd, _, _, _) => self.op_drw(bus, io.screen, x, y, n),
            (0xe, _, 0x9, 0xe) => self.op_skp(bus, io.screen, io.pad, x),
            (0xe, _, 0xa, 0x1) => self.op_sknp(bus, io.screen, io.pad, x),
            (0xf, _, 0x0, 0x7) => self.op_get_dt(bus, io.screen, x),
            (0xf, _, 0x0, 0xa) => self.op_wait(bus, io.screen, io.pad, x),
            (0xf, _, 0x1, 0x5) => self.op_set_dt(bus, io.screen, x),
            (0xf, _, 0x1, 0x8) => self.op_set_st(bus, io.screen, x),
            (0xf, _, 0x1, 0xe) => self.op_inc(bus, io.screen, x),
            (0xf, _, 0x2, 0x9) => self.op_ldfont(bus, io.screen, x),
            (0xf, _, 0x3, 0x3) => self.op_bcd(bus, io.screen, x),
            (0xf, _, 0x5, 0x5) => self.op_pusha(bus, io.screen, x),
            (0xf, _, 0x6, 0x5) => self.op_popa(bus, io.screen, x),
            _ => Err(Error::UnknownOpcode(opcode.0, opcode.1, opcode.2, opcode.3)),
        };
        let pc = match executed {
            Ok(pc) => pc,
            Err(error) => {
                return Err(error);
            },
        };
        self.pc = match pc {
            ProgramCounter::Wait => self.pc,
            ProgramCounter::Next => self.pc.wrapping_add(OPCODE_SIZE),
            ProgramCounter::Skip => self.pc.wrapping_add(2 * OPCODE_SIZE),
            ProgramCounter::Jump(addr) => addr,
        };
        Ok(())
    }
}

impl Default for Cpu {
    /// A processor with every register, the stack and the program counter at
    /// zero.
    fn default() -> (cpu: Cpu)
        ensures
            cpu@ == Cpu::spec_reset(),
    {
        Cpu::new()
    }
}

} // verus!
