//! The pseudo-random generator.

use crate::error::Error;
use vstd::prelude::*;

verus! {

/// Number of steps a freshly seeded generator takes before its first output,
/// so that the first bits it gives are not the seed's own.
pub const WARM_UP: u8 = 16;

/// A 16-bit linear-feedback shift register with the feedback polynomial
/// `x^16 + x^15 + x^13 + x^4 + 1`.
///
/// Its view is its 16-bit state. The state zero is a fixed point of the
/// register, so a generator is never seeded with it.
#[derive(Debug)]
pub struct Rng {
    state: u16,
}

impl View for Rng {
    type V = u16;

    closed spec fn view(&self) -> u16 {
        self.state
    }
}

impl Rng {
    /// The bit that a step from `state` computes: the exclusive or of the taps
    /// 0, 1, 3 and 12. It is the bit that the step gives out, and the bit that
    /// enters the register.
    pub open spec fn spec_bit(state: u16) -> u16 {
        (state ^ (state >> 1) ^ (state >> 3) ^ (state >> 12)) & 0x1
    }

    /// The state that follows `state`: the register shifts right by one bit and
    /// the bit that the step computes enters at the top.
    pub open spec fn spec_next(state: u16) -> u16 {
        (state >> 1) | (Rng::spec_bit(state) << 15)
    }

    /// The state reached from `state` in `steps` steps.
    pub open spec fn spec_advance(state: u16, steps: nat) -> u16
        decreases steps,
    {
        if steps == 0 {
            state
        } else {
            Rng::spec_next(Rng::spec_advance(state, (steps - 1) as nat))
        }
    }

    /// The first `count` bits that a generator in `state` gives out, the first
    /// of them in the highest place. Each step gives out the bit it computes.
    pub open spec fn spec_bits(state: u16, count: nat) -> u8
        decreases count,
    {
        if count == 0 {
            0
        } else {
            (Rng::spec_bits(state, (count - 1) as nat) << 1) | (Rng::spec_bit(
                Rng::spec_advance(state, (count - 1) as nat),
            ) as u8)
        }
    }

    /// The byte that a generator in `state` gives out next.
    pub open spec fn spec_byte(state: u16) -> u8 {
        Rng::spec_bits(state, 8)
    }

    /// The state in which `seed` leaves a generator.
    pub open spec fn spec_seeded(seed: u16) -> u16 {
        Rng::spec_advance(seed, WARM_UP as nat)
    }

    /// The first `count` bytes that a generator in `state` gives out.
    pub open spec fn spec_stream(state: u16, count: nat) -> Seq<u8>
        decreases count,
    {
        if count == 0 {
            Seq::empty()
        } else {
            Rng::spec_stream(state, (count - 1) as nat).push(
                Rng::spec_byte(Rng::spec_advance(state, 8 * (count - 1) as nat)),
            )
        }
    }

    /// A generator that has not been seeded: its state is zero.
    pub fn new() -> (rng: Rng)
        ensures
            rng@ == 0,
    {
        Rng { state: 0 }
    }

    /// Seeds the generator and lets it run [`WARM_UP`] steps. The seed zero is
    /// refused with `ZeroSeed` and leaves the generator as it was.
    pub fn seed(&mut self, seed: u16) -> (r: Result<(), Error>)
        ensures
            r == (if seed == 0 {
                Err::<(), Error>(Error::ZeroSeed)
            } else {
                Ok(())
            }),
            final(self)@ == (if seed == 0 {
                old(self)@
            } else {
                Rng::spec_seeded(seed)
            }),
    {
        if seed == 0x0000 {
            return Err(Error::ZeroSeed);
        }
        self.state = seed;
        let mut i: u8 = 0;
        while i < WARM_UP
            invariant
                i <= WARM_UP,
                self.state == Rng::spec_advance(seed, i as nat),
            decreases WARM_UP - i,
        {
            self.next();
            i += 1;
        }
        Ok(())
    }

    /// Takes eight steps and gives out the bits they compute as a byte, the
    /// first bit highest.
    pub fn get_byte(&mut self) -> (byte: u8)
        ensures
            byte == Rng::spec_byte(old(self)@),
            final(self)@ == Rng::spec_advance(old(self)@, 8),
    {
        let mut acc: u8 = 0x00;
        let mut i: u8 = 0;
        while i < 8
            invariant
                i <= 8,
                self.state == Rng::spec_advance(old(self).state, i as nat),
                acc == Rng::spec_bits(old(self).state, i as nat),
            decreases 8 - i,
        {
            let bit: u8 = self.next_bit();
            acc = (acc << 1) | bit;
            i += 1;
        }
        acc
    }

    /// Moves the register one step.
    pub fn next(&mut self)
        ensures
            final(self)@ == Rng::spec_next(old(self)@),
    {
        self.next_bit();
    }

    /// Moves the register one step and gives out the bit that the step
    /// computes.
    pub fn next_bit(&mut self) -> (bit: u8)
        ensures
            bit == Rng::spec_bit(old(self)@),
            final(self)@ == Rng::spec_next(old(self)@),
    {
        let state: u16 = self.state;
        let bit: u16 = (state ^ (state >> 1) ^ (state >> 3) ^ (state >> 12)) & 0x1;
        assert(bit <= 1) by (bit_vector)
            requires
                bit == (state ^ (state >> 1) ^ (state >> 3) ^ (state >> 12)) & 0x1,
        ;
        self.state = (state >> 1) | (bit << 15);
        bit as u8
    }

    /// The byte that a generator gives out is the upper byte of the state it
    /// is left in, with the bits in reverse order: each of the eight steps
    /// gives out the bit that it puts in at the top of the register.
    pub proof fn lemma_byte_is_high_byte_reversed(state: u16)
        ensures
            ({
                let after = Rng::spec_advance(state, 8);
                Rng::spec_byte(state) == (((after & 0x0100) >> 1) | ((after & 0x0200) >> 3) | ((
                after & 0x0400) >> 5) | ((after & 0x0800) >> 7) | ((after & 0x1000) >> 9) | ((after
                    & 0x2000) >> 11) | ((after & 0x4000) >> 13) | ((after & 0x8000) >> 15)) as u8
            }),
    {
        let s0 = state;
        let s1 = Rng::spec_next(s0);
        let s2 = Rng::spec_next(s1);
        let s3 = Rng::spec_next(s2);
        let s4 = Rng::spec_next(s3);
        let s5 = Rng::spec_next(s4);
        let s6 = Rng::spec_next(s5);
        let s7 = Rng::spec_next(s6);
        let s8 = Rng::spec_next(s7);
        reveal_with_fuel(Rng::spec_advance, 9);
        reveal_with_fuel(Rng::spec_bits, 9);
        let b0 = Rng::spec_bit(s0) as u8;
        let b1 = Rng::spec_bit(s1) as u8;
        let b2 = Rng::spec_bit(s2) as u8;
        let b3 = Rng::spec_bit(s3) as u8;
        let b4 = Rng::spec_bit(s4) as u8;
        let b5 = Rng::spec_bit(s5) as u8;
        let b6 = Rng::spec_bit(s6) as u8;
        let b7 = Rng::spec_bit(s7) as u8;
        assert((((((((((0u8 << 1) | b0) << 1 | b1) << 1 | b2) << 1 | b3) << 1 | b4) << 1 | b5) << 1
            | b6) << 1 | b7) == (((s8 & 0x0100) >> 1) | ((s8 & 0x0200) >> 3) | ((s8 & 0x0400) >> 5)
            | ((s8 & 0x0800) >> 7) | ((s8 & 0x1000) >> 9) | ((s8 & 0x2000) >> 11) | ((s8 & 0x4000)
            >> 13) | ((s8 & 0x8000) >> 15)) as u8) by (bit_vector)
            requires
                s1 == Rng::spec_next(s0),
                s2 == Rng::spec_next(s1),
                s3 == Rng::spec_next(s2),
                s4 == Rng::spec_next(s3),
                s5 == Rng::spec_next(s4),
                s6 == Rng::spec_next(s5),
                s7 == Rng::spec_next(s6),
                s8 == Rng::spec_next(s7),
                b0 == Rng::spec_bit(s0) as u8,
                b1 == Rng::spec_bit(s1) as u8,
                b2 == Rng::spec_bit(s2) as u8,
                b3 == Rng::spec_bit(s3) as u8,
                b4 == Rng::spec_bit(s4) as u8,
                b5 == Rng::spec_bit(s5) as u8,
                b6 == Rng::spec_bit(s6) as u8,
                b7 == Rng::spec_bit(s7) as u8,
        ;
    }

    /// Zero is a fixed point of the register, and the only state that leads to
    /// zero.
    pub proof fn lemma_zero_is_fixed(state: u16)
        ensures
            Rng::spec_next(state) == 0 <==> state == 0,
    {
        assert(Rng::spec_next(state) == 0 <==> state == 0) by (bit_vector);
    }

    /// A generator that does not start from zero never reaches zero.
    pub proof fn lemma_never_zero(state: u16, steps: nat)
        requires
            state != 0,
        ensures
            Rng::spec_advance(state, steps) != 0,
        decreases steps,
    {
        if steps > 0 {
            Rng::lemma_never_zero(state, (steps - 1) as nat);
            Rng::lemma_zero_is_fixed(Rng::spec_advance(state, (steps - 1) as nat));
        }
    }

    /// Steps add up: `m` steps followed by `n` steps are `m + n` steps.
    pub proof fn lemma_advance_add(state: u16, m: nat, n: nat)
        ensures
            Rng::spec_advance(Rng::spec_advance(state, m), n) == Rng::spec_advance(state, m + n),
        decreases n,
    {
        if n > 0 {
            Rng::lemma_advance_add(state, m, (n - 1) as nat);
        }
    }

    /// A stream of `count + 1` bytes is its first byte followed by the stream
    /// of `count` bytes of the generator eight steps on: what `get_byte` gives
    /// when called over and over is the stream.
    pub proof fn lemma_stream_unfold(state: u16, count: nat)
        ensures
            Rng::spec_stream(state, count + 1) == seq![Rng::spec_byte(state)] + Rng::spec_stream(
                Rng::spec_advance(state, 8),
                count,
            ),
        decreases count,
    {
        if count == 0 {
            assert(Rng::spec_stream(state, 0) == Seq::<u8>::empty());
        } else {
            Rng::lemma_stream_unfold(state, (count - 1) as nat);
            Rng::lemma_advance_add(state, 8, (8 * (count - 1)) as nat);
        }
    }

    /// Two generators seeded with the same value give out the same bytes, and
    /// are in the same state after them.
    pub proof fn lemma_same_seed_same_stream(a: Rng, b: Rng, seed: u16, count: nat)
        requires
            a@ == Rng::spec_seeded(seed),
            b@ == Rng::spec_seeded(seed),
        ensures
            Rng::spec_stream(a@, count) == Rng::spec_stream(b@, count),
            Rng::spec_advance(a@, 8 * count) == Rng::spec_advance(b@, 8 * count),
    {
    }

    /// A seeded generator is never in the state zero, however long it runs.
    pub proof fn lemma_seeded_never_zero(seed: u16, steps: nat)
        requires
            seed != 0,
        ensures
            Rng::spec_advance(Rng::spec_seeded(seed), steps) != 0,
    {
        Rng::lemma_never_zero(seed, WARM_UP as nat);
        Rng::lemma_never_zero(Rng::spec_seeded(seed), steps);
    }
}

impl Default for Rng {
    /// A generator that has not been seeded.
    fn default() -> (rng: Rng)
        ensures
            rng@ == 0,
    {
        Rng::new()
    }
}

} // verus!
