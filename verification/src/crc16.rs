//! The checksum from which a program's seed is derived.

use vstd::prelude::*;

verus! {

/// The generator polynomial `x^16 + x^12 + x^5 + 1`, without its highest term.
pub const POLYNOMIAL: u16 = 0x1021;

/// The value a checksum starts from.
pub const INITIAL: u16 = 0xffff;

/// A 16-bit cyclic redundancy check in the variant known as CRC-16/CCITT-FALSE:
/// polynomial `0x1021`, initial value `0xffff`, bits taken highest first,
/// nothing reflected and nothing exclusive-ored at the end.
///
/// Its view is the checksum of the bytes taken in so far.
#[derive(Debug)]
pub struct Crc16 {
    crc: u16,
}

impl View for Crc16 {
    type V = u16;

    closed spec fn view(&self) -> u16 {
        self.crc
    }
}

/// One step of the division: the register moves left by one bit, and the
/// polynomial is taken off where a set bit falls out.
pub open spec fn spec_shift(crc: u16) -> u16 {
    if crc & 0x8000 != 0 {
        (crc << 1) ^ POLYNOMIAL
    } else {
        crc << 1
    }
}

/// `steps` steps of the division.
pub open spec fn spec_shifts(crc: u16, steps: nat) -> u16
    decreases steps,
{
    if steps == 0 {
        crc
    } else {
        spec_shift(spec_shifts(crc, (steps - 1) as nat))
    }
}

/// The checksum `crc` after one more byte: the byte enters at the top of the
/// register, and the register goes through eight steps.
pub open spec fn spec_update(crc: u16, byte: u8) -> u16 {
    spec_shifts(crc ^ ((byte as u16) << 8), 8)
}

/// The checksum of `bytes`.
pub open spec fn spec_crc16(bytes: Seq<u8>) -> u16
    decreases bytes.len(),
{
    if bytes.len() == 0 {
        INITIAL
    } else {
        spec_update(spec_crc16(bytes.drop_last()), bytes.last())
    }
}

impl Crc16 {
    /// A checksum of no bytes yet.
    pub fn start() -> (crc: Crc16)
        ensures
            crc@ == spec_crc16(Seq::empty()),
    {
        Crc16 { crc: INITIAL }
    }

    /// Takes one more byte in.
    pub fn update(&mut self, byte: u8)
        ensures
            final(self)@ == spec_update(old(self)@, byte),
    {
        let mut crc: u16 = self.crc ^ ((byte as u16) << 8);
        let mut i: u8 = 0;
        while i < 8
            invariant
                i <= 8,
                crc == spec_shifts(old(self).crc ^ ((byte as u16) << 8), i as nat),
            decreases 8 - i,
        {
            crc = if crc & 0x8000 != 0 {
                (crc << 1) ^ POLYNOMIAL
            } else {
                crc << 1
            };
            i += 1;
        }
        self.crc = crc;
    }

    /// The checksum of the bytes taken in.
    pub fn finish(&self) -> (crc: u16)
        ensures
            crc == self@,
    {
        self.crc
    }

    /// The checksum of `bytes`.
    pub fn at_once(bytes: &[u8]) -> (crc: u16)
        ensures
            crc == spec_crc16(bytes@),
    {
        let mut sum = Crc16::start();
        let mut i: usize = 0;
        while i < bytes.len()
            invariant
                i <= bytes@.len(),
                sum@ == spec_crc16(bytes@.take(i as int)),
            decreases bytes@.len() - i,
        {
            sum.update(bytes[i]);
            assert(bytes@.take(i + 1).drop_last() =~= bytes@.take(i as int));
            i += 1;
        }
        assert(bytes@.take(i as int) =~= bytes@);
        sum.finish()
    }
}

} // verus!
