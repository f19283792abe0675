//! The errors of the machine.

use vstd::prelude::*;

verus! {

/// Everything that can stop the machine.
///
/// Each variant carries the value that caused it.
#[derive(Debug, Clone, Copy, PartialEq, Eq)]
pub enum Error {
    /// The key-state vector has the first length; only the second is supported.
    InvalidKeyVectorLength(usize, usize),
    /// The display has the first dimensions; only the second are supported.
    InvalidDisplayDimensions((usize, usize), (usize, usize)),
    /// A register used as a key index holds a value that names no key.
    KeyIndexOutOfRange(u8),
    /// A memory access reached an address beyond the end of memory.
    AddressOutOfRange(u16),
    /// A call was made with the call stack full.
    StackOverflow,
    /// A return was made with the call stack empty.
    StackUnderflow,
    /// The four nibbles fetched at the program counter name no instruction.
    UnknownOpcode(u8, u8, u8, u8),
    /// The pseudo-random generator was given the seed zero.
    ZeroSeed,
}

} // verus!
