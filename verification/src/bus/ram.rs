//! Memory.

use crate::error::Error;
use vstd::prelude::*;

verus! {

/// Number of bytes of memory.
pub const MEMORY_SIZE: usize = 0x1000;

/// Flat byte-addressable memory of [`MEMORY_SIZE`] bytes.
///
/// Its view is the sequence of its bytes.
#[derive(Debug)]
pub struct Ram {
    memory: [u8; 0x1000],
}

impl View for Ram {
    type V = Seq<u8>;

    closed spec fn view(&self) -> Seq<u8> {
        self.memory@
    }
}

impl Ram {
    /// The contents of fresh memory: every byte zero.
    pub open spec fn spec_zeroed() -> Seq<u8> {
        Seq::new(MEMORY_SIZE as nat, |a: int| 0u8)
    }

    /// What reading the byte at `addr` gives.
    pub open spec fn spec_read(mem: Seq<u8>, addr: u16) -> Result<u8, Error> {
        if addr < MEMORY_SIZE {
            Ok(mem[addr as int])
        } else {
            Err(Error::AddressOutOfRange(addr))
        }
    }

    /// What storing `byte` at `addr` gives.
    pub open spec fn spec_write(mem: Seq<u8>, addr: u16, byte: u8) -> Result<(), Error> {
        if addr < MEMORY_SIZE {
            Ok(())
        } else {
            Err(Error::AddressOutOfRange(addr))
        }
    }

    /// Memory after `byte` was stored at `addr`: beyond the end of memory
    /// nothing is stored.
    pub open spec fn spec_written(mem: Seq<u8>, addr: u16, byte: u8) -> Seq<u8> {
        if addr < MEMORY_SIZE {
            mem.update(addr as int, byte)
        } else {
            mem
        }
    }

    /// `bytes` laid over `mem` from address `base` on, as far as memory reaches.
    pub open spec fn spec_stored(mem: Seq<u8>, base: u16, bytes: Seq<u8>) -> Seq<u8> {
        Seq::new(
            mem.len(),
            |a: int|
                if base <= a < base + bytes.len() {
                    bytes[a - base]
                } else {
                    mem[a]
                },
        )
    }

    /// How many of the `len` addresses from `base` on lie in memory before the
    /// first that does not.
    pub open spec fn spec_reach(base: u16, len: nat) -> nat {
        if base >= MEMORY_SIZE {
            0
        } else if base + len > MEMORY_SIZE {
            (MEMORY_SIZE - base) as nat
        } else {
            len
        }
    }

    /// The first of the `len` addresses from `base` on that lies beyond memory,
    /// if there is one.
    pub open spec fn spec_overrun(base: u16, len: nat) -> Option<u16> {
        if Ram::spec_reach(base, len) < len {
            Some((base + Ram::spec_reach(base, len)) as u16)
        } else {
            None
        }
    }

    /// Memory always holds exactly [`MEMORY_SIZE`] bytes.
    pub proof fn lemma_len(&self)
        ensures
            self@.len() == MEMORY_SIZE,
    {
    }

    /// A byte stored within memory is the byte read back from there, and no
    /// other byte changes; beyond the end of memory storing and reading both
    /// fail with `AddressOutOfRange`, and nothing changes.
    pub proof fn lemma_write_then_read(mem: Seq<u8>, addr: u16, byte: u8)
        requires
            mem.len() == MEMORY_SIZE,
        ensures
            addr < MEMORY_SIZE ==> Ram::spec_write(mem, addr, byte) == Ok::<(), Error>(())
                && Ram::spec_read(Ram::spec_written(mem, addr, byte), addr) == Ok::<u8, Error>(
                byte,
            ),
            addr >= MEMORY_SIZE ==> Ram::spec_write(mem, addr, byte) == Err::<(), Error>(
                Error::AddressOutOfRange(addr),
            ) && Ram::spec_read(mem, addr) == Err::<u8, Error>(Error::AddressOutOfRange(addr))
                && Ram::spec_written(mem, addr, byte) == mem,
            forall|other: u16|
                other != addr ==> Ram::spec_read(Ram::spec_written(mem, addr, byte), other)
                    == Ram::spec_read(mem, other),
    {
    }

    /// Of the bytes stored from `base` on, those that memory has room for are
    /// read back from where they were stored, and no byte outside them changes.
    pub proof fn lemma_store_then_read(mem: Seq<u8>, base: u16, bytes: Seq<u8>, addr: u16)
        requires
            mem.len() == MEMORY_SIZE,
        ensures
            ({
                let reach = Ram::spec_reach(base, bytes.len());
                let stored = Ram::spec_stored(mem, base, bytes.take(reach as int));
                &&& stored.len() == MEMORY_SIZE
                &&& base <= addr < base + reach ==> Ram::spec_read(stored, addr) == Ok::<u8, Error>(
                    bytes[addr - base],
                )
                &&& !(base <= addr < base + reach) ==> Ram::spec_read(stored, addr)
                    == Ram::spec_read(mem, addr)
            }),
    {
    }

    /// Fresh memory, every byte zero.
    pub fn new() -> (ram: Ram)
        ensures
            ram@ == Ram::spec_zeroed(),
    {
        Ram { memory: [0u8; 0x1000] }
    }

    /// The byte at `addr`, or `AddressOutOfRange(addr)` beyond the end of memory.
    pub fn read(&self, addr: u16) -> (r: Result<u8, Error>)
        ensures
            r == Ram::spec_read(self@, addr),
    {
        if (addr as usize) < self.memory.len() {
            Ok(self.memory[addr as usize])
        } else {
            Err(Error::AddressOutOfRange(addr))
        }
    }

    /// Stores `byte` at `addr`, or fails with `AddressOutOfRange(addr)` and
    /// changes nothing beyond the end of memory.
    pub fn write(&mut self, addr: u16, byte: u8) -> (r: Result<(), Error>)
        ensures
            r == Ram::spec_write(old(self)@, addr, byte),
            final(self)@ == Ram::spec_written(old(self)@, addr, byte),
    {
        if (addr as usize) < self.memory.len() {
            self.memory[addr as usize] = byte;
            Ok(())
        } else {
            Err(Error::AddressOutOfRange(addr))
        }
    }

    /// Stores `bytes` at `base` and the addresses after it, one by one, and
    /// stops at the first address beyond memory with `AddressOutOfRange`; what
    /// was stored by then stays stored.
    pub fn store(&mut self, base: u16, bytes: &[u8]) -> (r: Result<(), Error>)
        ensures
            final(self)@ == Ram::spec_stored(
                old(self)@,
                base,
                bytes@.take(Ram::spec_reach(base, bytes@.len()) as int),
            ),
            r == (match Ram::spec_overrun(base, bytes@.len()) {
                Some(addr) => Err::<(), Error>(Error::AddressOutOfRange(addr)),
                None => Ok(()),
            }),
    {
        let mut addr: u16 = base;
        let mut i: usize = 0;
        while i < bytes.len()
            invariant
                i <= bytes@.len(),
                i == Ram::spec_reach(base, i as nat),
                i > 0 ==> addr == base + i,
                i == 0 ==> addr == base,
                self@ == Ram::spec_stored(old(self)@, base, bytes@.take(i as int)),
            decreases bytes@.len() - i,
        {
            match self.write(addr, bytes[i]) {
                Ok(()) => {},
                Err(e) => {
                    return Err(e);
                },
            }
            addr = addr.wrapping_add(1);
            i += 1;
        }
        Ok(())
    }
}

impl Default for Ram {
    /// Fresh memory, every byte zero.
    fn default() -> (ram: Ram)
        ensures
            ram@ == Ram::spec_zeroed(),
    {
        Ram::new()
    }
}

} // verus!
