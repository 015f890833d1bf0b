//! The boot code image: a small program mapped over the low cartridge
//! addresses at reset, until the first fetch past its range disables it.

use vstd::prelude::*;

verus! {

pub struct BIOS {
    /// The boot code bytes.
    pub bios: Vec<u8>,
    /// Still booting: while set, the bus routes low reads to the boot code.
    pub is_boot: bool,
}

impl BIOS {
    /// Wraps a boot code image; the boot latch starts set.
    pub fn new(data: Vec<u8>) -> (b: BIOS)
        ensures
            b.bios == data,
            b.is_boot,
    {
        BIOS { bios: data, is_boot: true }
    }

    /// The boot region is read-only: every write is dropped.
    pub fn write(&mut self, addr: u16, val: u8)
        ensures
            (*final(self)) == (*old(self)),
    {
    }

    /// A read of the boot code at `addr`; an address past the image reads as
    /// 0xFF (lenient bus policy).
    pub fn read(&self, addr: u16) -> (r: u8)
        ensures
            r == self.read_spec(addr),
    {
        if (addr as usize) < self.bios.len() {
            self.bios[addr as usize]
        } else {
            0xFF
        }
    }

    /// What a read returns, as a function of the image.
    pub open spec fn read_spec(self, addr: u16) -> u8 {
        if addr < self.bios@.len() {
            self.bios@[addr as int]
        } else {
            0xFF
        }
    }

    /// The boot region is not clocked: advancing it changes nothing.
    pub fn update(&mut self, tick: u8)
        ensures
            (*final(self)) == (*old(self)),
    {
    }
}

} // verus!
