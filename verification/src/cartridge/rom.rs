//! A cartridge with no bank controller: the ROM image alone.

use vstd::prelude::*;
use crate::device::Device;

verus! {

/// ROM-only cartridge.
pub struct Rom {
    pub rom: Vec<u8>,
}

impl Rom {
    pub fn new(rom: Vec<u8>) -> (c: Rom)
        ensures
            c.rom == rom,
    {
        Rom { rom }
    }
}

impl Device for Rom {
    open spec fn addr_ok(&self, addr: u16) -> bool {
        addr <= 0x7fff || 0xa000 <= addr <= 0xbfff
    }

    open spec fn byte_at(&self, addr: u16) -> u8 {
        if addr <= 0x7fff && addr < self.rom@.len() {
            self.rom@[addr as int]
        } else {
            0xff
        }
    }

    open spec fn write_ok(&self, addr: u16, data: u8) -> bool {
        true
    }

    /// A plain ROM stores nothing.
    open spec fn plain_store(&self, addr: u16) -> bool {
        false
    }

    fn read(&self, addr: u16) -> (r: u8)
        ensures
            r == self.byte_at(addr),
    {
        if addr <= 0x7fff && (addr as usize) < self.rom.len() {
            self.rom[addr as usize]
        } else {
            0xff
        }
    }

    /// A plain ROM ignores writes.
    fn write(&mut self, addr: u16, data: u8)
        ensures
            *final(self) == *old(self),
    {
    }
}

} // verus!
