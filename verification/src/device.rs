//! The byte bus: every memory-mapped component answers single-byte reads and
//! writes over a 16-bit address space.

use vstd::prelude::*;

verus! {

/// A memory-mapped device. Each implementor claims a set of addresses
/// (`addr_ok`), models what a read returns (`byte_at`) and which writes it
/// accepts (`write_ok`); an address outside the claimed set is a bus-routing
/// error of the caller, not a state the device can recover from.
pub trait Device: Sized {
    /// Addresses this device answers.
    spec fn addr_ok(&self, addr: u16) -> bool;

    /// The byte a read at `addr` returns.
    spec fn byte_at(&self, addr: u16) -> u8;

    /// Writes the device accepts; for most devices every in-range write.
    spec fn write_ok(&self, addr: u16, data: u8) -> bool;

    /// Addresses with plain byte-store semantics: a write there stores the
    /// byte exactly and disturbs no other plain-store address. Control
    /// registers with masking or side effects are not plain stores.
    spec fn plain_store(&self, addr: u16) -> bool;

    /// Read a single byte from memory.
    fn read(&self, addr: u16) -> (r: u8)
        requires
            self.addr_ok(addr),
        ensures
            r == self.byte_at(addr),
    ;

    /// Write a single byte to memory. A write never shrinks the claimed
    /// address set, so back-to-back writes stay in range; at a plain-store
    /// address it stores the byte exactly and leaves every other
    /// plain-store byte alone.
    fn write(&mut self, addr: u16, data: u8)
        requires
            old(self).addr_ok(addr),
            old(self).write_ok(addr, data),
        ensures
            forall|a: u16| old(self).addr_ok(a) ==> #[trigger] final(self).addr_ok(a),
            forall|a: u16, d: u8|
                old(self).write_ok(a, d) ==> #[trigger] final(self).write_ok(a, d),
            old(self).plain_store(addr) ==> forall|a: u16|
                old(self).plain_store(a) ==> #[trigger] final(self).plain_store(a),
            old(self).plain_store(addr) ==> final(self).byte_at(addr) == data,
            old(self).plain_store(addr) ==> forall|a: u16|
                a != addr && old(self).plain_store(a) ==> #[trigger] final(self).byte_at(a) == old(
                    self,
                ).byte_at(a),
    ;

    /// Read a signed byte from memory.
    fn read_signed(&self, addr: u16) -> (r: i8)
        requires
            self.addr_ok(addr),
        ensures
            r as int == if self.byte_at(addr) < 128 {
                self.byte_at(addr) as int
            } else {
                self.byte_at(addr) - 256
            },
    {
        let b = self.read(addr);
        if b < 128 {
            b as i8
        } else {
            ((b as i16) - 256) as i8
        }
    }

    /// Read a 2 byte word from memory, low byte first.
    fn read_word(&self, addr: u16) -> (r: u16)
        requires
            addr < 0xffff,
            self.addr_ok(addr),
            self.addr_ok((addr + 1) as u16),
        ensures
            r == self.byte_at(addr) + 256 * self.byte_at((addr + 1) as u16),
    {
        let lo = self.read(addr);
        let hi = self.read(addr + 1);
        proof {
            crate::bits::lemma_word_combine(hi, lo);
        }
        ((hi as u16) << 8) | (lo as u16)
    }

    /// Write a 2 byte word to memory, low byte first. Over plain-store
    /// addresses the word reads back exactly.
    fn write_word(&mut self, addr: u16, data: u16)
        requires
            addr < 0xffff,
            old(self).addr_ok(addr),
            old(self).addr_ok((addr + 1) as u16),
            old(self).write_ok(addr, (data & 0xff) as u8),
            old(self).write_ok((addr + 1) as u16, (data >> 8) as u8),
        ensures
            forall|a: u16| old(self).addr_ok(a) ==> #[trigger] final(self).addr_ok(a),
            forall|a: u16, d: u8|
                old(self).write_ok(a, d) ==> #[trigger] final(self).write_ok(a, d),
            old(self).plain_store(addr) && old(self).plain_store((addr + 1) as u16)
                ==> forall|a: u16|
                old(self).plain_store(a) ==> #[trigger] final(self).plain_store(a),
            old(self).plain_store(addr) && old(self).plain_store((addr + 1) as u16)
                ==> forall|a: u16|
                a != addr && a != (addr + 1) as u16 && old(self).plain_store(a)
                    ==> #[trigger] final(self).byte_at(a) == old(self).byte_at(a),
            old(self).plain_store(addr) && old(self).plain_store((addr + 1) as u16) ==> {
                &&& final(self).byte_at(addr) == (data & 0xff) as u8
                &&& final(self).byte_at((addr + 1) as u16) == (data >> 8) as u8
                &&& final(self).byte_at(addr) + 256 * final(self).byte_at((addr + 1) as u16)
                    == data
            },
    {
        let lo = data & 0xff;
        let hi = data >> 8;
        self.write(addr, lo as u8);
        proof {
            if old(self).plain_store(addr) && old(self).plain_store((addr + 1) as u16) {
                assert(self.plain_store(addr));
                assert(self.plain_store((addr + 1) as u16));
                assert(self.byte_at(addr) == (data & 0xff) as u8);
            }
        }
        self.write(addr + 1, hi as u8);
        proof {
            crate::bits::lemma_word_split(data);
        }
    }
}

/// The absence of a device: reads as open bus (`0xff`), ignores writes.
impl Device for () {
    open spec fn addr_ok(&self, addr: u16) -> bool {
        true
    }

    open spec fn byte_at(&self, addr: u16) -> u8 {
        0xff
    }

    open spec fn write_ok(&self, addr: u16, data: u8) -> bool {
        true
    }

    open spec fn plain_store(&self, addr: u16) -> bool {
        false
    }

    fn read(&self, _addr: u16) -> u8 {
        0xff
    }

    fn write(&mut self, _addr: u16, _data: u8) {
    }
}

} // verus!
