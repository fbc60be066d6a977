//! Plain work RAM: a run of bytes at a base address, stored as written.

use vstd::prelude::*;
use crate::device::Device;

verus! {

/// A flat byte store answering `base .. base + len`.
pub struct Ram {
    pub base: u16,
    pub bytes: Vec<u8>,
}

impl Ram {
    pub open spec fn wf(&self) -> bool {
        self.base + self.bytes@.len() <= 0x10000
    }

    pub fn new(base: u16, size: u16) -> (r: Ram)
        requires
            base + size <= 0x10000,
        ensures
            r.wf(),
            r.base == base,
            r.bytes@.len() == size,
            forall|i: int| 0 <= i < size ==> r.bytes@[i] == 0,
    {
        let mut bytes: Vec<u8> = Vec::new();
        let mut i: usize = 0;
        while i < size as usize
            invariant
                i <= size,
                bytes@.len() == i,
                forall|j: int| 0 <= j < i ==> bytes@[j] == 0,
            decreases size - i,
        {
            bytes.push(0);
            i = i + 1;
        }
        Ram { base, bytes }
    }
}

impl Device for Ram {
    open spec fn addr_ok(&self, addr: u16) -> bool {
        &&& self.wf()
        &&& self.base <= addr < self.base + self.bytes@.len()
    }

    open spec fn byte_at(&self, addr: u16) -> u8 {
        self.bytes@[addr - self.base]
    }

    open spec fn write_ok(&self, addr: u16, data: u8) -> bool {
        true
    }

    open spec fn plain_store(&self, addr: u16) -> bool {
        self.addr_ok(addr)
    }

    fn read(&self, addr: u16) -> (r: u8)
        ensures
            r == self.byte_at(addr),
    {
        self.bytes[(addr - self.base) as usize]
    }

    fn write(&mut self, addr: u16, data: u8)
        ensures
            final(self).base == old(self).base,
            final(self).bytes@ == old(self).bytes@.update(addr - old(self).base, data),
    {
        let i = (addr - self.base) as usize;
        self.bytes[i] = data;
    }
}

} // verus!
