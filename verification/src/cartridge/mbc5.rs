//! Fifth-generation bank controller: 9-bit ROM bank select split over two
//! registers, 4-bit RAM bank select.

use vstd::prelude::*;
use crate::cartridge::{make_ram, ram_banks, ram_code_ok, spec_ram_banks};
use crate::device::Device;

verus! {

/// MBC5 controller.
pub struct Mbc5 {
    pub rom: Vec<u8>,
    pub ram: Vec<Vec<u8>>,
    pub rom_bank: usize,
    pub ram_bank: usize,
    pub ram_enabled: bool,
}

impl Mbc5 {
    pub open spec fn wf(&self) -> bool {
        &&& self.rom_bank <= 0x1ff
        &&& self.ram_bank <= 0xf
        &&& self.ram@.len() <= 16
        &&& forall|i: int| 0 <= i < self.ram@.len() ==> (#[trigger] self.ram@[i])@.len() == 0x2000
    }

    /// Contents of the RAM banks, as sequences of bytes.
    pub open spec fn ram_view(&self) -> Seq<Seq<u8>> {
        Seq::new(self.ram@.len(), |i: int| self.ram@[i]@)
    }

    /// State of a controller just powered on.
    pub open spec fn fresh(&self) -> bool {
        &&& self.rom@.len() > 0x149
        &&& self.ram@.len() == spec_ram_banks(self.rom@[0x149])
        &&& forall|i: int, j: int|
            #![trigger self.ram@[i]@[j]]
            0 <= i < self.ram@.len() && 0 <= j < 0x2000 ==> self.ram@[i]@[j] == 0
        &&& self.rom_bank == 0
        &&& self.ram_bank == 0
        &&& self.ram_enabled
    }

    pub fn new(rom: Vec<u8>) -> (c: Mbc5)
        requires
            rom@.len() > 0x149,
            ram_code_ok(rom@[0x149]),
        ensures
            c.wf(),
            c.fresh(),
            c.rom == rom,
    {
        let banks = ram_banks(rom[0x149]);
        Mbc5 { rom, ram: make_ram(banks), rom_bank: 0, ram_bank: 0, ram_enabled: true }
    }

    /// ROM offset a banked read resolves to; bank 0 maps to bank 0 here.
    pub open spec fn spec_rom_addr(&self, addr: int) -> int {
        0x4000 * self.rom_bank + addr - 0x4000
    }

    fn rom_addr(&self, addr: usize) -> (r: usize)
        requires
            self.wf(),
            0x4000 <= addr <= 0x7fff,
        ensures
            r == self.spec_rom_addr(addr as int),
    {
        0x4000 * self.rom_bank + addr - 0x4000
    }
}

impl Device for Mbc5 {
    /// The fixed ROM window is read straight from the image, so reads
    /// past its end are a routing error rather than open bus.
    open spec fn addr_ok(&self, addr: u16) -> bool {
        &&& self.wf()
        &&& (addr <= 0x7fff || 0xa000 <= addr <= 0xbfff)
        &&& (addr <= 0x3fff ==> addr < self.rom@.len())
    }

    open spec fn byte_at(&self, addr: u16) -> u8 {
        if addr <= 0x3fff {
            self.rom@[addr as int]
        } else if addr <= 0x7fff {
            if self.spec_rom_addr(addr as int) < self.rom@.len() {
                self.rom@[self.spec_rom_addr(addr as int)]
            } else {
                0
            }
        } else {
            if self.ram_enabled && self.ram_bank < self.ram@.len() {
                self.ram@[self.ram_bank as int]@[addr - 0xa000]
            } else {
                0
            }
        }
    }

    open spec fn write_ok(&self, addr: u16, data: u8) -> bool {
        true
    }

    /// The RAM window stores plainly while RAM is enabled and a bank is
    /// mapped.
    open spec fn plain_store(&self, addr: u16) -> bool {
        &&& self.wf()
        &&& 0xa000 <= addr <= 0xbfff
        &&& self.ram_enabled
        &&& self.ram_bank < self.ram@.len()
    }

    fn read(&self, addr: u16) -> (r: u8)
        ensures
            r == self.byte_at(addr),
    {
        if addr <= 0x3fff {
            self.rom[addr as usize]
        } else if addr <= 0x7fff {
            let a = self.rom_addr(addr as usize);
            if a < self.rom.len() {
                self.rom[a]
            } else {
                0
            }
        } else {
            if self.ram_enabled && self.ram_bank < self.ram.len() {
                self.ram[self.ram_bank][(addr - 0xa000) as usize]
            } else {
                0
            }
        }
    }

    fn write(&mut self, addr: u16, data: u8)
        ensures
            final(self).wf(),
            final(self).rom == old(self).rom,
            addr <= 0x1fff ==> *final(self) == (Mbc5 {
                ram_enabled: data & 0xf == 0xa,
                ..*old(self)
            }),
            0x2000 <= addr <= 0x2fff ==> *final(self) == (Mbc5 {
                rom_bank: ((old(self).rom_bank & 0x100) | data as usize) as usize,
                ..*old(self)
            }),
            0x3000 <= addr <= 0x3fff ==> *final(self) == (Mbc5 {
                rom_bank: ((old(self).rom_bank & 0xff) | ((data as usize & 0x1) << 8)) as usize,
                ..*old(self)
            }),
            0x4000 <= addr <= 0x5fff ==> *final(self) == (Mbc5 {
                ram_bank: (data & 0xf) as usize,
                ..*old(self)
            }),
            0x6000 <= addr <= 0x7fff ==> *final(self) == *old(self),
            0xa000 <= addr <= 0xbfff ==> {
                &&& final(self).rom_bank == old(self).rom_bank
                &&& final(self).ram_bank == old(self).ram_bank
                &&& final(self).ram_enabled == old(self).ram_enabled
                &&& final(self).ram_view() == if old(self).ram_enabled && old(self).ram_bank < old(
                    self,
                ).ram@.len() {
                    old(self).ram_view().update(
                        old(self).ram_bank as int,
                        old(self).ram_view()[old(self).ram_bank as int].update(addr - 0xa000, data),
                    )
                } else {
                    old(self).ram_view()
                }
            },
    {
        if addr <= 0x1fff {
            self.ram_enabled = data & 0xf == 0xa;
        } else if addr <= 0x2fff {
            proof {
                let b = old(self).rom_bank;
                let d = data as usize;
                assert((b & 0x100) | d <= 0x1ff) by (bit_vector)
                    requires
                        b <= 0x1ff,
                        d <= 0xff,
                ;
            }
            self.rom_bank = (self.rom_bank & 0x100) | data as usize;
        } else if addr <= 0x3fff {
            proof {
                let b = old(self).rom_bank;
                let d = data as usize;
                assert((b & 0xff) | ((d & 0x1) << 8) <= 0x1ff) by (bit_vector)
                    requires
                        b <= 0x1ff,
                ;
            }
            self.rom_bank = (self.rom_bank & 0xff) | ((data as usize & 0x1) << 8);
        } else if addr <= 0x5fff {
            proof {
                let d = data;
                assert(d & 0xf <= 0xf) by (bit_vector);
            }
            self.ram_bank = (data & 0xf) as usize;
        } else if addr <= 0x7fff {
            // read-only region
        } else {
            if self.ram_enabled && self.ram_bank < self.ram.len() {
                let bank = self.ram_bank;
                self.ram[bank][(addr - 0xa000) as usize] = data;
                proof {
                    assert(self.ram_view() =~~= old(self).ram_view().update(
                        bank as int,
                        old(self).ram_view()[bank as int].update(addr - 0xa000, data),
                    ));
                }
            }
        }
    }
}

} // verus!
