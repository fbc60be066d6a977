//! First-generation bank controller: 5+2 bit ROM bank select and a mode
//! latch that reuses the upper two bits for RAM banking.

use vstd::prelude::*;
use crate::cartridge::{make_ram, ram_banks, ram_code_ok, spec_ram_banks};
use crate::device::Device;

verus! {

/// What the two shared select bits address.
#[derive(Clone, Copy, PartialEq, Eq, Structural, Debug)]
pub enum Mbc1Mode {
    Rom,
    Ram,
}

/// MBC1 controller.
pub struct Mbc1 {
    pub rom: Vec<u8>,
    pub ram: Vec<Vec<u8>>,
    pub rom_bank: usize,
    pub ram_bank: usize,
    pub ram_enable: bool,
    pub mode: Mbc1Mode,
}

impl Mbc1 {
    pub open spec fn wf(&self) -> bool {
        &&& self.rom_bank <= 0x7f
        &&& self.ram_bank <= 3
        &&& self.ram@.len() <= 16
        &&& forall|i: int| 0 <= i < self.ram@.len() ==> (#[trigger] self.ram@[i])@.len() == 0x2000
    }

    /// Contents of the RAM banks, as sequences of bytes.
    pub open spec fn ram_view(&self) -> Seq<Seq<u8>> {
        Seq::new(self.ram@.len(), |i: int| self.ram@[i]@)
    }

    /// State of a controller just powered on.
    pub open spec fn fresh(&self) -> bool {
        &&& self.rom@.len() > 0x149
        &&& self.ram@.len() == spec_ram_banks(self.rom@[0x149])
        &&& forall|i: int, j: int|
            #![trigger self.ram@[i]@[j]]
            0 <= i < self.ram@.len() && 0 <= j < 0x2000 ==> self.ram@[i]@[j] == 0
        &&& self.rom_bank == 0
        &&& self.ram_bank == 0
        &&& !self.ram_enable
        &&& self.mode is Rom
    }

    pub fn new(rom: Vec<u8>) -> (c: Mbc1)
        requires
            rom@.len() > 0x149,
            ram_code_ok(rom@[0x149]),
        ensures
            c.wf(),
            c.fresh(),
            c.rom == rom,
    {
        let banks = ram_banks(rom[0x149]);
        Mbc1 {
            rom,
            ram: make_ram(banks),
            rom_bank: 0,
            ram_bank: 0,
            ram_enable: false,
            mode: Mbc1Mode::Rom,
        }
    }

    /// ROM offset a banked read resolves to: bank 0 reads as bank 1.
    pub open spec fn spec_rom_addr(&self, addr: int) -> int {
        0x4000 * (if self.rom_bank >= 1 {
            self.rom_bank as int
        } else {
            1
        }) + addr - 0x4000
    }

    fn rom_addr(&self, addr: usize) -> (r: usize)
        requires
            self.wf(),
            0x4000 <= addr <= 0x7fff,
        ensures
            r == self.spec_rom_addr(addr as int),
    {
        let bank = if self.rom_bank >= 1 {
            self.rom_bank
        } else {
            1
        };
        0x4000 * bank + addr - 0x4000
    }
}

impl Device for Mbc1 {
    open spec fn addr_ok(&self, addr: u16) -> bool {
        &&& self.wf()
        &&& (addr <= 0x7fff || 0xa000 <= addr <= 0xbfff)
    }

    open spec fn byte_at(&self, addr: u16) -> u8 {
        if addr <= 0x3fff {
            if addr < self.rom@.len() {
                self.rom@[addr as int]
            } else {
                0xff
            }
        } else if addr <= 0x7fff {
            if self.spec_rom_addr(addr as int) < self.rom@.len() {
                self.rom@[self.spec_rom_addr(addr as int)]
            } else {
                0
            }
        } else {
            if self.ram_enable && self.ram_bank < self.ram@.len() {
                self.ram@[self.ram_bank as int]@[addr - 0xa000]
            } else {
                0
            }
        }
    }

    /// The mode latch accepts only the two documented values.
    open spec fn write_ok(&self, addr: u16, data: u8) -> bool {
        0x6000 <= addr <= 0x7fff ==> data == 0 || data == 1
    }

    /// The RAM window stores plainly while RAM is enabled and a bank is
    /// mapped; everything below it is bank-switch control.
    open spec fn plain_store(&self, addr: u16) -> bool {
        &&& self.wf()
        &&& 0xa000 <= addr <= 0xbfff
        &&& self.ram_enable
        &&& self.ram_bank < self.ram@.len()
    }

    fn read(&self, addr: u16) -> (r: u8)
        ensures
            r == self.byte_at(addr),
    {
        if addr <= 0x3fff {
            if (addr as usize) < self.rom.len() {
                self.rom[addr as usize]
            } else {
                0xff
            }
        } else if addr <= 0x7fff {
            let a = self.rom_addr(addr as usize);
            if a < self.rom.len() {
                self.rom[a]
            } else {
                0
            }
        } else {
            if self.ram_enable && self.ram_bank < self.ram.len() {
                self.ram[self.ram_bank][(addr - 0xa000) as usize]
            } else {
                0
            }
        }
    }

    fn write(&mut self, addr: u16, data: u8)
        ensures
            final(self).wf(),
            final(self).rom == old(self).rom,
            addr <= 0x1fff ==> *final(self) == (Mbc1 {
                ram_enable: data & 0xf == 0xa,
                ..*old(self)
            }),
            0x2000 <= addr <= 0x3fff ==> *final(self) == (Mbc1 {
                rom_bank: ((old(self).rom_bank & 0x60) | (data as usize & 0x1f)) as usize,
                ..*old(self)
            }),
            0x4000 <= addr <= 0x5fff ==> *final(self) == (match old(self).mode {
                Mbc1Mode::Rom => Mbc1 {
                    rom_bank: ((old(self).rom_bank & 0x1f) | ((data as usize & 0x3) << 5)) as usize,
                    ..*old(self)
                },
                Mbc1Mode::Ram => Mbc1 { ram_bank: (data as usize & 0x3) as usize, ..*old(self) },
            }),
            0x6000 <= addr <= 0x7fff ==> *final(self) == (Mbc1 {
                mode: if data == 0 {
                    Mbc1Mode::Rom
                } else {
                    Mbc1Mode::Ram
                },
                ..*old(self)
            }),
            0xa000 <= addr <= 0xbfff ==> {
                &&& final(self).rom_bank == old(self).rom_bank
                &&& final(self).ram_bank == old(self).ram_bank
                &&& final(self).ram_enable == old(self).ram_enable
                &&& final(self).mode == old(self).mode
                &&& final(self).ram_view() == if old(self).ram_bank < old(self).ram@.len() {
                    old(self).ram_view().update(
                        old(self).ram_bank as int,
                        old(self).ram_view()[old(self).ram_bank as int].update(addr - 0xa000, data),
                    )
                } else {
                    old(self).ram_view()
                }
            },
    {
        if addr <= 0x1fff {
            self.ram_enable = data & 0xf == 0xa;
        } else if addr <= 0x3fff {
            proof {
                let b = old(self).rom_bank;
                let d = data as usize;
                assert((b & 0x60) | (d & 0x1f) <= 0x7f) by (bit_vector)
                    requires
                        b <= 0x7f,
                ;
            }
            self.rom_bank = (self.rom_bank & 0x60) | (data as usize & 0x1f);
        } else if addr <= 0x5fff {
            match self.mode {
                Mbc1Mode::Rom => {
                    proof {
                        let b = old(self).rom_bank;
                        let d = data as usize;
                        assert((b & 0x1f) | ((d & 0x3) << 5) <= 0x7f) by (bit_vector);
                    }
                    self.rom_bank = (self.rom_bank & 0x1f) | ((data as usize & 0x3) << 5);
                },
                Mbc1Mode::Ram => {
                    proof {
                        let d = data as usize;
                        assert(d & 0x3 <= 3) by (bit_vector);
                    }
                    self.ram_bank = data as usize & 0x3;
                },
            }
        } else if addr <= 0x7fff {
            self.mode = if data == 0 {
                Mbc1Mode::Rom
            } else {
                Mbc1Mode::Ram
            };
        } else {
            if self.ram_bank < self.ram.len() {
                let bank = self.ram_bank;
                self.ram[bank][(addr - 0xa000) as usize] = data;
                proof {
                    assert(self.ram_view() =~~= old(self).ram_view().update(
                        bank as int,
                        old(self).ram_view()[bank as int].update(addr - 0xa000, data),
                    ));
                }
            }
        }
    }
}

} // verus!
