//! Third-generation bank controller: 8-bit ROM bank select and a mode that
//! maps either a RAM bank or one of five real-time-clock cells at
//! `0xa000-0xbfff`.

use vstd::prelude::*;
use crate::cartridge::{make_ram, ram_banks, ram_code_ok, spec_ram_banks};
use crate::device::Device;

verus! {

/// What the external RAM window addresses.
#[derive(Clone, Copy, PartialEq, Eq, Structural, Debug)]
pub enum Mbc3Mode {
    Ram,
    Rtc,
}

/// MBC3 controller.
pub struct Mbc3 {
    pub rom: Vec<u8>,
    pub ram: Vec<Vec<u8>>,
    pub rtc: Vec<u8>,
    pub rtc_select: usize,
    pub rom_bank: usize,
    pub ram_bank: usize,
    pub ram_timer_enabled: bool,
    pub mode: Mbc3Mode,
}

impl Mbc3 {
    pub open spec fn wf(&self) -> bool {
        &&& self.rom_bank <= 0xff
        &&& self.ram_bank <= 3
        &&& self.rtc_select <= 4
        &&& self.rtc@.len() == 5
        &&& self.ram@.len() <= 16
        &&& forall|i: int| 0 <= i < self.ram@.len() ==> (#[trigger] self.ram@[i])@.len() == 0x2000
    }

    /// Contents of the RAM banks, as sequences of bytes.
    pub open spec fn ram_view(&self) -> Seq<Seq<u8>> {
        Seq::new(self.ram@.len(), |i: int| self.ram@[i]@)
    }

    /// State of a controller just powered on.
    pub open spec fn fresh(&self) -> bool {
        &&& self.rom@.len() > 0x149
        &&& self.ram@.len() == spec_ram_banks(self.rom@[0x149])
        &&& forall|i: int, j: int|
            #![trigger self.ram@[i]@[j]]
            0 <= i < self.ram@.len() && 0 <= j < 0x2000 ==> self.ram@[i]@[j] == 0
        &&& self.rtc@ == seq![0u8, 0u8, 0u8, 0u8, 0u8]
        &&& self.rtc_select == 0
        &&& self.rom_bank == 0
        &&& self.ram_bank == 0
        &&& !self.ram_timer_enabled
        &&& self.mode is Ram
    }

    pub fn new(rom: Vec<u8>) -> (c: Mbc3)
        requires
            rom@.len() > 0x149,
            ram_code_ok(rom@[0x149]),
        ensures
            c.wf(),
            c.fresh(),
            c.rom == rom,
    {
        let banks = ram_banks(rom[0x149]);
        let mut rtc: Vec<u8> = Vec::new();
        rtc.push(0);
        rtc.push(0);
        rtc.push(0);
        rtc.push(0);
        rtc.push(0);
        proof {
            assert(rtc@ =~= seq![0u8, 0u8, 0u8, 0u8, 0u8]);
        }
        Mbc3 {
            rom,
            ram: make_ram(banks),
            rtc,
            rtc_select: 0,
            rom_bank: 0,
            ram_bank: 0,
            ram_timer_enabled: false,
            mode: Mbc3Mode::Ram,
        }
    }

    /// ROM offset a banked read resolves to: bank 0 reads as bank 1.
    pub open spec fn spec_rom_addr(&self, addr: int) -> int {
        0x4000 * (if self.rom_bank >= 1 {
            self.rom_bank as int
        } else {
            1
        }) + addr - 0x4000
    }

    fn rom_addr(&self, addr: usize) -> (r: usize)
        requires
            self.wf(),
            0x4000 <= addr <= 0x7fff,
        ensures
            r == self.spec_rom_addr(addr as int),
    {
        let bank = if self.rom_bank >= 1 {
            self.rom_bank
        } else {
            1
        };
        0x4000 * bank + addr - 0x4000
    }
}

impl Device for Mbc3 {
    /// The fixed ROM window is read straight from the image, so reads
    /// past its end are a routing error rather than open bus.
    open spec fn addr_ok(&self, addr: u16) -> bool {
        &&& self.wf()
        &&& (addr <= 0x7fff || 0xa000 <= addr <= 0xbfff)
        &&& (addr <= 0x3fff ==> addr < self.rom@.len())
    }

    open spec fn byte_at(&self, addr: u16) -> u8 {
        if addr <= 0x3fff {
            self.rom@[addr as int]
        } else if addr <= 0x7fff {
            if self.spec_rom_addr(addr as int) < self.rom@.len() {
                self.rom@[self.spec_rom_addr(addr as int)]
            } else {
                0
            }
        } else {
            if self.ram_timer_enabled {
                match self.mode {
                    Mbc3Mode::Ram => if self.ram_bank < self.ram@.len() {
                        self.ram@[self.ram_bank as int]@[addr - 0xa000]
                    } else {
                        0
                    },
                    Mbc3Mode::Rtc => self.rtc@[self.rtc_select as int],
                }
            } else {
                0
            }
        }
    }

    /// The bank-or-clock select register accepts only documented values.
    open spec fn write_ok(&self, addr: u16, data: u8) -> bool {
        0x4000 <= addr <= 0x5fff ==> data <= 0x03 || 0x08 <= data <= 0x0c
    }

    /// The RAM window stores plainly while it is enabled, mapped to RAM
    /// (not the clock) and a bank is present.
    open spec fn plain_store(&self, addr: u16) -> bool {
        &&& self.wf()
        &&& 0xa000 <= addr <= 0xbfff
        &&& self.ram_timer_enabled
        &&& self.mode is Ram
        &&& self.ram_bank < self.ram@.len()
    }

    fn read(&self, addr: u16) -> (r: u8)
        ensures
            r == self.byte_at(addr),
    {
        if addr <= 0x3fff {
            self.rom[addr as usize]
        } else if addr <= 0x7fff {
            let a = self.rom_addr(addr as usize);
            if a < self.rom.len() {
                self.rom[a]
            } else {
                0
            }
        } else {
            if self.ram_timer_enabled {
                match self.mode {
                    Mbc3Mode::Ram => if self.ram_bank < self.ram.len() {
                        self.ram[self.ram_bank][(addr - 0xa000) as usize]
                    } else {
                        0
                    },
                    Mbc3Mode::Rtc => self.rtc[self.rtc_select],
                }
            } else {
                0
            }
        }
    }

    fn write(&mut self, addr: u16, data: u8)
        ensures
            final(self).wf(),
            final(self).rom == old(self).rom,
            addr <= 0x1fff ==> *final(self) == (Mbc3 {
                ram_timer_enabled: data & 0xf == 0xa,
                ..*old(self)
            }),
            0x2000 <= addr <= 0x3fff ==> *final(self) == (Mbc3 {
                rom_bank: data as usize,
                ..*old(self)
            }),
            0x4000 <= addr <= 0x5fff ==> *final(self) == (if data <= 0x03 {
                Mbc3 { mode: Mbc3Mode::Ram, ram_bank: data as usize, ..*old(self) }
            } else {
                Mbc3 { mode: Mbc3Mode::Rtc, rtc_select: (data - 0x08) as usize, ..*old(self) }
            }),
            0x6000 <= addr <= 0x7fff ==> *final(self) == *old(self),
            0xa000 <= addr <= 0xbfff ==> {
                &&& final(self).rtc_select == old(self).rtc_select
                &&& final(self).rom_bank == old(self).rom_bank
                &&& final(self).ram_bank == old(self).ram_bank
                &&& final(self).ram_timer_enabled == old(self).ram_timer_enabled
                &&& final(self).mode == old(self).mode
                &&& if old(self).ram_timer_enabled {
                    match old(self).mode {
                        Mbc3Mode::Ram => final(self).rtc == old(self).rtc && final(self).ram_view()
                            == if old(self).ram_bank < old(self).ram@.len() {
                            old(self).ram_view().update(
                                old(self).ram_bank as int,
                                old(self).ram_view()[old(self).ram_bank as int].update(
                                    addr - 0xa000,
                                    data,
                                ),
                            )
                        } else {
                            old(self).ram_view()
                        },
                        Mbc3Mode::Rtc => final(self).ram == old(self).ram && final(self).rtc@
                            == old(self).rtc@.update(old(self).rtc_select as int, data),
                    }
                } else {
                    final(self).ram == old(self).ram && final(self).rtc == old(self).rtc
                }
            },
    {
        if addr <= 0x1fff {
            self.ram_timer_enabled = data & 0xf == 0xa;
        } else if addr <= 0x3fff {
            self.rom_bank = data as usize;
        } else if addr <= 0x5fff {
            if data <= 0x03 {
                self.mode = Mbc3Mode::Ram;
                self.ram_bank = data as usize;
            } else {
                self.mode = Mbc3Mode::Rtc;
                self.rtc_select = (data - 0x08) as usize;
            }
        } else if addr <= 0x7fff {
            // read-only latch region; this controller ignores it
        } else {
            if self.ram_timer_enabled {
                match self.mode {
                    Mbc3Mode::Ram => {
                        if self.ram_bank < self.ram.len() {
                            let bank = self.ram_bank;
                            self.ram[bank][(addr - 0xa000) as usize] = data;
                            proof {
                                assert(self.ram_view() =~~= old(self).ram_view().update(
                                    bank as int,
                                    old(self).ram_view()[bank as int].update(addr - 0xa000, data),
                                ));
                            }
                        }
                    },
                    Mbc3Mode::Rtc => {
                        let sel = self.rtc_select;
                        self.rtc[sel] = data;
                    },
                }
            }
        }
    }
}

} // verus!
