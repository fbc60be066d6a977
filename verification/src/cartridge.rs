//! Cartridges: a plain ROM and the three memory bank controllers. Each one
//! answers the bus over `0x0000-0x7fff` (ROM) and `0xa000-0xbfff` (RAM),
//! with bank-switch writes decoded from the ROM address range.

use vstd::prelude::*;
use vstd::slice::slice_to_vec;
use crate::device::Device;

pub mod mbc1;
pub mod mbc3;
pub mod mbc5;
pub mod rom;

pub use mbc1::Mbc1;
pub use mbc3::Mbc3;
pub use mbc5::Mbc5;
pub use rom::Rom;

verus! {

/// A cartridge is any device the cartridge slot accepts.
pub trait Cartridge: Device {

}

impl Cartridge for () {

}

impl Cartridge for Rom {

}

impl Cartridge for Mbc1 {

}

impl Cartridge for Mbc3 {

}

impl Cartridge for Mbc5 {

}

/// RAM size codes a cartridge header may carry.
pub open spec fn ram_code_ok(banks: u8) -> bool {
    banks == 0 || banks == 1 || banks == 2 || banks == 3 || banks == 4
}

/// Number of 8 KiB RAM banks a header code stands for.
pub open spec fn spec_ram_banks(banks: u8) -> usize {
    if banks == 0 {
        0
    } else if banks == 1 || banks == 2 {
        1
    } else if banks == 3 {
        4
    } else {
        16
    }
}

pub(crate) fn ram_banks(banks: u8) -> (n: usize)
    requires
        ram_code_ok(banks),
    ensures
        n == spec_ram_banks(banks),
{
    match banks {
        0x00 => 0,
        0x01 | 0x02 => 1,
        0x03 => 4,
        _ => 16,
    }
}

/// 8 KiB of zeroed cartridge RAM, `n` banks of it.
pub(crate) fn make_ram(n: usize) -> (ram: Vec<Vec<u8>>)
    ensures
        ram@.len() == n,
        forall|i: int| 0 <= i < n ==> (#[trigger] ram@[i])@.len() == 0x2000,
        forall|i: int, j: int| #![trigger ram@[i]@[j]] 0 <= i < n && 0 <= j < 0x2000 ==> ram@[i]@[j] == 0,
{
    let mut ram: Vec<Vec<u8>> = Vec::new();
    let mut i: usize = 0;
    while i < n
        invariant
            i <= n,
            ram@.len() == i,
            forall|k: int| 0 <= k < i ==> (#[trigger] ram@[k])@.len() == 0x2000,
            forall|k: int, j: int| #![trigger ram@[k]@[j]] 0 <= k < i && 0 <= j < 0x2000 ==> ram@[k]@[j] == 0,
        decreases n - i,
    {
        let mut bank: Vec<u8> = Vec::new();
        let mut j: usize = 0;
        while j < 0x2000
            invariant
                j <= 0x2000,
                bank@.len() == j,
                forall|k: int| 0 <= k < j ==> bank@[k] == 0,
            decreases 0x2000 - j,
        {
            bank.push(0);
            j = j + 1;
        }
        ram.push(bank);
        i = i + 1;
    }
    ram
}

/// A cartridge of any supported kind, chosen from the header type byte.
pub enum AnyCartridge {
    Rom(Rom),
    Mbc1(Mbc1),
    Mbc3(Mbc3),
    Mbc5(Mbc5),
}

/// Whether the header type byte at `0x147` names a supported controller.
pub open spec fn cart_type_ok(code: u8) -> bool {
    ||| code == 0x00
    ||| 0x01 <= code <= 0x03
    ||| 0x0f <= code <= 0x13
    ||| 0x19 <= code <= 0x1e
}

/// Build the cartridge a ROM image asks for. `Err` exactly when the image
/// has no type byte or names an unsupported controller.
pub fn from_bytes(bytes: &[u8]) -> (r: Result<AnyCartridge, ()>)
    requires
        bytes@.len() > 0x147 && cart_type_ok(bytes@[0x147]) && bytes@[0x147] != 0x00
            ==> bytes@.len() > 0x149 && ram_code_ok(bytes@[0x149]),
    ensures
        r is Err <==> !(bytes@.len() > 0x147 && cart_type_ok(bytes@[0x147])),
        r matches Ok(c) ==> match c {
            AnyCartridge::Rom(rom) => bytes@[0x147] == 0x00 && rom.rom@ == bytes@,
            AnyCartridge::Mbc1(m) => 0x01 <= bytes@[0x147] <= 0x03 && m.rom@ == bytes@
                && m.fresh(),
            AnyCartridge::Mbc3(m) => 0x0f <= bytes@[0x147] <= 0x13 && m.rom@ == bytes@
                && m.fresh(),
            AnyCartridge::Mbc5(m) => 0x19 <= bytes@[0x147] <= 0x1e && m.rom@ == bytes@
                && m.fresh(),
        },
{
    if bytes.len() <= 0x147 {
        return Err(());
    }
    let code = bytes[0x147];
    if code == 0x00 {
        Ok(AnyCartridge::Rom(Rom::new(slice_to_vec(bytes))))
    } else if 0x01 <= code && code <= 0x03 {
        Ok(AnyCartridge::Mbc1(Mbc1::new(slice_to_vec(bytes))))
    } else if 0x0f <= code && code <= 0x13 {
        Ok(AnyCartridge::Mbc3(Mbc3::new(slice_to_vec(bytes))))
    } else if 0x19 <= code && code <= 0x1e {
        Ok(AnyCartridge::Mbc5(Mbc5::new(slice_to_vec(bytes))))
    } else {
        Err(())
    }
}

impl Device for AnyCartridge {
    open spec fn addr_ok(&self, addr: u16) -> bool {
        match self {
            AnyCartridge::Rom(c) => c.addr_ok(addr),
            AnyCartridge::Mbc1(c) => c.addr_ok(addr),
            AnyCartridge::Mbc3(c) => c.addr_ok(addr),
            AnyCartridge::Mbc5(c) => c.addr_ok(addr),
        }
    }

    open spec fn byte_at(&self, addr: u16) -> u8 {
        match self {
            AnyCartridge::Rom(c) => c.byte_at(addr),
            AnyCartridge::Mbc1(c) => c.byte_at(addr),
            AnyCartridge::Mbc3(c) => c.byte_at(addr),
            AnyCartridge::Mbc5(c) => c.byte_at(addr),
        }
    }

    open spec fn write_ok(&self, addr: u16, data: u8) -> bool {
        match self {
            AnyCartridge::Rom(c) => c.write_ok(addr, data),
            AnyCartridge::Mbc1(c) => c.write_ok(addr, data),
            AnyCartridge::Mbc3(c) => c.write_ok(addr, data),
            AnyCartridge::Mbc5(c) => c.write_ok(addr, data),
        }
    }

    open spec fn plain_store(&self, addr: u16) -> bool {
        match self {
            AnyCartridge::Rom(c) => c.plain_store(addr),
            AnyCartridge::Mbc1(c) => c.plain_store(addr),
            AnyCartridge::Mbc3(c) => c.plain_store(addr),
            AnyCartridge::Mbc5(c) => c.plain_store(addr),
        }
    }

    fn read(&self, addr: u16) -> (r: u8)
        ensures
            r == self.byte_at(addr),
    {
        match self {
            AnyCartridge::Rom(c) => c.read(addr),
            AnyCartridge::Mbc1(c) => c.read(addr),
            AnyCartridge::Mbc3(c) => c.read(addr),
            AnyCartridge::Mbc5(c) => c.read(addr),
        }
    }

    fn write(&mut self, addr: u16, data: u8) {
        match self {
            AnyCartridge::Rom(c) => c.write(addr, data),
            AnyCartridge::Mbc1(c) => c.write(addr, data),
            AnyCartridge::Mbc3(c) => c.write(addr, data),
            AnyCartridge::Mbc5(c) => c.write(addr, data),
        }
    }
}

impl Cartridge for AnyCartridge {

}

} // verus!
