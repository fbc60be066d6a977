//! Tile and tile-map storage: two 8 KiB banks (monochrome mode only ever
//! selects bank 0) plus the bank-select register.

use vstd::prelude::*;

verus! {

/// Banked video RAM.
pub struct VRam {
    pub banks: Vec<Vec<u8>>,
    pub select: u8,
}

impl VRam {
    pub open spec fn wf(&self) -> bool {
        &&& self.banks@.len() == 2
        &&& self.banks@[0]@.len() == 0x2000
        &&& self.banks@[1]@.len() == 0x2000
        &&& self.select <= 1
    }

    /// Bytes of bank `i`.
    pub open spec fn bank_view(&self, i: int) -> Seq<u8> {
        self.banks@[i]@
    }

    pub fn default() -> (v: VRam)
        ensures
            v.wf(),
            v.select == 0,
            forall|i: int, j: int|
                #![trigger v.banks@[i]@[j]]
                0 <= i < 2 && 0 <= j < 0x2000 ==> v.banks@[i]@[j] == 0,
    {
        let mut banks: Vec<Vec<u8>> = Vec::new();
        let mut i: usize = 0;
        while i < 2
            invariant
                i <= 2,
                banks@.len() == i,
                forall|k: int| 0 <= k < i ==> (#[trigger] banks@[k])@.len() == 0x2000,
                forall|k: int, j: int|
                    #![trigger banks@[k]@[j]]
                    0 <= k < i && 0 <= j < 0x2000 ==> banks@[k]@[j] == 0,
            decreases 2 - i,
        {
            let mut bank: Vec<u8> = Vec::new();
            let mut j: usize = 0;
            while j < 0x2000
                invariant
                    j <= 0x2000,
                    bank@.len() == j,
                    forall|k: int| 0 <= k < j ==> bank@[k] == 0,
                decreases 0x2000 - j,
            {
                bank.push(0);
                j = j + 1;
            }
            banks.push(bank);
            i = i + 1;
        }
        VRam { banks, select: 0 }
    }

    /// Borrow a whole bank.
    pub fn bank(&self, i: usize) -> (b: &Vec<u8>)
        requires
            self.wf(),
            i < 2,
        ensures
            b@ == self.bank_view(i as int),
    {
        &self.banks[i]
    }

    pub open spec fn byte_at(&self, addr: u16) -> u8 {
        if addr == 0xff4f {
            0xfe | self.select
        } else {
            self.banks@[self.select as int]@[addr - 0x8000]
        }
    }

    pub fn read(&self, addr: u16) -> (r: u8)
        requires
            self.wf(),
            0x8000 <= addr <= 0x9fff || addr == 0xff4f,
        ensures
            r == self.byte_at(addr),
    {
        if addr == 0xff4f {
            0xfe | self.select
        } else {
            self.banks[self.select as usize][(addr - 0x8000) as usize]
        }
    }

    pub fn write(&mut self, addr: u16, data: u8)
        requires
            old(self).wf(),
            0x8000 <= addr <= 0x9fff || addr == 0xff4f,
        ensures
            final(self).wf(),
            addr == 0xff4f ==> final(self).banks == old(self).banks && final(self).select == data
                & 1,
            addr != 0xff4f ==> {
                &&& final(self).select == old(self).select
                &&& final(self).bank_view(old(self).select as int) == old(self).bank_view(
                    old(self).select as int,
                ).update(addr - 0x8000, data)
                &&& final(self).bank_view(1 - old(self).select as int) == old(self).bank_view(
                    1 - old(self).select as int,
                )
            },
    {
        if addr == 0xff4f {
            proof {
                crate::bits::lemma_mask_bound(data, 1);
            }
            self.select = data & 1;
        } else {
            let sel = self.select as usize;
            self.banks[sel][(addr - 0x8000) as usize] = data;
        }
    }
}

} // verus!
