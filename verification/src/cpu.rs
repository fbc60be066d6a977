//! CPU register file: the eight 8-bit registers, their 16-bit pairs and the
//! four condition flags. The instruction interpreter that drives them is not
//! part of this library.

use vstd::prelude::*;

verus! {

/// CPU condition flags, one bit each within the F register.
#[derive(Clone, Copy, PartialEq, Eq, Structural, Debug)]
pub enum Flag {
    Z,
    N,
    H,
    C,
}

impl Flag {
    /// Position of the flag within the F register.
    pub open spec fn spec_mask(self) -> u8 {
        match self {
            Flag::Z => 0x80,
            Flag::N => 0x40,
            Flag::H => 0x20,
            Flag::C => 0x10,
        }
    }

    /// Bit mask of the flag within the F register.
    #[verifier::when_used_as_spec(spec_mask)]
    pub fn mask(self) -> (m: u8)
        ensures
            m == self.spec_mask(),
    {
        match self {
            Flag::Z => 0x80,
            Flag::N => 0x40,
            Flag::H => 0x20,
            Flag::C => 0x10,
        }
    }
}

/// The register file, with the program counter and stack pointer.
#[derive(Debug)]
pub struct Registers {
    pub a: u8,
    pub f: u8,
    pub b: u8,
    pub c: u8,
    pub d: u8,
    pub e: u8,
    pub h: u8,
    pub l: u8,
    /// Program counter
    pub pc: u16,
    /// Stack pointer
    pub sp: u16,
}

impl Default for Registers {
    fn default() -> (r: Registers)
        ensures
            r.a == 0 && r.f == 0 && r.b == 0 && r.c == 0,
            r.d == 0 && r.e == 0 && r.h == 0 && r.l == 0,
            r.pc == 0 && r.sp == 0,
    {
        Registers { a: 0, f: 0, b: 0, c: 0, d: 0, e: 0, h: 0, l: 0, pc: 0, sp: 0 }
    }
}

impl Registers {
    pub fn af(&self) -> (r: u16)
        ensures
            r == self.a * 256 + self.f,
    {
        proof {
            crate::bits::lemma_word_combine(self.a, self.f);
        }
        (self.a as u16) << 8 | (self.f as u16)
    }

    pub fn bc(&self) -> (r: u16)
        ensures
            r == self.b * 256 + self.c,
    {
        proof {
            crate::bits::lemma_word_combine(self.b, self.c);
        }
        (self.b as u16) << 8 | (self.c as u16)
    }

    pub fn de(&self) -> (r: u16)
        ensures
            r == self.d * 256 + self.e,
    {
        proof {
            crate::bits::lemma_word_combine(self.d, self.e);
        }
        (self.d as u16) << 8 | (self.e as u16)
    }

    pub fn hl(&self) -> (r: u16)
        ensures
            r == self.h * 256 + self.l,
    {
        proof {
            crate::bits::lemma_word_combine(self.h, self.l);
        }
        (self.h as u16) << 8 | (self.l as u16)
    }

    /// The low nibble of F always reads as zero.
    pub fn set_af(&mut self, af: u16)
        ensures
            *final(self) == (Registers { a: (af >> 8) as u8, f: (af & 0xf0) as u8, ..*old(self) }),
    {
        self.a = (af >> 8) as u8;
        self.f = (af & 0xf0) as u8;
    }

    pub fn set_bc(&mut self, bc: u16)
        ensures
            *final(self) == (Registers { b: (bc >> 8) as u8, c: (bc & 0xff) as u8, ..*old(self) }),
    {
        self.b = (bc >> 8) as u8;
        self.c = (bc & 0xff) as u8;
    }

    pub fn set_de(&mut self, de: u16)
        ensures
            *final(self) == (Registers { d: (de >> 8) as u8, e: (de & 0xff) as u8, ..*old(self) }),
    {
        self.d = (de >> 8) as u8;
        self.e = (de & 0xff) as u8;
    }

    pub fn set_hl(&mut self, hl: u16)
        ensures
            *final(self) == (Registers { h: (hl >> 8) as u8, l: (hl & 0xff) as u8, ..*old(self) }),
    {
        self.h = (hl >> 8) as u8;
        self.l = (hl & 0xff) as u8;
    }

    pub fn is_flag(&self, flag: Flag) -> (r: bool)
        ensures
            r == (self.f & flag.spec_mask() != 0),
    {
        self.f & flag.mask() != 0
    }

    pub fn set_flag(&mut self, flag: Flag, b: bool)
        ensures
            *final(self) == (Registers {
                f: if b {
                    old(self).f | flag.spec_mask()
                } else {
                    old(self).f & !flag.spec_mask()
                },
                ..*old(self)
            }),
    {
        if b {
            self.f = self.f | flag.mask();
        } else {
            self.f = self.f & !flag.mask();
        }
    }
}

} // verus!
