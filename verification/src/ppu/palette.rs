//! Palettes. `Pal` holds the monochrome shade registers and the four
//! display colors they index; `ColorPal` holds color-mode palette RAM.

use vstd::prelude::*;

verus! {

/// One RGB display pixel.
#[derive(Clone, Copy, PartialEq, Eq, Structural, Debug)]
pub struct Color {
    pub r: u8,
    pub g: u8,
    pub b: u8,
}

/// The four grayscale shades, brightest first.
pub open spec fn spec_grayscale(i: int) -> Color {
    if i == 0 {
        Color { r: 0xff, g: 0xff, b: 0xff }
    } else if i == 1 {
        Color { r: 0xaa, g: 0xaa, b: 0xaa }
    } else if i == 2 {
        Color { r: 0x55, g: 0x55, b: 0x55 }
    } else {
        Color { r: 0x00, g: 0x00, b: 0x00 }
    }
}

/// Shade `i` of the grayscale ramp, index 0 the brightest.
pub fn grayscale(i: usize) -> (c: Color)
    requires
        i < 4,
    ensures
        c == spec_grayscale(i as int),
{
    if i == 0 {
        Color { r: 0xff, g: 0xff, b: 0xff }
    } else if i == 1 {
        Color { r: 0xaa, g: 0xaa, b: 0xaa }
    } else if i == 2 {
        Color { r: 0x55, g: 0x55, b: 0x55 }
    } else {
        Color { r: 0x00, g: 0x00, b: 0x00 }
    }
}

/// The green-tinted shades of the original handheld panel.
pub fn dmg_palette() -> (p: [Color; 4])
    ensures
        p@.len() == 4,
{
    [
        Color { r: 0x9b, g: 0xbc, b: 0x0f },
        Color { r: 0x8b, g: 0xac, b: 0x0f },
        Color { r: 0x30, g: 0x62, b: 0x30 },
        Color { r: 0x0f, g: 0x38, b: 0x0f },
    ]
}

/// Shade index (0-3) a 2-bit color index resolves to through a shade
/// register: two bits per index, index 0 in the low bits.
pub open spec fn spec_shade(reg: u8, i: int) -> u8 {
    (reg >> (2 * i) as u8) & 0x3
}

/// Monochrome palette registers plus the display colors the four shades
/// map to.
pub struct Pal {
    pub bgp: u8,
    pub obp0: u8,
    pub obp1: u8,
    pub colors: [Color; 4],
}

impl Default for Pal {
    fn default() -> (p: Pal)
        ensures
            p.bgp == 0xfc,
            p.obp0 == 0xff,
            p.obp1 == 0xff,
            forall|i: int| 0 <= i < 4 ==> p.colors@[i] == spec_grayscale(i),
    {
        let colors = [
            Color { r: 0xff, g: 0xff, b: 0xff },
            Color { r: 0xaa, g: 0xaa, b: 0xaa },
            Color { r: 0x55, g: 0x55, b: 0x55 },
            Color { r: 0x00, g: 0x00, b: 0x00 },
        ];
        proof {
            assert(forall|i: int| 0 <= i < 4 ==> colors@[i] == spec_grayscale(i));
        }
        Pal { bgp: 0xfc, obp0: 0xff, obp1: 0xff, colors }
    }
}

impl Pal {
    /// Display color of background index `i` through BGP.
    pub open spec fn spec_bg_color(&self, i: int) -> Color {
        self.colors@[spec_shade(self.bgp, i) as int]
    }

    pub fn bg_color(&self, i: usize) -> (c: Color)
        requires
            i < 4,
        ensures
            c == self.spec_bg_color(i as int),
    {
        let shade = (self.bgp >> (2 * i) as u8) & 0x3;
        proof {
            crate::bits::lemma_mask_bound(self.bgp >> (2 * i) as u8, 0x3);
        }
        self.colors[shade as usize]
    }

    /// Display color of object index `i` through OBP0 or OBP1.
    pub open spec fn spec_obp_color(&self, pal: int, i: int) -> Color {
        let reg = if pal == 0 {
            self.obp0
        } else {
            self.obp1
        };
        self.colors@[spec_shade(reg, i) as int]
    }

    pub fn obp_color(&self, pal: usize, i: usize) -> (c: Color)
        requires
            pal < 2,
            i < 4,
        ensures
            c == self.spec_obp_color(pal as int, i as int),
    {
        let reg = if pal == 0 {
            self.obp0
        } else {
            self.obp1
        };
        let shade = (reg >> (2 * i) as u8) & 0x3;
        proof {
            crate::bits::lemma_mask_bound(reg >> (2 * i) as u8, 0x3);
        }
        self.colors[shade as usize]
    }

    /// The color a blanked display shows: background index 0.
    pub open spec fn spec_clear_color(&self) -> Color {
        self.spec_bg_color(0)
    }

    pub fn clear_color(&self) -> (c: Color)
        ensures
            c == self.spec_clear_color(),
    {
        self.bg_color(0)
    }

    /// Replace the four display colors.
    pub fn set_color_pal(&mut self, colors: [Color; 4])
        ensures
            *final(self) == (Pal { colors, ..*old(self) }),
    {
        self.colors = colors;
    }

    pub open spec fn byte_at(&self, addr: u16) -> u8 {
        if addr == 0xff47 {
            self.bgp
        } else if addr == 0xff48 {
            self.obp0
        } else {
            self.obp1
        }
    }

    pub fn read(&self, addr: u16) -> (r: u8)
        requires
            0xff47 <= addr <= 0xff49,
        ensures
            r == self.byte_at(addr),
    {
        if addr == 0xff47 {
            self.bgp
        } else if addr == 0xff48 {
            self.obp0
        } else {
            self.obp1
        }
    }

    pub fn write(&mut self, addr: u16, data: u8)
        requires
            0xff47 <= addr <= 0xff49,
        ensures
            addr == 0xff47 ==> *final(self) == (Pal { bgp: data, ..*old(self) }),
            addr == 0xff48 ==> *final(self) == (Pal { obp0: data, ..*old(self) }),
            addr == 0xff49 ==> *final(self) == (Pal { obp1: data, ..*old(self) }),
    {
        if addr == 0xff47 {
            self.bgp = data;
        } else if addr == 0xff48 {
            self.obp0 = data;
        } else {
            self.obp1 = data;
        }
    }
}

/// Color-mode palette RAM: 64 bytes for background palettes and 64 for
/// object palettes, each reached through an index register with an
/// auto-increment bit.
pub struct ColorPal {
    pub bgp_idx: u8,
    pub obp_idx: u8,
    pub bgp: Vec<u8>,
    pub obp: Vec<u8>,
}

impl ColorPal {
    pub open spec fn wf(&self) -> bool {
        self.bgp@.len() == 64 && self.obp@.len() == 64
    }

    /// Index register after a data write: the six index bits advance only
    /// when the auto-increment bit is set.
    pub open spec fn spec_idx_after_write(idx: u8) -> u8 {
        if idx & 0x80 != 0 {
            0x80 | ((((idx & 0x3f) + 1) as u8) & 0x3f)
        } else {
            idx
        }
    }

    pub fn default() -> (p: ColorPal)
        ensures
            p.wf(),
            p.bgp_idx == 0 && p.obp_idx == 0,
            forall|i: int| 0 <= i < 64 ==> p.bgp@[i] == 0xff,
            forall|i: int| 0 <= i < 64 ==> p.obp@[i] == 0xff,
    {
        let mut bgp: Vec<u8> = Vec::new();
        let mut obp: Vec<u8> = Vec::new();
        let mut i: usize = 0;
        while i < 64
            invariant
                i <= 64,
                bgp@.len() == i,
                obp@.len() == i,
                forall|j: int| 0 <= j < i ==> bgp@[j] == 0xff,
                forall|j: int| 0 <= j < i ==> obp@[j] == 0xff,
            decreases 64 - i,
        {
            bgp.push(0xff);
            obp.push(0xff);
            i = i + 1;
        }
        ColorPal { bgp_idx: 0, obp_idx: 0, bgp, obp }
    }

    /// A 15-bit palette RAM entry scaled to RGB: 5 bits per channel, red
    /// lowest, each shifted up to 8 bits.
    pub open spec fn spec_rgb(lo: u8, hi: u8) -> Color {
        Color {
            r: ((lo & 0x1f) << 3) as u8,
            g: ((((hi & 0x3) << 3) | (lo >> 5)) << 3) as u8,
            b: (((hi >> 2) & 0x1f) << 3) as u8,
        }
    }

    /// Display color of index `i` in background palette `pal`.
    pub open spec fn spec_bg_pal_color(&self, pal: int, i: int) -> Color {
        ColorPal::spec_rgb(self.bgp@[8 * pal + 2 * i], self.bgp@[8 * pal + 2 * i + 1])
    }

    /// Display color of index `i` in object palette `pal`.
    pub open spec fn spec_ob_pal_color(&self, pal: int, i: int) -> Color {
        ColorPal::spec_rgb(self.obp@[8 * pal + 2 * i], self.obp@[8 * pal + 2 * i + 1])
    }

    fn rgb(lo: u8, hi: u8) -> (c: Color)
        ensures
            c == ColorPal::spec_rgb(lo, hi),
    {
        let r = (lo & 0x1f) << 3;
        let g = (((hi & 0x3) << 3) | (lo >> 5)) << 3;
        let b = ((hi >> 2) & 0x1f) << 3;
        Color { r, g, b }
    }

    pub fn bg_pal_color(&self, pal: usize, i: usize) -> (c: Color)
        requires
            self.wf(),
            pal < 8,
            i < 4,
        ensures
            c == self.spec_bg_pal_color(pal as int, i as int),
    {
        let lo = self.bgp[8 * pal + 2 * i];
        let hi = self.bgp[8 * pal + 2 * i + 1];
        ColorPal::rgb(lo, hi)
    }

    pub fn ob_pal_color(&self, pal: usize, i: usize) -> (c: Color)
        requires
            self.wf(),
            pal < 8,
            i < 4,
        ensures
            c == self.spec_ob_pal_color(pal as int, i as int),
    {
        let lo = self.obp[8 * pal + 2 * i];
        let hi = self.obp[8 * pal + 2 * i + 1];
        ColorPal::rgb(lo, hi)
    }

    /// The color a blanked display shows in color mode: background
    /// palette 0, index 0.
    pub open spec fn spec_clear_color(&self) -> Color {
        self.spec_bg_pal_color(0, 0)
    }

    pub fn clear_color(&self) -> (c: Color)
        requires
            self.wf(),
        ensures
            c == self.spec_clear_color(),
    {
        self.bg_pal_color(0, 0)
    }

    pub open spec fn byte_at(&self, addr: u16) -> u8 {
        if addr == 0xff68 {
            self.bgp_idx
        } else if addr == 0xff69 {
            self.bgp@[(self.bgp_idx & 0x3f) as int]
        } else if addr == 0xff6a {
            self.obp_idx
        } else {
            self.obp@[(self.obp_idx & 0x3f) as int]
        }
    }

    pub fn read(&self, addr: u16) -> (r: u8)
        requires
            self.wf(),
            0xff68 <= addr <= 0xff6b,
        ensures
            r == self.byte_at(addr),
    {
        proof {
            crate::bits::lemma_mask_bound(self.bgp_idx, 0x3f);
            crate::bits::lemma_mask_bound(self.obp_idx, 0x3f);
        }
        if addr == 0xff68 {
            self.bgp_idx
        } else if addr == 0xff69 {
            self.bgp[(self.bgp_idx & 0x3f) as usize]
        } else if addr == 0xff6a {
            self.obp_idx
        } else {
            self.obp[(self.obp_idx & 0x3f) as usize]
        }
    }

    pub fn write(&mut self, addr: u16, data: u8)
        requires
            old(self).wf(),
            0xff68 <= addr <= 0xff6b,
        ensures
            final(self).wf(),
            addr == 0xff68 ==> *final(self) == (ColorPal { bgp_idx: data, ..*old(self) }),
            addr == 0xff69 ==> final(self).obp == old(self).obp && final(self).obp_idx == old(
                self,
            ).obp_idx && final(self).bgp@ == old(self).bgp@.update(
                (old(self).bgp_idx & 0x3f) as int,
                data,
            ) && final(self).bgp_idx == ColorPal::spec_idx_after_write(old(self).bgp_idx),
            addr == 0xff6a ==> *final(self) == (ColorPal { obp_idx: data, ..*old(self) }),
            addr == 0xff6b ==> final(self).bgp == old(self).bgp && final(self).bgp_idx == old(
                self,
            ).bgp_idx && final(self).obp@ == old(self).obp@.update(
                (old(self).obp_idx & 0x3f) as int,
                data,
            ) && final(self).obp_idx == ColorPal::spec_idx_after_write(old(self).obp_idx),
    {
        proof {
            crate::bits::lemma_mask_bound(self.bgp_idx, 0x3f);
            crate::bits::lemma_mask_bound(self.obp_idx, 0x3f);
        }
        if addr == 0xff68 {
            self.bgp_idx = data;
        } else if addr == 0xff69 {
            let i = (self.bgp_idx & 0x3f) as usize;
            self.bgp[i] = data;
            if self.bgp_idx & 0x80 != 0 {
                self.bgp_idx = 0x80 | ((self.bgp_idx & 0x3f) + 1) & 0x3f;
            }
        } else if addr == 0xff6a {
            self.obp_idx = data;
        } else {
            let i = (self.obp_idx & 0x3f) as usize;
            self.obp[i] = data;
            if self.obp_idx & 0x80 != 0 {
                self.obp_idx = 0x80 | ((self.obp_idx & 0x3f) + 1) & 0x3f;
            }
        }
    }
}

} // verus!
