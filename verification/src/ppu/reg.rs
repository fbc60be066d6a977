//! Raw display registers: control/status, scroll, line compare and window
//! position, with their bit-level read/write semantics.

use vstd::prelude::*;

verus! {

/// STAT interrupt-enable bit for the horizontal-blank phase.
pub const STAT_HBLANK_FLAG: u8 = 0x08;

/// STAT interrupt-enable bit for the vertical-blank phase.
pub const STAT_VBLANK_FLAG: u8 = 0x10;

/// STAT interrupt-enable bit for the sprite-search phase.
pub const STAT_SEARCH_FLAG: u8 = 0x20;

/// STAT interrupt-enable bit for the line-compare match.
pub const STAT_LYC_LY_FLAG: u8 = 0x40;

/// The renderer's current phase, encoded in the low two STAT bits.
#[derive(Clone, Copy, PartialEq, Eq, Structural, Debug)]
pub enum StatMode {
    Search,
    Pixels,
    HBlank,
    VBlank,
}

impl StatMode {
    /// Hardware encoding of the phase in STAT bits 0-1.
    pub open spec fn spec_bits(self) -> u8 {
        match self {
            StatMode::HBlank => 0,
            StatMode::VBlank => 1,
            StatMode::Search => 2,
            StatMode::Pixels => 3,
        }
    }

    #[verifier::when_used_as_spec(spec_bits)]
    pub fn bits(self) -> (b: u8)
        ensures
            b == self.spec_bits(),
    {
        match self {
            StatMode::HBlank => 0,
            StatMode::VBlank => 1,
            StatMode::Search => 2,
            StatMode::Pixels => 3,
        }
    }
}

/// Base address of a 32x32 tile map.
#[derive(Clone, Copy, PartialEq, Eq, Structural, Debug)]
pub enum TileMapAddr {
    X9800,
    X9C00,
}

impl TileMapAddr {
    pub open spec fn spec_base(self) -> u16 {
        match self {
            TileMapAddr::X9800 => 0x9800,
            TileMapAddr::X9C00 => 0x9c00,
        }
    }

    #[verifier::when_used_as_spec(spec_base)]
    pub fn base(self) -> (b: u16)
        ensures
            b == self.spec_base(),
    {
        match self {
            TileMapAddr::X9800 => 0x9800,
            TileMapAddr::X9C00 => 0x9c00,
        }
    }
}

/// Which table tile indices select pixel data from: the zero-based table at
/// `0x8000`, or the signed table re-based at `0x8800`.
#[derive(Clone, Copy, PartialEq, Eq, Structural, Debug)]
pub enum TileDataAddr {
    X8000,
    X8800,
}

/// LCDC (control) and STAT (status) registers.
pub struct LcdcStat {
    pub lcdc: u8,
    pub stat: u8,
}

impl Default for LcdcStat {
    fn default() -> (r: LcdcStat)
        ensures
            r.lcdc == 0x91,
            r.stat == 0,
    {
        LcdcStat { lcdc: 0x91, stat: 0 }
    }
}

impl LcdcStat {
    /// STAT with the writable bits (the interrupt enables, bits 3-6)
    /// replaced by `data`; phase and compare bits are read-only.
    pub open spec fn spec_stat_written(self, data: u8) -> u8 {
        (self.stat & 0x87) | (data & 0x78)
    }

    pub open spec fn byte_at(&self, addr: u16) -> u8 {
        if addr == 0xff40 {
            self.lcdc
        } else {
            self.stat | 0x80
        }
    }

    pub fn read(&self, addr: u16) -> (r: u8)
        requires
            addr == 0xff40 || addr == 0xff41,
        ensures
            r == self.byte_at(addr),
    {
        if addr == 0xff40 {
            self.lcdc
        } else {
            self.stat | 0x80
        }
    }

    pub fn write(&mut self, addr: u16, data: u8)
        requires
            addr == 0xff40 || addr == 0xff41,
        ensures
            addr == 0xff40 ==> *final(self) == (LcdcStat { lcdc: data, ..*old(self) }),
            addr == 0xff41 ==> *final(self) == (LcdcStat {
                stat: old(self).spec_stat_written(data),
                ..*old(self)
            }),
    {
        if addr == 0xff40 {
            self.lcdc = data;
        } else {
            self.stat = (self.stat & 0x87) | (data & 0x78);
        }
    }

    /// STAT with the phase field set to `mode`.
    pub open spec fn spec_stat_with_mode(stat: u8, mode: StatMode) -> u8 {
        (stat & 0xfc) | mode.spec_bits()
    }

    /// Encode the current phase into the low two STAT bits.
    pub fn stat_set_mode(&mut self, mode: StatMode)
        ensures
            *final(self) == (LcdcStat {
                stat: LcdcStat::spec_stat_with_mode(old(self).stat, mode),
                ..*old(self)
            }),
    {
        self.stat = (self.stat & 0xfc) | mode.bits();
    }

    /// Sprite height selected by LCDC bit 2: 8 or 16 pixels.
    pub open spec fn spec_ob_size(&self) -> u8 {
        if self.lcdc & 0x4 != 0 {
            16
        } else {
            8
        }
    }

    #[verifier::when_used_as_spec(spec_ob_size)]
    pub fn lcdc_ob_size(&self) -> (h: u8)
        ensures
            h == self.spec_ob_size(),
    {
        if self.lcdc & 0x4 != 0 {
            16
        } else {
            8
        }
    }

    /// Tile map the background reads, selected by LCDC bit 3.
    pub open spec fn spec_bg_tile_map(&self) -> TileMapAddr {
        if self.lcdc & 0x8 != 0 {
            TileMapAddr::X9C00
        } else {
            TileMapAddr::X9800
        }
    }

    #[verifier::when_used_as_spec(spec_bg_tile_map)]
    pub fn bg_tile_map(&self) -> (m: TileMapAddr)
        ensures
            m == self.spec_bg_tile_map(),
    {
        if self.lcdc & 0x8 != 0 {
            TileMapAddr::X9C00
        } else {
            TileMapAddr::X9800
        }
    }

    /// Tile map the window reads, selected by LCDC bit 6.
    pub open spec fn spec_win_tile_map(&self) -> TileMapAddr {
        if self.lcdc & 0x40 != 0 {
            TileMapAddr::X9C00
        } else {
            TileMapAddr::X9800
        }
    }

    #[verifier::when_used_as_spec(spec_win_tile_map)]
    pub fn win_tile_map(&self) -> (m: TileMapAddr)
        ensures
            m == self.spec_win_tile_map(),
    {
        if self.lcdc & 0x40 != 0 {
            TileMapAddr::X9C00
        } else {
            TileMapAddr::X9800
        }
    }

    /// Tile data table background and window share, LCDC bit 4.
    pub open spec fn spec_bg_win_tile_data(&self) -> TileDataAddr {
        if self.lcdc & 0x10 != 0 {
            TileDataAddr::X8000
        } else {
            TileDataAddr::X8800
        }
    }

    #[verifier::when_used_as_spec(spec_bg_win_tile_data)]
    pub fn bg_win_tile_data(&self) -> (d: TileDataAddr)
        ensures
            d == self.spec_bg_win_tile_data(),
    {
        if self.lcdc & 0x10 != 0 {
            TileDataAddr::X8000
        } else {
            TileDataAddr::X8800
        }
    }
}

/// Background scroll registers SCY/SCX.
#[derive(Clone, Copy, PartialEq, Eq, Structural, Debug)]
pub struct Scroll {
    pub scy: u8,
    pub scx: u8,
}

impl Default for Scroll {
    fn default() -> (r: Scroll)
        ensures
            r.scy == 0 && r.scx == 0,
    {
        Scroll { scy: 0, scx: 0 }
    }
}

impl Scroll {
    pub open spec fn byte_at(&self, addr: u16) -> u8 {
        if addr == 0xff42 {
            self.scy
        } else {
            self.scx
        }
    }

    pub fn read(&self, addr: u16) -> (r: u8)
        requires
            addr == 0xff42 || addr == 0xff43,
        ensures
            r == self.byte_at(addr),
    {
        if addr == 0xff42 {
            self.scy
        } else {
            self.scx
        }
    }

    pub fn write(&mut self, addr: u16, data: u8)
        requires
            addr == 0xff42 || addr == 0xff43,
        ensures
            addr == 0xff42 ==> *final(self) == (Scroll { scy: data, ..*old(self) }),
            addr == 0xff43 ==> *final(self) == (Scroll { scx: data, ..*old(self) }),
    {
        if addr == 0xff42 {
            self.scy = data;
        } else {
            self.scx = data;
        }
    }
}

/// Current scanline LY and the host-written compare target LYC.
#[derive(Clone, Copy, PartialEq, Eq, Structural, Debug)]
pub struct Line {
    pub ly: u8,
    pub lyc: u8,
}

impl Default for Line {
    fn default() -> (r: Line)
        ensures
            r.ly == 0 && r.lyc == 0,
    {
        Line { ly: 0, lyc: 0 }
    }
}

/// Window position registers WY/WX.
#[derive(Clone, Copy, PartialEq, Eq, Structural, Debug)]
pub struct Window {
    pub wy: u8,
    pub wx: u8,
}

impl Default for Window {
    fn default() -> (r: Window)
        ensures
            r.wy == 0 && r.wx == 0,
    {
        Window { wy: 0, wx: 0 }
    }
}

impl Window {
    pub open spec fn byte_at(&self, addr: u16) -> u8 {
        if addr == 0xff4a {
            self.wy
        } else {
            self.wx
        }
    }

    pub fn read(&self, addr: u16) -> (r: u8)
        requires
            addr == 0xff4a || addr == 0xff4b,
        ensures
            r == self.byte_at(addr),
    {
        if addr == 0xff4a {
            self.wy
        } else {
            self.wx
        }
    }

    pub fn write(&mut self, addr: u16, data: u8)
        requires
            addr == 0xff4a || addr == 0xff4b,
        ensures
            addr == 0xff4a ==> *final(self) == (Window { wy: data, ..*old(self) }),
            addr == 0xff4b ==> *final(self) == (Window { wx: data, ..*old(self) }),
    {
        if addr == 0xff4a {
            self.wy = data;
        } else {
            self.wx = data;
        }
    }
}

} // verus!
