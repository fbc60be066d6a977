//! The pixel processing unit: a dot-accurate timing state machine over four
//! phases per scanline, a scanline renderer compositing background, window
//! and sprites, and the memory-mapped register file that drives both.

use vstd::prelude::*;
use crate::device::Device;
use crate::interrupt::Flag;
use crate::Mode;

pub mod laws;
pub mod oam;
pub mod palette;
pub mod reg;
pub mod vram;

use oam::{Entry, Oam};
use palette::{Color, ColorPal, Pal};
use reg::{LcdcStat, Line, Scroll, StatMode, TileDataAddr, TileMapAddr, Window};
use reg::{STAT_HBLANK_FLAG, STAT_LYC_LY_FLAG, STAT_SEARCH_FLAG, STAT_VBLANK_FLAG};
use vram::VRam;

verus! {

pub const LCD_WIDTH: usize = 160;

pub const LCD_HEIGHT: usize = 144;

/// Duration of the sprite-search phase, in dots.
pub const SEARCH: u64 = 80;

/// Duration of the pixel-transfer phase: a fixed approximation of the
/// variable 168-291 dot hardware range.
pub const PIXELS: u64 = 230;

/// Duration of the horizontal-blank phase.
pub const HBLANK: u64 = 147;

/// Duration of the vertical blank: ten scanlines of 456 dots.
pub const VBLANK: u64 = 4560;

/// Display scanline sink: receives the finished frame once per frame.
/// The sink is host-supplied and carries no contract of its own; the
/// machine counts the frames it hands over in [`Ppu::presented`], so the
/// contracts of `step` and of the register writes can say when a present
/// happens.
pub trait Video {
    fn draw_video(&mut self, pixels: &Vec<Vec<Color>>);
}

impl Video for () {
    fn draw_video(&mut self, _pixels: &Vec<Vec<Color>>) {
    }
}

/// A sink that only counts the frames presented to it; handy for tests and
/// for driving the machine headless.
pub struct FrameCounter {
    pub frames: u64,
}

impl FrameCounter {
    pub fn new() -> (c: FrameCounter)
        ensures
            c.frames == 0,
    {
        FrameCounter { frames: 0 }
    }
}

impl Video for FrameCounter {
    fn draw_video(&mut self, _pixels: &Vec<Vec<Color>>)
        ensures
            final(self).frames == if old(self).frames < u64::MAX {
                old(self).frames + 1
            } else {
                old(self).frames as int
            },
    {
        if self.frames < u64::MAX {
            self.frames = self.frames + 1;
        }
    }
}

/// 2-bit color index read from two bitplane bytes at bit `col`: the low
/// plane gives bit 0, the high plane bit 1.
pub open spec fn tile_pixel_index(lo: u8, hi: u8, col: int) -> u8 {
    ((lo >> col as u8) & 1) | (((hi >> col as u8) & 1) << 1)
}

/// A pixel whose bitplanes are both zero decodes to index 0, whatever the
/// column, so flips cannot change it.
pub proof fn lemma_zero_planes_decode_to_zero(col: int)
    ensures
        tile_pixel_index(0, 0, col) == 0,
{
    let c = col as u8;
    assert(((0u8 >> c) & 1) | (((0u8 >> c) & 1) << 1) == 0) by (bit_vector);
}

/// The decoded index fits in two bits.
pub proof fn lemma_tile_pixel_index_bound(lo: u8, hi: u8, col: int)
    ensures
        tile_pixel_index(lo, hi, col) <= 3,
{
    let c = col as u8;
    assert(((lo >> c) & 1) | (((hi >> c) & 1) << 1) <= 3) by (bit_vector);
}

/// Extract one pixel's 2-bit color index.
fn decode_pixel(lo: u8, hi: u8, col: u8) -> (ci: u8)
    requires
        col < 8,
    ensures
        ci == tile_pixel_index(lo, hi, col as int),
        ci <= 3,
{
    proof {
        lemma_tile_pixel_index_bound(lo, hi, col as int);
    }
    ((lo >> col) & 1) | (((hi >> col) & 1) << 1)
}

/// Byte offset of a tile row within a VRAM bank. The `0x8800` table
/// reinterprets the tile index as signed and re-bases it by 128.
pub open spec fn spec_tile_offset(data: TileDataAddr, tile: u8, row: int) -> int {
    match data {
        TileDataAddr::X8000 => 16 * tile + 2 * row,
        TileDataAddr::X8800 => 0x800 + 16 * ((tile + 128) % 256) + 2 * row,
    }
}

fn tile_offset(data: TileDataAddr, tile: u8, row: usize) -> (r: usize)
    requires
        row < 8,
    ensures
        r == spec_tile_offset(data, tile, row as int),
        r + 1 < 0x2000,
{
    match data {
        TileDataAddr::X8000 => 16 * (tile as usize) + row * 2,
        TileDataAddr::X8800 => 0x800 + 16 * ((tile as usize + 128) % 256) + row * 2,
    }
}

/// The color and palette index of one tile-map pixel. `(y, x)` are
/// coordinates within the 256x256 map; `map` selects the tile map, `data`
/// the tile-data table. In color mode the map's attribute byte (bank 1)
/// adds flips, a bank select and a palette; the reserved shadow value 4
/// marks an opaque pixel whose tile claims priority over all sprites.
pub open spec fn spec_point_color(
    mode: Mode,
    vram: VRam,
    pal: Pal,
    cpal: ColorPal,
    y: int,
    x: int,
    map: TileMapAddr,
    data: TileDataAddr,
) -> (Color, u8) {
    let ti = map.spec_base() - 0x8000 + 32 * (y / 8) + (x / 8);
    let tile = vram.bank_view(0)[ti];
    let flags = vram.bank_view(1)[ti];
    let col0 = 7 - (x % 8);
    let row0 = y % 8;
    let col = if mode is CGB && flags & 0x20 != 0 {
        7 - col0
    } else {
        col0
    };
    let row = if mode is CGB && flags & 0x40 != 0 {
        7 - row0
    } else {
        row0
    };
    let offset = spec_tile_offset(data, tile, row);
    let bank = if mode is GB {
        0int
    } else {
        ((flags >> 3) & 1) as int
    };
    let ci = tile_pixel_index(vram.bank_view(bank)[offset], vram.bank_view(bank)[offset + 1], col);
    if mode is GB {
        (pal.spec_bg_color(ci as int), ci)
    } else {
        let color = cpal.spec_bg_pal_color((flags & 7) as int, ci as int);
        if flags & 0x80 != 0 && ci != 0 {
            (color, 4)
        } else {
            (color, ci)
        }
    }
}

/// One background pixel of scanline `ly` at screen column `x`: the scrolled
/// coordinate wraps at the 256-pixel map edge.
pub open spec fn spec_bg_pixel(
    mode: Mode,
    vram: VRam,
    pal: Pal,
    cpal: ColorPal,
    lcdc_stat: LcdcStat,
    scroll: Scroll,
    ly: int,
    x: int,
) -> (Color, u8) {
    spec_point_color(
        mode,
        vram,
        pal,
        cpal,
        (ly + scroll.scy) % 256,
        (x + scroll.scx) % 256,
        lcdc_stat.spec_bg_tile_map(),
        lcdc_stat.spec_bg_win_tile_data(),
    )
}

/// Leftmost screen column the window occupies: its X register is offset by
/// seven, clamped at the screen edge.
pub open spec fn spec_win_x0(wx: u8) -> int {
    if wx >= 7 {
        wx - 7
    } else {
        0
    }
}

/// One window pixel of scanline `ly` at screen column `x`; only defined
/// where the window is visible (`ly >= wy`, `x >= spec_win_x0(wx)`).
pub open spec fn spec_win_pixel(
    mode: Mode,
    vram: VRam,
    pal: Pal,
    cpal: ColorPal,
    lcdc_stat: LcdcStat,
    win: Window,
    ly: int,
    x: int,
) -> (Color, u8) {
    spec_point_color(
        mode,
        vram,
        pal,
        cpal,
        ly - win.wy,
        x - spec_win_x0(win.wx),
        lcdc_stat.spec_win_tile_map(),
        lcdc_stat.spec_bg_win_tile_data(),
    )
}

/// The color index of the sprite `e` at screen position (`ly`, `lcd_x`),
/// for sprite height `h`; only defined where the sprite covers the pixel.
/// For 16-pixel sprites the hardware forces the tile index even.
pub open spec fn spec_sprite_pixel_index(
    mode: Mode,
    vram: VRam,
    e: Entry,
    h: int,
    ly: int,
    lcd_x: int,
) -> u8 {
    let row0 = ly - (e.ypos - 16);
    let col0 = 7 - (lcd_x - (e.xpos - 8));
    let row = if e.flags & 0x40 != 0 {
        h - 1 - row0
    } else {
        row0
    };
    let col = if e.flags & 0x20 != 0 {
        7 - col0
    } else {
        col0
    };
    let tile = if h == 16 {
        e.tile & 0xfe
    } else {
        e.tile
    };
    let offset = 16 * tile + 2 * row;
    let bank = if mode is GB {
        0int
    } else {
        ((e.flags >> 3) & 1) as int
    };
    tile_pixel_index(vram.bank_view(bank)[offset], vram.bank_view(bank)[offset + 1], col)
}

/// Whether a decoded sprite pixel is drawn over the background already in
/// the framebuffer: index 0 is transparent; a sprite marked "behind
/// background" loses wherever the shadow buffer shows an opaque background
/// index; shadow value 4 is the background-priority sentinel that beats
/// every sprite.
pub open spec fn sprite_pixel_visible(ci: u8, flags: u8, shadow: u8) -> bool {
    !(ci == 0 || (flags & 0x80 != 0 && shadow != 0) || shadow == 4)
}

/// Runtime mirror of [`sprite_pixel_visible`].
pub fn sprite_pixel_shown(ci: u8, flags: u8, shadow: u8) -> (r: bool)
    ensures
        r == sprite_pixel_visible(ci, flags, shadow),
{
    !(ci == 0 || (flags & 0x80 != 0 && shadow != 0) || shadow == 4)
}

/// The color sprite `e` paints a pixel of index `ci` with.
pub open spec fn spec_sprite_color(mode: Mode, pal: Pal, cpal: ColorPal, flags: u8, ci: u8) -> Color {
    if mode is GB {
        pal.spec_obp_color(((flags >> 4) & 1) as int, ci as int)
    } else {
        cpal.spec_ob_pal_color((flags & 7) as int, ci as int)
    }
}

/// The scanline row after sprite `e` is drawn over it, for columns below
/// `upto`: a sprite paints the eight columns starting at `xpos - 8`, where
/// it covers the line and wins the priority test against `shadow`.
pub open spec fn spec_apply_sprite_upto(
    row: Seq<Color>,
    shadow: Seq<u8>,
    mode: Mode,
    vram: VRam,
    pal: Pal,
    cpal: ColorPal,
    h: int,
    e: Entry,
    ly: int,
    upto: int,
) -> Seq<Color> {
    Seq::new(
        row.len(),
        |lcd_x: int|
            {
                let ci = spec_sprite_pixel_index(mode, vram, e, h, ly, lcd_x);
                if lcd_x < upto && oam::covers_line(e, ly, h) && e.xpos - 8 <= lcd_x < e.xpos
                    && sprite_pixel_visible(ci, e.flags, shadow[lcd_x]) {
                    spec_sprite_color(mode, pal, cpal, e.flags, ci)
                } else {
                    row[lcd_x]
                }
            },
    )
}

/// The scanline row after the sprite pass: all 40 OAM entries drawn in
/// reverse index order (entry 0 last, so the lowest index wins overlaps);
/// `n` is the number of entries already processed, counted from index 39
/// downward.
pub open spec fn spec_sprites_fold(
    row: Seq<Color>,
    shadow: Seq<u8>,
    mode: Mode,
    vram: VRam,
    pal: Pal,
    cpal: ColorPal,
    h: int,
    entries: Seq<Entry>,
    ly: int,
    n: int,
) -> Seq<Color>
    decreases n,
{
    if n <= 0 {
        row
    } else {
        spec_apply_sprite_upto(
            spec_sprites_fold(row, shadow, mode, vram, pal, cpal, h, entries, ly, n - 1),
            shadow,
            mode,
            vram,
            pal,
            cpal,
            h,
            entries[40 - n],
            ly,
            row.len() as int,
        )
    }
}

/// The framebuffer and shadow rows of scanline `ly` after a full render
/// pass: background (always drawn in color mode, gated by LCDC bit 0 in
/// monochrome mode), then window (LCDC bit 5), then sprites (LCDC bit 1).
/// Sprites leave the shadow row untouched.
pub open spec fn spec_draw_line(
    mode: Mode,
    vram: VRam,
    pal: Pal,
    cpal: ColorPal,
    lcdc_stat: LcdcStat,
    scroll: Scroll,
    win: Window,
    entries: Seq<Entry>,
    row: Seq<Color>,
    shadow: Seq<u8>,
    ly: int,
) -> (Seq<Color>, Seq<u8>) {
    let bg_row = spec_draw_line_bg_row(mode, vram, pal, cpal, lcdc_stat, scroll, row, ly);
    let bg_shadow = spec_draw_line_bg_shadow(mode, vram, pal, cpal, lcdc_stat, scroll, shadow, ly);
    let win_row = spec_draw_line_win_row(mode, vram, pal, cpal, lcdc_stat, win, bg_row, ly);
    let win_shadow = spec_draw_line_win_shadow(mode, vram, pal, cpal, lcdc_stat, win, bg_shadow, ly);
    let ob_row = if lcdc_stat.lcdc & 0x2 != 0 {
        spec_sprites_fold(
            win_row,
            win_shadow,
            mode,
            vram,
            pal,
            cpal,
            lcdc_stat.spec_ob_size() as int,
            entries,
            ly,
            40,
        )
    } else {
        win_row
    };
    (ob_row, win_shadow)
}

/// The background stage of [`spec_draw_line`].
pub open spec fn spec_draw_line_bg_row(
    mode: Mode,
    vram: VRam,
    pal: Pal,
    cpal: ColorPal,
    lcdc_stat: LcdcStat,
    scroll: Scroll,
    row: Seq<Color>,
    ly: int,
) -> Seq<Color> {
    if (mode is CGB) || lcdc_stat.lcdc & 0x1 != 0 {
        Seq::new(row.len(), |x: int| spec_bg_pixel(mode, vram, pal, cpal, lcdc_stat, scroll, ly, x).0)
    } else {
        row
    }
}

/// The background stage of the shadow row of [`spec_draw_line`].
pub open spec fn spec_draw_line_bg_shadow(
    mode: Mode,
    vram: VRam,
    pal: Pal,
    cpal: ColorPal,
    lcdc_stat: LcdcStat,
    scroll: Scroll,
    shadow: Seq<u8>,
    ly: int,
) -> Seq<u8> {
    if (mode is CGB) || lcdc_stat.lcdc & 0x1 != 0 {
        Seq::new(
            shadow.len(),
            |x: int| spec_bg_pixel(mode, vram, pal, cpal, lcdc_stat, scroll, ly, x).1,
        )
    } else {
        shadow
    }
}

/// The window stage of [`spec_draw_line`].
pub open spec fn spec_draw_line_win_row(
    mode: Mode,
    vram: VRam,
    pal: Pal,
    cpal: ColorPal,
    lcdc_stat: LcdcStat,
    win: Window,
    row: Seq<Color>,
    ly: int,
) -> Seq<Color> {
    if lcdc_stat.lcdc & 0x20 != 0 && ly >= win.wy {
        Seq::new(
            row.len(),
            |x: int|
                if spec_win_x0(win.wx) <= x {
                    spec_win_pixel(mode, vram, pal, cpal, lcdc_stat, win, ly, x).0
                } else {
                    row[x]
                },
        )
    } else {
        row
    }
}

/// The window stage of the shadow row of [`spec_draw_line`].
pub open spec fn spec_draw_line_win_shadow(
    mode: Mode,
    vram: VRam,
    pal: Pal,
    cpal: ColorPal,
    lcdc_stat: LcdcStat,
    win: Window,
    shadow: Seq<u8>,
    ly: int,
) -> Seq<u8> {
    if lcdc_stat.lcdc & 0x20 != 0 && ly >= win.wy {
        Seq::new(
            shadow.len(),
            |x: int|
                if spec_win_x0(win.wx) <= x {
                    spec_win_pixel(mode, vram, pal, cpal, lcdc_stat, win, ly, x).1
                } else {
                    shadow[x]
                },
        )
    } else {
        shadow
    }
}

/// One step of the timing state machine: the phase, dot counter and line
/// after the step, and the side effects the transition asks for.
#[derive(Clone, Copy, PartialEq, Eq, Structural, Debug)]
pub struct Transition {
    pub mode: StatMode,
    pub dots: u64,
    pub ly: u8,
    /// Render scanline `ly` (the line the step started on).
    pub render: bool,
    /// Re-run the sprite search for the new line.
    pub search: bool,
    /// Hand the finished frame to the video sink.
    pub present: bool,
    /// Request a vertical-blank interrupt.
    pub vblank_irq: bool,
    /// Request a STAT interrupt from one of the phase-change enables.
    pub stat_irq: bool,
}

/// The line counter during vertical blank: lines 144-152 follow the dot
/// counter; on line 153 it falls back to 0 once the dots pass the middle of
/// the line, a real-hardware quirk, and then stays there.
pub open spec fn spec_vblank_ly(dots: u64, ly: u8) -> u8 {
    let l = if ly != 0 {
        (144 + dots / 456) as u8
    } else {
        0
    };
    if l == 153 && dots % 456 > 228 {
        0
    } else {
        l
    }
}

/// Where one `step` call takes the state machine, given the accumulated
/// dot counter `dots` (after adding the new cycles), the current line and
/// the STAT enables. At most one phase boundary is crossed per call; the
/// dots beyond the finished phase carry over.
pub open spec fn spec_transition(mode: StatMode, dots: u64, ly: u8, stat: u8) -> Transition {
    let none = Transition {
        mode,
        dots,
        ly,
        render: false,
        search: false,
        present: false,
        vblank_irq: false,
        stat_irq: false,
    };
    match mode {
        StatMode::Search => if dots >= SEARCH {
            Transition { mode: StatMode::Pixels, dots: (dots % SEARCH) as u64, ..none }
        } else {
            none
        },
        StatMode::Pixels => if dots >= PIXELS {
            Transition {
                mode: StatMode::HBlank,
                dots: (dots % PIXELS) as u64,
                render: true,
                stat_irq: stat & STAT_HBLANK_FLAG != 0,
                ..none
            }
        } else {
            none
        },
        StatMode::HBlank => if dots >= HBLANK {
            if ly == 143 {
                Transition {
                    mode: StatMode::VBlank,
                    dots: (dots % HBLANK) as u64,
                    ly: 144,
                    present: true,
                    vblank_irq: true,
                    stat_irq: stat & STAT_VBLANK_FLAG != 0,
                    ..none
                }
            } else {
                Transition {
                    mode: StatMode::Search,
                    dots: (dots % HBLANK) as u64,
                    ly: (ly + 1) as u8,
                    search: true,
                    stat_irq: stat & STAT_SEARCH_FLAG != 0,
                    ..none
                }
            }
        } else {
            none
        },
        StatMode::VBlank => if dots >= VBLANK {
            Transition {
                mode: StatMode::Search,
                dots: (dots % VBLANK) as u64,
                ly: 0,
                stat_irq: stat & STAT_SEARCH_FLAG != 0,
                ..none
            }
        } else {
            Transition { ly: spec_vblank_ly(dots, ly), ..none }
        },
    }
}

/// STAT after a step: the compare bit tracks `ly == lyc` and the low two
/// bits encode the new phase; the enables keep their values.
pub open spec fn spec_stat_after(stat: u8, mode: StatMode, ly: u8, lyc: u8) -> u8 {
    let s = if ly == lyc {
        stat | 0x04
    } else {
        stat & 0xfb
    };
    LcdcStat::spec_stat_with_mode(s, mode)
}

/// One pixel of the tile-data dump: 16 tiles per row of the 128x128 grid,
/// two bitplane bytes per tile row, shown in grayscale.
pub open spec fn spec_tile_data_pixel(vram: VRam, data: TileDataAddr, bank: int, i: int) -> Color {
    let y = i / 128;
    let x = i % 128;
    let tile = 16 * (y / 8) + (x / 8);
    let col = 7 - (x % 8);
    let row = y % 8;
    let offset = match data {
        TileDataAddr::X8000 => 16 * tile + 2 * row,
        TileDataAddr::X8800 => 0x800 + 16 * tile + 2 * row,
    };
    palette::spec_grayscale(
        tile_pixel_index(vram.bank_view(bank)[offset], vram.bank_view(bank)[offset + 1], col) as int,
    )
}

/// The pixel processing unit.
pub struct Ppu<V: Video> {
    pub video: V,
    pub mode: Mode,
    /// Elapsed dots within the current phase; may briefly run past the
    /// phase length until the next transition consumes it.
    pub dots: u64,
    pub buffer: Vec<Vec<Color>>,
    /// Which background/window palette index produced each pixel, kept in
    /// lock-step with `buffer`; sprites consult it and never write it.
    pub color_index: Vec<Vec<u8>>,
    pub stat_mode: StatMode,
    pub vram: VRam,
    pub oam: Oam,
    pub lcdc_stat: LcdcStat,
    pub scroll: Scroll,
    pub line: Line,
    pub win: Window,
    pub pal: Pal,
    pub color_pal: ColorPal,
    pub vblank_int: Option<Flag>,
    pub lcdc_int: Option<Flag>,
    /// How many frames have been handed to the video sink: advanced next
    /// to every `draw_video` call, so contracts can count presents.
    pub presented: Ghost<nat>,
}

impl<V: Video> Ppu<V> {
    pub open spec fn wf(&self) -> bool {
        &&& self.buffer@.len() == 144
        &&& forall|y: int| 0 <= y < 144 ==> (#[trigger] self.buffer@[y])@.len() == 160
        &&& self.color_index@.len() == 144
        &&& forall|y: int| 0 <= y < 144 ==> (#[trigger] self.color_index@[y])@.len() == 160
        &&& self.vram.wf()
        &&& self.oam.wf()
        &&& self.color_pal.wf()
        &&& (self.stat_mode is VBlank ==> self.line.ly == 0 || 144 <= self.line.ly <= 153)
        &&& (!(self.stat_mode is VBlank) ==> self.line.ly <= 143)
    }

    /// The framebuffer rows, as sequences of pixels.
    pub open spec fn buffer_view(&self) -> Seq<Seq<Color>> {
        Seq::new(self.buffer@.len(), |y: int| self.buffer@[y]@)
    }

    /// The shadow-buffer rows, as sequences of indices.
    pub open spec fn shadow_view(&self) -> Seq<Seq<u8>> {
        Seq::new(self.color_index@.len(), |y: int| self.color_index@[y]@)
    }

    pub fn new(mode: Mode, output: V) -> (p: Ppu<V>)
        ensures
            p.wf(),
            p.video == output,
            p.mode == mode,
            p.dots == 0,
            p.stat_mode is HBlank,
            p.line.ly == 0 && p.line.lyc == 0,
            p.vblank_int is None && p.lcdc_int is None,
            p.lcdc_stat.lcdc == 0x91 && p.lcdc_stat.stat == 0,
            p.scroll.scx == 0 && p.scroll.scy == 0,
            p.win.wx == 0 && p.win.wy == 0,
            forall|y: int, x: int|
                #![trigger p.buffer@[y]@[x]]
                0 <= y < 144 && 0 <= x < 160 ==> p.buffer@[y]@[x] == (Color {
                    r: 0xff,
                    g: 0xff,
                    b: 0xff,
                }),
            forall|y: int, x: int|
                #![trigger p.color_index@[y]@[x]]
                0 <= y < 144 && 0 <= x < 160 ==> p.color_index@[y]@[x] == 0,
            p.vram.select == 0,
            forall|i: int, j: int|
                #![trigger p.vram.banks@[i]@[j]]
                0 <= i < 2 && 0 <= j < 0x2000 ==> p.vram.banks@[i]@[j] == 0,
            forall|i: int|
                0 <= i < 40 ==> #[trigger] p.oam.entries@[i] == (Entry {
                    ypos: 0,
                    xpos: 0,
                    tile: 0,
                    flags: 0,
                }),
            p.oam.visible@ == Seq::<u8>::empty(),
            p.pal.bgp == 0xfc && p.pal.obp0 == 0xff && p.pal.obp1 == 0xff,
            forall|i: int| 0 <= i < 4 ==> #[trigger] p.pal.colors@[i] == palette::spec_grayscale(i),
            p.color_pal.bgp_idx == 0 && p.color_pal.obp_idx == 0,
            p.presented@ == 0,
            forall|i: int| 0 <= i < 64 ==> #[trigger] p.color_pal.bgp@[i] == 0xff,
            forall|i: int| 0 <= i < 64 ==> #[trigger] p.color_pal.obp@[i] == 0xff,
    {
        let mut buffer: Vec<Vec<Color>> = Vec::new();
        let mut color_index: Vec<Vec<u8>> = Vec::new();
        let mut y: usize = 0;
        while y < 144
            invariant
                y <= 144,
                buffer@.len() == y,
                color_index@.len() == y,
                forall|k: int| 0 <= k < y ==> (#[trigger] buffer@[k])@.len() == 160,
                forall|k: int| 0 <= k < y ==> (#[trigger] color_index@[k])@.len() == 160,
                forall|k: int, x: int|
                    #![trigger buffer@[k]@[x]]
                    0 <= k < y && 0 <= x < 160 ==> buffer@[k]@[x] == (Color {
                        r: 0xff,
                        g: 0xff,
                        b: 0xff,
                    }),
                forall|k: int, x: int|
                    #![trigger color_index@[k]@[x]]
                    0 <= k < y && 0 <= x < 160 ==> color_index@[k]@[x] == 0,
            decreases 144 - y,
        {
            let mut row: Vec<Color> = Vec::new();
            let mut shadow_row: Vec<u8> = Vec::new();
            let mut x: usize = 0;
            while x < 160
                invariant
                    x <= 160,
                    row@.len() == x,
                    shadow_row@.len() == x,
                    forall|k: int|
                        0 <= k < x ==> row@[k] == (Color { r: 0xff, g: 0xff, b: 0xff }),
                    forall|k: int| 0 <= k < x ==> shadow_row@[k] == 0,
                decreases 160 - x,
            {
                row.push(Color { r: 0xff, g: 0xff, b: 0xff });
                shadow_row.push(0);
                x = x + 1;
            }
            buffer.push(row);
            color_index.push(shadow_row);
            y = y + 1;
        }
        Ppu {
            dots: 0,
            video: output,
            mode,
            buffer,
            color_index,
            vram: VRam::default(),
            oam: Oam::default(),
            stat_mode: StatMode::HBlank,
            lcdc_stat: LcdcStat::default(),
            scroll: Scroll::default(),
            line: Line::default(),
            win: Window::default(),
            pal: Pal::default(),
            color_pal: ColorPal::default(),
            vblank_int: None,
            lcdc_int: None,
            presented: Ghost(0),
        }
    }

    pub fn lcdc_stat(&self) -> (r: &LcdcStat)
        ensures
            *r == self.lcdc_stat,
    {
        &self.lcdc_stat
    }

    pub fn win(&self) -> (r: &Window)
        ensures
            *r == self.win,
    {
        &self.win
    }

    pub fn vram_mut(&mut self) -> (r: &mut VRam)
        ensures
            *r == old(self).vram,
            *final(self) == (Ppu { vram: *final(r), ..*old(self) }),
    {
        &mut self.vram
    }

    /// Return the color palette register
    pub fn color_pal(&self) -> (r: &ColorPal)
        ensures
            *r == self.color_pal,
    {
        &self.color_pal
    }

    /// Return monochrome-mode palette registers.
    pub fn pal(&self) -> (r: &Pal)
        ensures
            *r == self.pal,
    {
        &self.pal
    }

    /// Return monochrome-mode palette registers as mutable.
    pub fn pal_mut(&mut self) -> (r: &mut Pal)
        ensures
            *r == old(self).pal,
            *final(self) == (Ppu { pal: *final(r), ..*old(self) }),
    {
        &mut self.pal
    }

    pub fn video(&self) -> (r: &V)
        ensures
            *r == self.video,
    {
        &self.video
    }

    pub fn video_mut(&mut self) -> (r: &mut V)
        ensures
            *r == old(self).video,
            *final(self) == (Ppu { video: *final(r), ..*old(self) }),
    {
        &mut self.video
    }

    /// The framebuffer pixel at row `y`, column `x`.
    pub fn pixel(&self, y: usize, x: usize) -> (c: Color)
        requires
            self.wf(),
            y < 144,
            x < 160,
        ensures
            c == self.buffer@[y as int]@[x as int],
    {
        self.buffer[y][x]
    }

    /// The shadow-buffer entry at row `y`, column `x`.
    pub fn shadow_index(&self, y: usize, x: usize) -> (i: u8)
        requires
            self.wf(),
            y < 144,
            x < 160,
        ensures
            i == self.color_index@[y as int]@[x as int],
    {
        self.color_index[y][x]
    }

    /// Hand out the pending vertical-blank interrupt, clearing it.
    pub fn take_vblank_int(&mut self) -> (r: Option<Flag>)
        ensures
            r == old(self).vblank_int,
            *final(self) == (Ppu { vblank_int: None, ..*old(self) }),
    {
        self.vblank_int.take()
    }

    /// Hand out the pending STAT interrupt, clearing it.
    pub fn take_lcdc_int(&mut self) -> (r: Option<Flag>)
        ensures
            r == old(self).lcdc_int,
            *final(self) == (Ppu { lcdc_int: None, ..*old(self) }),
    {
        self.lcdc_int.take()
    }

    /// `b` differs from `a` at most in the framebuffer and shadow buffer.
    pub open spec fn same_except_frame(a: &Ppu<V>, b: &Ppu<V>) -> bool {
        &&& b.video == a.video
        &&& b.mode == a.mode
        &&& b.dots == a.dots
        &&& b.stat_mode == a.stat_mode
        &&& b.vram == a.vram
        &&& b.oam == a.oam
        &&& b.lcdc_stat == a.lcdc_stat
        &&& b.scroll == a.scroll
        &&& b.line == a.line
        &&& b.win == a.win
        &&& b.pal == a.pal
        &&& b.color_pal == a.color_pal
        &&& b.vblank_int == a.vblank_int
        &&& b.lcdc_int == a.lcdc_int
        &&& b.presented == a.presented
    }

    /// Fetch the pixel color and palette index at a coordinate relative to
    /// the tile map origin.
    pub fn point_color(&self, y: usize, x: usize, map: TileMapAddr, data: TileDataAddr) -> (r: (
        Color,
        u8,
    ))
        requires
            self.wf(),
            y < 256,
            x < 256,
        ensures
            r == spec_point_color(
                self.mode,
                self.vram,
                self.pal,
                self.color_pal,
                y as int,
                x as int,
                map,
                data,
            ),
            r.1 <= 4,
    {
        let ti = (map.base() - 0x8000) as usize + 32 * (y / 8) + x / 8;
        let tile = self.vram.bank(0)[ti];
        let flags = self.vram.bank(1)[ti];
        let mut col = 7 - (x % 8);
        let mut row = y % 8;
        if let Mode::CGB = self.mode {
            if flags & 0x20 != 0 {
                col = 7 - col;
            }
            if flags & 0x40 != 0 {
                row = 7 - row;
            }
        }
        let offset = tile_offset(data, tile, row);
        let bank = match self.mode {
            Mode::GB => 0,
            Mode::CGB => ((flags >> 3) & 0x1) as usize,
        };
        proof {
            crate::bits::lemma_mask_bound(flags >> 3, 0x1);
            crate::bits::lemma_mask_bound(flags, 0x7);
        }
        let lo = self.vram.bank(bank)[offset];
        let hi = self.vram.bank(bank)[offset + 1];
        let ci = decode_pixel(lo, hi, col as u8);
        match self.mode {
            Mode::GB => (self.pal.bg_color(ci as usize), ci),
            Mode::CGB => {
                let palette = (flags & 0x7) as usize;
                let color = self.color_pal.bg_pal_color(palette, ci as usize);
                if flags & 0x80 != 0 && ci != 0 {
                    (color, 4)
                } else {
                    (color, ci)
                }
            },
        }
    }

    /// Draw the background layer of scanline `ly` into columns
    /// `offset..offset + dots`, recording each pixel's palette index in the
    /// shadow buffer.
    fn draw_bg(&mut self, ly: u8, offset: usize, dots: usize)
        requires
            old(self).wf(),
            ly < 144,
            offset + dots <= 160,
        ensures
            final(self).wf(),
            Self::same_except_frame(old(self), final(self)),
            final(self).buffer@.len() == 144,
            final(self).color_index@.len() == 144,
            forall|yy: int|
                0 <= yy < 144 && yy != ly ==> (#[trigger] final(self).buffer@[yy])@ == old(
                    self,
                ).buffer@[yy]@,
            forall|yy: int|
                0 <= yy < 144 && yy != ly ==> (#[trigger] final(self).color_index@[yy])@ == old(
                    self,
                ).color_index@[yy]@,
            forall|x: int|
                #![trigger final(self).buffer@[ly as int]@[x]]
                0 <= x < 160 ==> final(self).buffer@[ly as int]@[x] == if offset <= x < offset
                    + dots {
                    spec_bg_pixel(
                        old(self).mode,
                        old(self).vram,
                        old(self).pal,
                        old(self).color_pal,
                        old(self).lcdc_stat,
                        old(self).scroll,
                        ly as int,
                        x,
                    ).0
                } else {
                    old(self).buffer@[ly as int]@[x]
                },
            forall|x: int|
                #![trigger final(self).color_index@[ly as int]@[x]]
                0 <= x < 160 ==> final(self).color_index@[ly as int]@[x] == if offset <= x < offset
                    + dots {
                    spec_bg_pixel(
                        old(self).mode,
                        old(self).vram,
                        old(self).pal,
                        old(self).color_pal,
                        old(self).lcdc_stat,
                        old(self).scroll,
                        ly as int,
                        x,
                    ).1
                } else {
                    old(self).color_index@[ly as int]@[x]
                },
    {
        let scx = self.scroll.scx;
        let scy = self.scroll.scy;
        let mut lcd_x = offset;
        while lcd_x < offset + dots
            invariant
                self.wf(),
                ly < 144,
                offset <= lcd_x <= offset + dots,
                offset + dots <= 160,
                scx == self.scroll.scx,
                scy == self.scroll.scy,
                Self::same_except_frame(old(self), self),
                self.buffer@.len() == 144,
                self.color_index@.len() == 144,
                forall|yy: int|
                    0 <= yy < 144 && yy != ly ==> (#[trigger] self.buffer@[yy])@ == old(
                        self,
                    ).buffer@[yy]@,
                forall|yy: int|
                    0 <= yy < 144 && yy != ly ==> (#[trigger] self.color_index@[yy])@ == old(
                        self,
                    ).color_index@[yy]@,
                forall|x: int|
                    #![trigger self.buffer@[ly as int]@[x]]
                    0 <= x < 160 ==> self.buffer@[ly as int]@[x] == if offset <= x < lcd_x {
                        spec_bg_pixel(
                            old(self).mode,
                            old(self).vram,
                            old(self).pal,
                            old(self).color_pal,
                            old(self).lcdc_stat,
                            old(self).scroll,
                            ly as int,
                            x,
                        ).0
                    } else {
                        old(self).buffer@[ly as int]@[x]
                    },
                forall|x: int|
                    #![trigger self.color_index@[ly as int]@[x]]
                    0 <= x < 160 ==> self.color_index@[ly as int]@[x] == if offset <= x < lcd_x {
                        spec_bg_pixel(
                            old(self).mode,
                            old(self).vram,
                            old(self).pal,
                            old(self).color_pal,
                            old(self).lcdc_stat,
                            old(self).scroll,
                            ly as int,
                            x,
                        ).1
                    } else {
                        old(self).color_index@[ly as int]@[x]
                    },
            decreases offset + dots - lcd_x,
        {
            let y = (ly as usize + scy as usize) % 256;
            let x = (lcd_x + scx as usize) % 256;
            let map = self.lcdc_stat.bg_tile_map();
            let data = self.lcdc_stat.bg_win_tile_data();
            let (color, index) = self.point_color(y, x, map, data);
            self.buffer[ly as usize][lcd_x] = color;
            self.color_index[ly as usize][lcd_x] = index;
            lcd_x = lcd_x + 1;
        }
    }

    /// Draw the window layer of scanline `ly`. The window starts at line
    /// `wy` and column `wx - 7`; pixels left of its origin keep the
    /// background.
    fn draw_win(&mut self, ly: u8, offset: usize, dots: usize)
        requires
            old(self).wf(),
            ly < 144,
            offset == 0,
            dots == 160,
        ensures
            final(self).wf(),
            Self::same_except_frame(old(self), final(self)),
            final(self).buffer@.len() == 144,
            final(self).color_index@.len() == 144,
            forall|yy: int|
                0 <= yy < 144 && yy != ly ==> (#[trigger] final(self).buffer@[yy])@ == old(
                    self,
                ).buffer@[yy]@,
            forall|yy: int|
                0 <= yy < 144 && yy != ly ==> (#[trigger] final(self).color_index@[yy])@ == old(
                    self,
                ).color_index@[yy]@,
            ly < old(self).win.wy ==> final(self).buffer@[ly as int]@ == old(
                self,
            ).buffer@[ly as int]@ && final(self).color_index@[ly as int]@ == old(
                self,
            ).color_index@[ly as int]@,
            ly >= old(self).win.wy ==> forall|x: int|
                #![trigger final(self).buffer@[ly as int]@[x]]
                0 <= x < 160 ==> final(self).buffer@[ly as int]@[x] == if spec_win_x0(
                    old(self).win.wx,
                ) <= x {
                    spec_win_pixel(
                        old(self).mode,
                        old(self).vram,
                        old(self).pal,
                        old(self).color_pal,
                        old(self).lcdc_stat,
                        old(self).win,
                        ly as int,
                        x,
                    ).0
                } else {
                    old(self).buffer@[ly as int]@[x]
                },
            ly >= old(self).win.wy ==> forall|x: int|
                #![trigger final(self).color_index@[ly as int]@[x]]
                0 <= x < 160 ==> final(self).color_index@[ly as int]@[x] == if spec_win_x0(
                    old(self).win.wx,
                ) <= x {
                    spec_win_pixel(
                        old(self).mode,
                        old(self).vram,
                        old(self).pal,
                        old(self).color_pal,
                        old(self).lcdc_stat,
                        old(self).win,
                        ly as int,
                        x,
                    ).1
                } else {
                    old(self).color_index@[ly as int]@[x]
                },
    {
        let wy = self.win.wy;
        let wx = self.win.wx;
        if ly < wy {
            return ;
        }
        let wx0: usize = if wx >= 7 {
            (wx - 7) as usize
        } else {
            0
        };
        let mut lcd_x = wx0;
        while lcd_x < 160
            invariant
                self.wf(),
                ly < 144,
                ly >= wy,
                wy == self.win.wy,
                wx == self.win.wx,
                wx0 == spec_win_x0(wx),
                wx0 <= lcd_x,
                lcd_x <= 160 || lcd_x == wx0,
                Self::same_except_frame(old(self), self),
                self.buffer@.len() == 144,
                self.color_index@.len() == 144,
                forall|yy: int|
                    0 <= yy < 144 && yy != ly ==> (#[trigger] self.buffer@[yy])@ == old(
                        self,
                    ).buffer@[yy]@,
                forall|yy: int|
                    0 <= yy < 144 && yy != ly ==> (#[trigger] self.color_index@[yy])@ == old(
                        self,
                    ).color_index@[yy]@,
                forall|x: int|
                    #![trigger self.buffer@[ly as int]@[x]]
                    0 <= x < 160 ==> self.buffer@[ly as int]@[x] == if wx0 <= x < lcd_x {
                        spec_win_pixel(
                            old(self).mode,
                            old(self).vram,
                            old(self).pal,
                            old(self).color_pal,
                            old(self).lcdc_stat,
                            old(self).win,
                            ly as int,
                            x,
                        ).0
                    } else {
                        old(self).buffer@[ly as int]@[x]
                    },
                forall|x: int|
                    #![trigger self.color_index@[ly as int]@[x]]
                    0 <= x < 160 ==> self.color_index@[ly as int]@[x] == if wx0 <= x < lcd_x {
                        spec_win_pixel(
                            old(self).mode,
                            old(self).vram,
                            old(self).pal,
                            old(self).color_pal,
                            old(self).lcdc_stat,
                            old(self).win,
                            ly as int,
                            x,
                        ).1
                    } else {
                        old(self).color_index@[ly as int]@[x]
                    },
            decreases 160 - lcd_x,
        {
            let y = (ly - wy) as usize;
            let x = lcd_x - wx0;
            let map = self.lcdc_stat.win_tile_map();
            let data = self.lcdc_stat.bg_win_tile_data();
            let (color, index) = self.point_color(y, x, map, data);
            self.buffer[ly as usize][lcd_x] = color;
            self.color_index[ly as usize][lcd_x] = index;
            lcd_x = lcd_x + 1;
        }
    }

    /// Draw the sprite layer of scanline `ly`: all 40 OAM entries, walked
    /// in reverse index order so that lower-indexed entries are drawn last
    /// and win overlaps. Sprites never write the shadow buffer.
    fn draw_ob(&mut self, ly: u8, offset: usize, dots: usize)
        requires
            old(self).wf(),
            ly < 144,
            offset == 0,
            dots == 160,
        ensures
            final(self).wf(),
            Self::same_except_frame(old(self), final(self)),
            final(self).buffer@.len() == 144,
            final(self).color_index == old(self).color_index,
            forall|yy: int|
                0 <= yy < 144 && yy != ly ==> (#[trigger] final(self).buffer@[yy])@ == old(
                    self,
                ).buffer@[yy]@,
            final(self).buffer@[ly as int]@ == spec_sprites_fold(
                old(self).buffer@[ly as int]@,
                old(self).color_index@[ly as int]@,
                old(self).mode,
                old(self).vram,
                old(self).pal,
                old(self).color_pal,
                old(self).lcdc_stat.spec_ob_size() as int,
                old(self).oam.entries@,
                ly as int,
                40,
            ),
    {
        let h = self.lcdc_stat.lcdc_ob_size();
        let ghost shadow_row = old(self).color_index@[ly as int]@;
        let ghost row0_ghost = old(self).buffer@[ly as int]@;
        let mut entry: usize = 0;
        while entry < 40
            invariant
                old(self).wf(),
                self.wf(),
                ly < 144,
                entry <= 40,
                h == self.lcdc_stat.spec_ob_size(),
                Self::same_except_frame(old(self), self),
                self.color_index == old(self).color_index,
                self.buffer@.len() == 144,
                shadow_row == old(self).color_index@[ly as int]@,
                row0_ghost == old(self).buffer@[ly as int]@,
                forall|yy: int|
                    0 <= yy < 144 && yy != ly ==> (#[trigger] self.buffer@[yy])@ == old(
                        self,
                    ).buffer@[yy]@,
                self.buffer@[ly as int]@ == spec_sprites_fold(
                    row0_ghost,
                    shadow_row,
                    old(self).mode,
                    old(self).vram,
                    old(self).pal,
                    old(self).color_pal,
                    h as int,
                    old(self).oam.entries@,
                    ly as int,
                    entry as int,
                ),
            decreases 40 - entry,
        {
            let e = *self.oam.get(39 - entry);
            let ghost row_in = self.buffer@[ly as int]@;
            let x = e.xpos as i32 - 8;
            let y = e.ypos as i32 - 16;
            if (ly as i32) < y || (ly as i32) >= y + h as i32 {
                proof {
                    assert(!oam::covers_line(e, ly as int, h as int));
                    assert(spec_apply_sprite_upto(
                        row_in,
                        shadow_row,
                        old(self).mode,
                        old(self).vram,
                        old(self).pal,
                        old(self).color_pal,
                        h as int,
                        e,
                        ly as int,
                        160,
                    ) =~= row_in);
                }
            } else {
                let tile = if h == 16 {
                    proof {
                        crate::bits::lemma_mask_bound(e.tile, 0xfe);
                    }
                    e.tile & 0xfe
                } else {
                    e.tile
                };
                let start: i32 = if x > 0 {
                    x
                } else {
                    0
                };
                let end: i32 = if x + 8 < 160 {
                    x + 8
                } else {
                    160
                };
                let mut lcd_x = start;
                proof {
                    assert(self.buffer@[ly as int]@ =~= spec_apply_sprite_upto(
                        row_in,
                        shadow_row,
                        old(self).mode,
                        old(self).vram,
                        old(self).pal,
                        old(self).color_pal,
                        h as int,
                        e,
                        ly as int,
                        start as int,
                    ));
                }
                while lcd_x < end
                    invariant
                        old(self).wf(),
                        self.wf(),
                        ly < 144,
                        h == self.lcdc_stat.spec_ob_size(),
                        h == 8 || h == 16,
                        x == e.xpos - 8,
                        y == e.ypos - 16,
                        y <= ly as i32,
                        (ly as i32) < y + (h as i32),
                        tile == (if h == 16 {
                            e.tile & 0xfe
                        } else {
                            e.tile
                        }),
                        tile <= 0xff,
                        h == 16 ==> tile <= 0xfe,
                        start == (if x > 0 {
                            x
                        } else {
                            0i32
                        }),
                        end == (if x + 8 < 160 {
                            x + 8
                        } else {
                            160int
                        }),
                        start <= lcd_x,
                        lcd_x <= end || lcd_x == start,
                        Self::same_except_frame(old(self), self),
                        self.color_index == old(self).color_index,
                        self.buffer@.len() == 144,
                        shadow_row == old(self).color_index@[ly as int]@,
                        row_in.len() == 160,
                        forall|yy: int|
                            0 <= yy < 144 && yy != ly ==> (#[trigger] self.buffer@[yy])@ == old(
                                self,
                            ).buffer@[yy]@,
                        self.buffer@[ly as int]@ == spec_apply_sprite_upto(
                            row_in,
                            shadow_row,
                            old(self).mode,
                            old(self).vram,
                            old(self).pal,
                            old(self).color_pal,
                            h as int,
                            e,
                            ly as int,
                            lcd_x as int,
                        ),
                    decreases end - lcd_x,
                {
                    let row_i = (ly as i32 - y) as usize;
                    let col0 = (7 - (lcd_x - x)) as usize;
                    let row = if e.flags & 0x40 != 0 {
                        (h as usize - 1) - row_i
                    } else {
                        row_i
                    };
                    let col = if e.flags & 0x20 != 0 {
                        7 - col0
                    } else {
                        col0
                    };
                    let offset_b = 16 * (tile as usize) + row * 2;
                    let bank = match self.mode {
                        Mode::GB => 0,
                        Mode::CGB => {
                            proof {
                                crate::bits::lemma_mask_bound(e.flags >> 3, 0x1);
                            }
                            ((e.flags >> 3) & 0x1) as usize
                        },
                    };
                    let lo = self.vram.bank(bank)[offset_b];
                    let hi = self.vram.bank(bank)[offset_b + 1];
                    let ci = decode_pixel(lo, hi, col as u8);
                    let shadow = self.color_index[ly as usize][lcd_x as usize];
                    if sprite_pixel_shown(ci, e.flags, shadow) {
                        let color = match self.mode {
                            Mode::GB => {
                                proof {
                                    crate::bits::lemma_mask_bound(e.flags >> 4, 0x1);
                                }
                                let pal_i = ((e.flags >> 4) & 0x1) as usize;
                                self.pal.obp_color(pal_i, ci as usize)
                            },
                            Mode::CGB => {
                                proof {
                                    crate::bits::lemma_mask_bound(e.flags, 0x7);
                                }
                                let pal_i = (e.flags & 0x7) as usize;
                                self.color_pal.ob_pal_color(pal_i, ci as usize)
                            },
                        };
                        self.buffer[ly as usize][lcd_x as usize] = color;
                    }
                    proof {
                        assert(self.buffer@[ly as int]@ =~= spec_apply_sprite_upto(
                            row_in,
                            shadow_row,
                            old(self).mode,
                            old(self).vram,
                            old(self).pal,
                            old(self).color_pal,
                            h as int,
                            e,
                            ly as int,
                            lcd_x + 1,
                        ));
                    }
                    lcd_x = lcd_x + 1;
                }
                proof {
                    assert(self.buffer@[ly as int]@ =~= spec_apply_sprite_upto(
                        row_in,
                        shadow_row,
                        old(self).mode,
                        old(self).vram,
                        old(self).pal,
                        old(self).color_pal,
                        h as int,
                        e,
                        ly as int,
                        160,
                    ));
                }
            }
            proof {
                assert((old(self).buffer@[ly as int])@.len() == 160);
                assert(e == old(self).oam.entries@[40 - (entry + 1)]);
                assert(spec_sprites_fold(
                    row0_ghost,
                    shadow_row,
                    old(self).mode,
                    old(self).vram,
                    old(self).pal,
                    old(self).color_pal,
                    h as int,
                    old(self).oam.entries@,
                    ly as int,
                    entry + 1,
                ) == spec_apply_sprite_upto(
                    spec_sprites_fold(
                        row0_ghost,
                        shadow_row,
                        old(self).mode,
                        old(self).vram,
                        old(self).pal,
                        old(self).color_pal,
                        h as int,
                        old(self).oam.entries@,
                        ly as int,
                        entry as int,
                    ),
                    shadow_row,
                    old(self).mode,
                    old(self).vram,
                    old(self).pal,
                    old(self).color_pal,
                    h as int,
                    e,
                    ly as int,
                    160,
                ));
                assert(self.buffer@[ly as int]@ == spec_sprites_fold(
                    row0_ghost,
                    shadow_row,
                    old(self).mode,
                    old(self).vram,
                    old(self).pal,
                    old(self).color_pal,
                    h as int,
                    old(self).oam.entries@,
                    ly as int,
                    entry + 1,
                ));
            }
            entry = entry + 1;
        }
    }

    /// Composite one scanline into the framebuffer: background, window,
    /// then sprites, back to front.
    fn draw_line(&mut self, ly: u8, offset: usize, dots: usize)
        requires
            old(self).wf(),
            ly < 144,
            offset == 0,
            dots == 160,
        ensures
            final(self).wf(),
            Self::same_except_frame(old(self), final(self)),
            final(self).buffer@.len() == 144,
            final(self).color_index@.len() == 144,
            forall|yy: int|
                0 <= yy < 144 && yy != ly ==> (#[trigger] final(self).buffer@[yy])@ == old(
                    self,
                ).buffer@[yy]@,
            forall|yy: int|
                0 <= yy < 144 && yy != ly ==> (#[trigger] final(self).color_index@[yy])@ == old(
                    self,
                ).color_index@[yy]@,
            (final(self).buffer@[ly as int]@, final(self).color_index@[ly as int]@)
                == spec_draw_line(
                old(self).mode,
                old(self).vram,
                old(self).pal,
                old(self).color_pal,
                old(self).lcdc_stat,
                old(self).scroll,
                old(self).win,
                old(self).oam.entries@,
                old(self).buffer@[ly as int]@,
                old(self).color_index@[ly as int]@,
                ly as int,
            ),
    {
        let ghost row0 = self.buffer@[ly as int]@;
        let ghost shadow0 = self.color_index@[ly as int]@;
        let lcdc_0 = self.lcdc_stat.lcdc & 0x1 != 0;
        let display_bg = match self.mode {
            Mode::GB => lcdc_0,
            Mode::CGB => true,
        };
        if display_bg {
            self.draw_bg(ly, offset, dots);
        }
        proof {
            let bg_row = spec_draw_line_bg_row(
                old(self).mode,
                old(self).vram,
                old(self).pal,
                old(self).color_pal,
                old(self).lcdc_stat,
                old(self).scroll,
                row0,
                ly as int,
            );
            let bg_shadow = spec_draw_line_bg_shadow(
                old(self).mode,
                old(self).vram,
                old(self).pal,
                old(self).color_pal,
                old(self).lcdc_stat,
                old(self).scroll,
                shadow0,
                ly as int,
            );
            assert(self.buffer@[ly as int]@ =~= bg_row);
            assert(self.color_index@[ly as int]@ =~= bg_shadow);
        }
        let ghost mid1 = *self;
        let display_win = self.lcdc_stat.lcdc & 0x20 != 0;
        if display_win {
            self.draw_win(ly, offset, dots);
        }
        proof {
            assert(self.buffer@[ly as int]@ =~= spec_draw_line_win_row(
                old(self).mode,
                old(self).vram,
                old(self).pal,
                old(self).color_pal,
                old(self).lcdc_stat,
                old(self).win,
                mid1.buffer@[ly as int]@,
                ly as int,
            ));
            assert(self.color_index@[ly as int]@ =~= spec_draw_line_win_shadow(
                old(self).mode,
                old(self).vram,
                old(self).pal,
                old(self).color_pal,
                old(self).lcdc_stat,
                old(self).win,
                mid1.color_index@[ly as int]@,
                ly as int,
            ));
        }
        let ghost mid2 = *self;
        let display_ob = self.lcdc_stat.lcdc & 0x2 != 0;
        if display_ob {
            self.draw_ob(ly, offset, dots);
        }
        proof {
            assert((self.buffer@[ly as int]@, self.color_index@[ly as int]@) == spec_draw_line(
                old(self).mode,
                old(self).vram,
                old(self).pal,
                old(self).color_pal,
                old(self).lcdc_stat,
                old(self).scroll,
                old(self).win,
                old(self).oam.entries@,
                row0,
                shadow0,
                ly as int,
            ));
        }
    }

    /// The blank color the panel shows while the display is disabled.
    pub open spec fn spec_blank_color(&self) -> Color {
        match self.mode {
            Mode::GB => self.pal.spec_clear_color(),
            Mode::CGB => self.color_pal.spec_clear_color(),
        }
    }

    /// Blank the framebuffer and shadow buffer and present the blank frame.
    fn clear_video(&mut self)
        requires
            old(self).wf(),
        ensures
            final(self).wf(),
            final(self).mode == old(self).mode,
            final(self).dots == old(self).dots,
            final(self).stat_mode == old(self).stat_mode,
            final(self).vram == old(self).vram,
            final(self).oam == old(self).oam,
            final(self).lcdc_stat == old(self).lcdc_stat,
            final(self).scroll == old(self).scroll,
            final(self).line == old(self).line,
            final(self).win == old(self).win,
            final(self).pal == old(self).pal,
            final(self).color_pal == old(self).color_pal,
            final(self).vblank_int == old(self).vblank_int,
            final(self).lcdc_int == old(self).lcdc_int,
            final(self).presented@ == old(self).presented@ + 1,
            forall|y: int, x: int|
                #![trigger final(self).buffer@[y]@[x]]
                0 <= y < 144 && 0 <= x < 160 ==> final(self).buffer@[y]@[x] == old(
                    self,
                ).spec_blank_color(),
            forall|y: int, x: int|
                #![trigger final(self).color_index@[y]@[x]]
                0 <= y < 144 && 0 <= x < 160 ==> final(self).color_index@[y]@[x] == 0,
    {
        let color = match self.mode {
            Mode::GB => self.pal.clear_color(),
            Mode::CGB => self.color_pal.clear_color(),
        };
        let mut y: usize = 0;
        while y < 144
            invariant
                old(self).wf(),
                self.wf(),
                y <= 144,
                color == old(self).spec_blank_color(),
                self.mode == old(self).mode,
                self.dots == old(self).dots,
                self.stat_mode == old(self).stat_mode,
                self.vram == old(self).vram,
                self.oam == old(self).oam,
                self.lcdc_stat == old(self).lcdc_stat,
                self.scroll == old(self).scroll,
                self.line == old(self).line,
                self.win == old(self).win,
                self.pal == old(self).pal,
                self.color_pal == old(self).color_pal,
                self.vblank_int == old(self).vblank_int,
                self.lcdc_int == old(self).lcdc_int,
                self.video == old(self).video,
                self.presented == old(self).presented,
                forall|k: int, x: int|
                    #![trigger self.buffer@[k]@[x]]
                    0 <= k < y && 0 <= x < 160 ==> self.buffer@[k]@[x] == old(
                        self,
                    ).spec_blank_color(),
                forall|k: int, x: int|
                    #![trigger self.color_index@[k]@[x]]
                    0 <= k < y && 0 <= x < 160 ==> self.color_index@[k]@[x] == 0,
            decreases 144 - y,
        {
            let mut x: usize = 0;
            while x < 160
                invariant
                    old(self).wf(),
                    self.wf(),
                    y < 144,
                    x <= 160,
                    color == old(self).spec_blank_color(),
                    self.mode == old(self).mode,
                    self.dots == old(self).dots,
                    self.stat_mode == old(self).stat_mode,
                    self.vram == old(self).vram,
                    self.oam == old(self).oam,
                    self.lcdc_stat == old(self).lcdc_stat,
                    self.scroll == old(self).scroll,
                    self.line == old(self).line,
                    self.win == old(self).win,
                    self.pal == old(self).pal,
                    self.color_pal == old(self).color_pal,
                    self.vblank_int == old(self).vblank_int,
                    self.lcdc_int == old(self).lcdc_int,
                    self.video == old(self).video,
                    self.presented == old(self).presented,
                    forall|k: int, xx: int|
                        #![trigger self.buffer@[k]@[xx]]
                        0 <= k < y && 0 <= xx < 160 ==> self.buffer@[k]@[xx] == old(
                            self,
                        ).spec_blank_color(),
                    forall|k: int, xx: int|
                        #![trigger self.color_index@[k]@[xx]]
                        0 <= k < y && 0 <= xx < 160 ==> self.color_index@[k]@[xx] == 0,
                    forall|xx: int|
                        #![trigger self.buffer@[y as int]@[xx]]
                        0 <= xx < x ==> self.buffer@[y as int]@[xx] == old(
                            self,
                        ).spec_blank_color(),
                    forall|xx: int|
                        #![trigger self.color_index@[y as int]@[xx]]
                        0 <= xx < x ==> self.color_index@[y as int]@[xx] == 0,
                decreases 160 - x,
            {
                self.buffer[y][x] = color;
                self.color_index[y][x] = 0;
                x = x + 1;
            }
            y = y + 1;
        }
        self.video.draw_video(&self.buffer);
        proof {
            self.presented@ = self.presented@ + 1;
        }
    }

    /// Decode the whole tile-data table of one VRAM bank into a 128x128
    /// grayscale pixel dump, appended to `out` row by row.
    pub fn tile_data(&self, data: TileDataAddr, bank: usize, out: &mut Vec<Color>)
        requires
            self.wf(),
            bank < 2,
            old(out)@.len() + 16384 <= usize::MAX,
        ensures
            final(out)@.len() == old(out)@.len() + 16384,
            forall|i: int|
                0 <= i < old(out)@.len() ==> #[trigger] final(out)@[i] == old(out)@[i],
            forall|i: int|
                0 <= i < 16384 ==> #[trigger] final(out)@[old(out)@.len() + i]
                    == spec_tile_data_pixel(self.vram, data, bank as int, i),
    {
        let ghost base = out@.len();
        let mut y: usize = 0;
        while y < 128
            invariant
                self.wf(),
                bank < 2,
                y <= 128,
                base + 16384 <= usize::MAX,
                out@.len() == base + 128 * y,
                forall|i: int| 0 <= i < base ==> #[trigger] out@[i] == old(out)@[i],
                forall|i: int|
                    0 <= i < 128 * y ==> #[trigger] out@[base + i] == spec_tile_data_pixel(
                        self.vram,
                        data,
                        bank as int,
                        i,
                    ),
            decreases 128 - y,
        {
            let mut x: usize = 0;
            while x < 128
                invariant
                    self.wf(),
                    bank < 2,
                    y < 128,
                    x <= 128,
                    base + 16384 <= usize::MAX,
                    out@.len() == base + 128 * y + x,
                    forall|i: int| 0 <= i < base ==> #[trigger] out@[i] == old(out)@[i],
                    forall|i: int|
                        0 <= i < 128 * y + x ==> #[trigger] out@[base + i] == spec_tile_data_pixel(
                            self.vram,
                            data,
                            bank as int,
                            i,
                        ),
                decreases 128 - x,
            {
                let tile = 16 * (y / 8) + (x / 8);
                let col = 7 - (x % 8);
                let row = y % 8;
                let offset = match data {
                    TileDataAddr::X8000 => 16 * tile + row * 2,
                    TileDataAddr::X8800 => 0x800 + 16 * tile + row * 2,
                };
                let lo = self.vram.bank(bank)[offset];
                let hi = self.vram.bank(bank)[offset + 1];
                let ci = decode_pixel(lo, hi, col as u8);
                out.push(palette::grayscale(ci as usize));
                proof {
                    assert(128 * y + x == 128 * (y as int) + x);
                    assert((128 * y + x) / 128 == y && (128 * y + x) % 128 == x)
                        by (nonlinear_arith)
                        requires
                            0 <= x < 128,
                            0 <= y,
                    ;
                }
                x = x + 1;
            }
            y = y + 1;
        }
    }

    /// Decode one full 256x256 tile-map layer into pixels, appended to
    /// `out` row by row.
    pub fn tile_map(&self, map: TileMapAddr, data: TileDataAddr, out: &mut Vec<Color>)
        requires
            self.wf(),
            old(out)@.len() + 65536 <= usize::MAX,
        ensures
            final(out)@.len() == old(out)@.len() + 65536,
            forall|i: int|
                0 <= i < old(out)@.len() ==> #[trigger] final(out)@[i] == old(out)@[i],
            forall|i: int|
                0 <= i < 65536 ==> #[trigger] final(out)@[old(out)@.len() + i] == spec_point_color(
                    self.mode,
                    self.vram,
                    self.pal,
                    self.color_pal,
                    i / 256,
                    i % 256,
                    map,
                    data,
                ).0,
    {
        let ghost base = out@.len();
        let mut y: usize = 0;
        while y < 256
            invariant
                self.wf(),
                y <= 256,
                base + 65536 <= usize::MAX,
                out@.len() == base + 256 * y,
                forall|i: int| 0 <= i < base ==> #[trigger] out@[i] == old(out)@[i],
                forall|i: int|
                    0 <= i < 256 * y ==> #[trigger] out@[base + i] == spec_point_color(
                        self.mode,
                        self.vram,
                        self.pal,
                        self.color_pal,
                        i / 256,
                        i % 256,
                        map,
                        data,
                    ).0,
            decreases 256 - y,
        {
            let mut x: usize = 0;
            while x < 256
                invariant
                    self.wf(),
                    y < 256,
                    x <= 256,
                    base + 65536 <= usize::MAX,
                    out@.len() == base + 256 * y + x,
                    forall|i: int| 0 <= i < base ==> #[trigger] out@[i] == old(out)@[i],
                    forall|i: int|
                        0 <= i < 256 * y + x ==> #[trigger] out@[base + i] == spec_point_color(
                            self.mode,
                            self.vram,
                            self.pal,
                            self.color_pal,
                            i / 256,
                            i % 256,
                            map,
                            data,
                        ).0,
                decreases 256 - x,
            {
                let p = self.point_color(y, x, map, data);
                out.push(p.0);
                proof {
                    assert(256 * y + x == 256 * (y as int) + x);
                    assert((256 * y + x) / 256 == y && (256 * y + x) % 256 == x)
                        by (nonlinear_arith)
                        requires
                            0 <= x < 256,
                            0 <= y,
                    ;
                }
                x = x + 1;
            }
            y = y + 1;
        }
    }

    fn request_vblank(&mut self)
        ensures
            *final(self) == (Ppu { vblank_int: Some(Flag::VBlank), ..*old(self) }),
    {
        self.vblank_int = Some(Flag::VBlank);
    }

    fn request_lcdc(&mut self)
        ensures
            *final(self) == (Ppu { lcdc_int: Some(Flag::LCDCStat), ..*old(self) }),
    {
        self.lcdc_int = Some(Flag::LCDCStat);
    }

    /// Advance emulated time by `cycles` dots. Does nothing while the
    /// display-enable bit is clear. One call crosses at most one phase
    /// boundary; the dots past the finished phase carry over into the next.
    pub fn step(&mut self, cycles: u64)
        requires
            old(self).wf(),
            old(self).dots + cycles <= u64::MAX,
        ensures
            final(self).wf(),
            old(self).lcdc_stat.lcdc & 0x80 == 0 ==> *final(self) == *old(self),
            old(self).lcdc_stat.lcdc & 0x80 != 0 ==> {
                let t = spec_transition(
                    old(self).stat_mode,
                    (old(self).dots + cycles) as u64,
                    old(self).line.ly,
                    old(self).lcdc_stat.stat,
                );
                &&& final(self).stat_mode == t.mode
                &&& final(self).dots == t.dots
                &&& final(self).line.ly == t.ly
                &&& final(self).line.lyc == old(self).line.lyc
                &&& final(self).mode == old(self).mode
                &&& final(self).vram == old(self).vram
                &&& final(self).scroll == old(self).scroll
                &&& final(self).win == old(self).win
                &&& final(self).pal == old(self).pal
                &&& final(self).color_pal == old(self).color_pal
                &&& final(self).lcdc_stat.lcdc == old(self).lcdc_stat.lcdc
                &&& final(self).lcdc_stat.stat == spec_stat_after(
                    old(self).lcdc_stat.stat,
                    t.mode,
                    t.ly,
                    old(self).line.lyc,
                )
                &&& final(self).vblank_int == if t.vblank_irq {
                    Some(Flag::VBlank)
                } else {
                    old(self).vblank_int
                }
                &&& final(self).lcdc_int == if t.stat_irq || (t.ly == old(self).line.lyc && t.ly
                    != old(self).line.ly && old(self).lcdc_stat.stat & STAT_LYC_LY_FLAG != 0) {
                    Some(Flag::LCDCStat)
                } else {
                    old(self).lcdc_int
                }
                &&& final(self).oam.entries == old(self).oam.entries
                &&& final(self).oam.visible@ == if t.search {
                    oam::spec_search(
                        old(self).oam.entries@,
                        t.ly as int,
                        old(self).lcdc_stat.spec_ob_size() as int,
                        40,
                    )
                } else {
                    old(self).oam.visible@
                }
                &&& !t.present ==> final(self).video == old(self).video
                &&& final(self).presented@ == old(self).presented@ + if t.present {
                    1int
                } else {
                    0int
                }
                &&& final(self).buffer@.len() == 144
                &&& final(self).color_index@.len() == 144
                &&& forall|yy: int|
                    0 <= yy < 144 && yy != old(self).line.ly
                        ==> (#[trigger] final(self).buffer@[yy])@ == old(self).buffer@[yy]@
                &&& forall|yy: int|
                    0 <= yy < 144 && yy != old(self).line.ly
                        ==> (#[trigger] final(self).color_index@[yy])@ == old(self).color_index@[yy]@
                &&& if t.render && old(self).line.ly < 144 {
                    (
                        final(self).buffer@[old(self).line.ly as int]@,
                        final(self).color_index@[old(self).line.ly as int]@,
                    ) == spec_draw_line(
                        old(self).mode,
                        old(self).vram,
                        old(self).pal,
                        old(self).color_pal,
                        old(self).lcdc_stat,
                        old(self).scroll,
                        old(self).win,
                        old(self).oam.entries@,
                        old(self).buffer@[old(self).line.ly as int]@,
                        old(self).color_index@[old(self).line.ly as int]@,
                        old(self).line.ly as int,
                    )
                } else {
                    old(self).line.ly < 144 ==> final(self).buffer@[old(self).line.ly as int]@
                        == old(self).buffer@[old(self).line.ly as int]@
                        && final(self).color_index@[old(self).line.ly as int]@
                        == old(self).color_index@[old(self).line.ly as int]@
                }
            },
    {
        if self.lcdc_stat.lcdc & 0x80 == 0 {
            return ;
        }
        self.dots = self.dots + cycles;

        let mut line = self.line.ly;

        match self.stat_mode {
            StatMode::Search => {
                if self.dots >= SEARCH {
                    self.dots = self.dots % SEARCH;
                    self.stat_mode = StatMode::Pixels;
                }
            },
            StatMode::Pixels => {
                if self.dots >= PIXELS {
                    self.draw_line(line, 0, LCD_WIDTH);
                    self.dots = self.dots % PIXELS;
                    self.stat_mode = StatMode::HBlank;
                    if self.lcdc_stat.stat & STAT_HBLANK_FLAG != 0 {
                        self.request_lcdc();
                    }
                }
            },
            StatMode::HBlank => {
                if self.dots >= HBLANK {
                    if line == 143 {
                        self.dots = self.dots % HBLANK;
                        self.stat_mode = StatMode::VBlank;
                        self.request_vblank();
                        if self.lcdc_stat.stat & STAT_VBLANK_FLAG != 0 {
                            self.request_lcdc();
                        }
                        self.video.draw_video(&self.buffer);
                        proof {
                            self.presented@ = self.presented@ + 1;
                        }
                        line = 144;
                    } else {
                        self.dots = self.dots % HBLANK;
                        self.stat_mode = StatMode::Search;
                        if self.lcdc_stat.stat & STAT_SEARCH_FLAG != 0 {
                            self.request_lcdc();
                        }
                        line = line + 1;

                        // search the visible sprites of the new line
                        let h = self.lcdc_stat.lcdc_ob_size();
                        self.oam.search(line, h);
                    }
                }
            },
            StatMode::VBlank => {
                if self.dots >= VBLANK {
                    self.dots = self.dots % VBLANK;
                    self.stat_mode = StatMode::Search;
                    if self.lcdc_stat.stat & STAT_SEARCH_FLAG != 0 {
                        self.request_lcdc();
                    }
                    line = 0;
                } else {
                    if line != 0 {
                        line = 144 + (self.dots / 456) as u8;
                    }
                    // the LY counter resets in the middle of the last
                    // vertical-blank line
                    if line == 153 && self.dots % 456 > 228 {
                        line = 0;
                    }
                }
            },
        }

        // LY = LYC compare: the interrupt fires only on the rising edge
        if line == self.line.lyc {
            if line != self.line.ly && self.lcdc_stat.stat & STAT_LYC_LY_FLAG != 0 {
                self.request_lcdc();
            }
            self.lcdc_stat.stat = self.lcdc_stat.stat | 0x04;
        } else {
            self.lcdc_stat.stat = self.lcdc_stat.stat & 0xfb;
        }

        self.line.ly = line;
        let m = self.stat_mode;
        self.lcdc_stat.stat_set_mode(m);
    }
}


impl<V: Video> Device for Ppu<V> {
    /// The PPU answers VRAM, OAM and its register file; `0xff46` (the DMA
    /// trigger) belongs to the bus, not to this device.
    ///
    /// Real hardware refuses OAM and VRAM access during the search and
    /// pixel-transfer phases. This device deliberately answers in every
    /// phase: the renderer here completes a scanline atomically at the
    /// phase boundary, so mid-phase accesses can never observe a torn
    /// line, and unrestricted access keeps the bus contract total.
    open spec fn addr_ok(&self, addr: u16) -> bool {
        &&& self.wf()
        &&& (0x8000 <= addr <= 0x9fff || 0xfe00 <= addr <= 0xfe9f || 0xff40 <= addr <= 0xff45
            || 0xff47 <= addr <= 0xff4b || addr == 0xff4f || 0xff68 <= addr <= 0xff6b)
    }

    open spec fn byte_at(&self, addr: u16) -> u8 {
        if 0x8000 <= addr <= 0x9fff || addr == 0xff4f {
            self.vram.byte_at(addr)
        } else if 0xfe00 <= addr <= 0xfe9f {
            self.oam.byte_at(addr)
        } else if addr == 0xff40 || addr == 0xff41 {
            self.lcdc_stat.byte_at(addr)
        } else if addr == 0xff42 || addr == 0xff43 {
            self.scroll.byte_at(addr)
        } else if addr == 0xff44 {
            self.line.ly
        } else if addr == 0xff45 {
            self.line.lyc
        } else if addr == 0xff4a || addr == 0xff4b {
            self.win.byte_at(addr)
        } else if 0xff47 <= addr <= 0xff49 {
            self.pal.byte_at(addr)
        } else {
            self.color_pal.byte_at(addr)
        }
    }

    open spec fn write_ok(&self, addr: u16, data: u8) -> bool {
        true
    }

    /// VRAM, OAM, the scroll/window/compare registers and the monochrome
    /// palettes store bytes exactly. LCDC, STAT, LY, the bank select and
    /// the color-palette ports mask bits or carry side effects.
    open spec fn plain_store(&self, addr: u16) -> bool {
        &&& self.wf()
        &&& (0x8000 <= addr <= 0x9fff || 0xfe00 <= addr <= 0xfe9f || addr == 0xff42 || addr
            == 0xff43 || addr == 0xff45 || 0xff47 <= addr <= 0xff4b)
    }

    fn read(&self, addr: u16) -> (r: u8)
        ensures
            r == self.byte_at(addr),
    {
        if (0x8000 <= addr && addr <= 0x9fff) || addr == 0xff4f {
            self.vram.read(addr)
        } else if 0xfe00 <= addr && addr <= 0xfe9f {
            self.oam.read(addr)
        } else if addr == 0xff40 || addr == 0xff41 {
            self.lcdc_stat.read(addr)
        } else if addr == 0xff42 || addr == 0xff43 {
            self.scroll.read(addr)
        } else if addr == 0xff44 {
            self.line.ly
        } else if addr == 0xff45 {
            self.line.lyc
        } else if addr == 0xff4a || addr == 0xff4b {
            self.win.read(addr)
        } else {
            if 0xff47 <= addr && addr <= 0xff49 {
                self.pal.read(addr)
            } else {
                self.color_pal.read(addr)
            }
        }
    }

    /// Register writes are always accepted and masked to their defined
    /// bits. Clearing the display-enable bit resets the timing state and
    /// blanks the frame; writing LY resets the timing state.
    fn write(&mut self, addr: u16, data: u8)
        ensures
            final(self).wf(),
            0x8000 <= addr <= 0x9fff ==> {
                &&& *final(self) == (Ppu { vram: final(self).vram, ..*old(self) })
                &&& final(self).vram.select == old(self).vram.select
                &&& final(self).vram.bank_view(old(self).vram.select as int) == old(
                    self,
                ).vram.bank_view(old(self).vram.select as int).update(addr - 0x8000, data)
                &&& final(self).vram.bank_view(1 - old(self).vram.select as int) == old(
                    self,
                ).vram.bank_view(1 - old(self).vram.select as int)
            },
            addr == 0xff4f ==> *final(self) == (Ppu {
                vram: vram::VRam { select: (data & 1) as u8, ..old(self).vram },
                ..*old(self)
            }),
            0xfe00 <= addr <= 0xfe9f ==> {
                &&& *final(self) == (Ppu { oam: final(self).oam, ..*old(self) })
                &&& final(self).oam.entries@ == old(self).oam.spec_written(addr, data)
                &&& final(self).oam.visible == old(self).oam.visible
            },
            addr == 0xff40 ==> {
                let was_on = old(self).lcdc_stat.lcdc & 0x80 != 0;
                let now_off = data & 0x80 == 0;
                if was_on && now_off {
                    &&& final(self).lcdc_stat.lcdc == data
                    &&& final(self).lcdc_stat.stat == LcdcStat::spec_stat_with_mode(
                        old(self).lcdc_stat.stat,
                        StatMode::HBlank,
                    )
                    &&& final(self).dots == 0
                    &&& final(self).line.ly == 0
                    &&& final(self).line.lyc == old(self).line.lyc
                    &&& final(self).stat_mode is HBlank
                    &&& final(self).mode == old(self).mode
                    &&& final(self).vram == old(self).vram
                    &&& final(self).oam == old(self).oam
                    &&& final(self).scroll == old(self).scroll
                    &&& final(self).win == old(self).win
                    &&& final(self).pal == old(self).pal
                    &&& final(self).color_pal == old(self).color_pal
                    &&& final(self).vblank_int == old(self).vblank_int
                    &&& final(self).lcdc_int == old(self).lcdc_int
                    &&& final(self).presented@ == old(self).presented@ + 1
                    &&& forall|y: int, x: int|
                        #![trigger final(self).buffer@[y]@[x]]
                        0 <= y < 144 && 0 <= x < 160 ==> final(self).buffer@[y]@[x] == old(
                            self,
                        ).spec_blank_color()
                    &&& forall|y: int, x: int|
                        #![trigger final(self).color_index@[y]@[x]]
                        0 <= y < 144 && 0 <= x < 160 ==> final(self).color_index@[y]@[x] == 0
                } else {
                    *final(self) == (Ppu {
                        lcdc_stat: LcdcStat { lcdc: data, stat: old(self).lcdc_stat.stat },
                        ..*old(self)
                    })
                }
            },
            addr == 0xff41 ==> *final(self) == (Ppu {
                lcdc_stat: LcdcStat {
                    lcdc: old(self).lcdc_stat.lcdc,
                    stat: old(self).lcdc_stat.spec_stat_written(data),
                },
                ..*old(self)
            }),
            addr == 0xff42 ==> *final(self) == (Ppu {
                scroll: Scroll { scy: data, ..old(self).scroll },
                ..*old(self)
            }),
            addr == 0xff43 ==> *final(self) == (Ppu {
                scroll: Scroll { scx: data, ..old(self).scroll },
                ..*old(self)
            }),
            addr == 0xff44 ==> *final(self) == (Ppu {
                dots: 0,
                line: Line { ly: 0, lyc: old(self).line.lyc },
                stat_mode: StatMode::Search,
                lcdc_stat: LcdcStat {
                    lcdc: old(self).lcdc_stat.lcdc,
                    stat: LcdcStat::spec_stat_with_mode(
                        old(self).lcdc_stat.stat,
                        StatMode::Search,
                    ),
                },
                ..*old(self)
            }),
            addr == 0xff45 ==> *final(self) == (Ppu {
                line: Line { ly: old(self).line.ly, lyc: data },
                ..*old(self)
            }),
            addr == 0xff4a ==> *final(self) == (Ppu {
                win: Window { wy: data, ..old(self).win },
                ..*old(self)
            }),
            addr == 0xff4b ==> *final(self) == (Ppu {
                win: Window { wx: data, ..old(self).win },
                ..*old(self)
            }),
            addr == 0xff47 ==> *final(self) == (Ppu {
                pal: Pal { bgp: data, ..old(self).pal },
                ..*old(self)
            }),
            addr == 0xff48 ==> *final(self) == (Ppu {
                pal: Pal { obp0: data, ..old(self).pal },
                ..*old(self)
            }),
            addr == 0xff49 ==> *final(self) == (Ppu {
                pal: Pal { obp1: data, ..old(self).pal },
                ..*old(self)
            }),
            addr == 0xff68 ==> *final(self) == (Ppu {
                color_pal: ColorPal { bgp_idx: data, ..old(self).color_pal },
                ..*old(self)
            }),
            addr == 0xff6a ==> *final(self) == (Ppu {
                color_pal: ColorPal { obp_idx: data, ..old(self).color_pal },
                ..*old(self)
            }),
            addr == 0xff69 ==> {
                &&& *final(self) == (Ppu { color_pal: final(self).color_pal, ..*old(self) })
                &&& final(self).color_pal.obp == old(self).color_pal.obp
                &&& final(self).color_pal.obp_idx == old(self).color_pal.obp_idx
                &&& final(self).color_pal.bgp@ == old(self).color_pal.bgp@.update(
                    (old(self).color_pal.bgp_idx & 0x3f) as int,
                    data,
                )
                &&& final(self).color_pal.bgp_idx == ColorPal::spec_idx_after_write(
                    old(self).color_pal.bgp_idx,
                )
            },
            addr == 0xff6b ==> {
                &&& *final(self) == (Ppu { color_pal: final(self).color_pal, ..*old(self) })
                &&& final(self).color_pal.bgp == old(self).color_pal.bgp
                &&& final(self).color_pal.bgp_idx == old(self).color_pal.bgp_idx
                &&& final(self).color_pal.obp@ == old(self).color_pal.obp@.update(
                    (old(self).color_pal.obp_idx & 0x3f) as int,
                    data,
                )
                &&& final(self).color_pal.obp_idx == ColorPal::spec_idx_after_write(
                    old(self).color_pal.obp_idx,
                )
            },
    {
        if (0x8000 <= addr && addr <= 0x9fff) || addr == 0xff4f {
            self.vram.write(addr, data);
        } else if 0xfe00 <= addr && addr <= 0xfe9f {
            self.oam.write(addr, data);
        } else if addr == 0xff40 || addr == 0xff41 {
            let lcdc = self.lcdc_stat.lcdc;
            self.lcdc_stat.write(addr, data);
            if lcdc & 0x80 != 0 && self.lcdc_stat.lcdc & 0x80 == 0 {
                self.dots = 0;
                self.line.ly = 0;
                self.stat_mode = StatMode::HBlank;
                self.lcdc_stat.stat_set_mode(StatMode::HBlank);
                self.clear_video();
            }
        } else if addr == 0xff42 || addr == 0xff43 {
            self.scroll.write(addr, data);
        } else if addr == 0xff44 {
            self.dots = 0;
            self.line.ly = 0;
            self.stat_mode = StatMode::Search;
            self.lcdc_stat.stat_set_mode(StatMode::Search);
        } else if addr == 0xff45 {
            self.line.lyc = data;
        } else if addr == 0xff4a || addr == 0xff4b {
            self.win.write(addr, data);
        } else {
            if 0xff47 <= addr && addr <= 0xff49 {
                self.pal.write(addr, data);
            } else {
                self.color_pal.write(addr, data);
            }
        }
    }
}

} // verus!
