use emulator::device::Device;
use emulator::interrupt::Flag;
use emulator::ppu::palette::Color;
use emulator::ppu::reg::{TileDataAddr, TileMapAddr};
use emulator::ppu::{FrameCounter, Ppu};
use emulator::Mode;

const WHITE: Color = Color { r: 0xff, g: 0xff, b: 0xff };
const LIGHT: Color = Color { r: 0xaa, g: 0xaa, b: 0xaa };
const DARK: Color = Color { r: 0x55, g: 0x55, b: 0x55 };
const BLACK: Color = Color { r: 0x00, g: 0x00, b: 0x00 };

#[test]
fn vram() {
    let mut ppu = Ppu::new(Mode::GB, ());

    ppu.write(0x8000, 1);
    ppu.write(0x9fff, 2);

    assert_eq!(1, ppu.read(0x8000));
    assert_eq!(2, ppu.read(0x9fff));
}

#[test]
fn oam() {
    let mut ppu = Ppu::new(Mode::GB, ());

    ppu.write(0xfe00, 1);
    ppu.write(0xfe9f, 2);

    assert_eq!(1, ppu.read(0xfe00));
    assert_eq!(2, ppu.read(0xfe9f));
}

#[test]
fn registers() {
    let mut ppu = Ppu::new(Mode::GB, ());

    ppu.write(0xff42, 1);
    ppu.write(0xff43, 2);
    ppu.write(0xff44, 3);
    ppu.write(0xff45, 4);
    ppu.write(0xff4a, 5);
    ppu.write(0xff4b, 6);
    ppu.write(0xff47, 7);
    ppu.write(0xff48, 8);
    ppu.write(0xff49, 9);

    assert_eq!(1, ppu.read(0xff42));
    assert_eq!(2, ppu.read(0xff43));
    // LY takes values 0 through 153; 144 to 153 mark the vertical blank.
    // Writing resets the counter.
    assert_eq!(0, ppu.read(0xff44));
    assert_eq!(4, ppu.read(0xff45));
    assert_eq!(5, ppu.read(0xff4a));
    assert_eq!(6, ppu.read(0xff4b));
    assert_eq!(7, ppu.read(0xff47));
    assert_eq!(8, ppu.read(0xff48));
    assert_eq!(9, ppu.read(0xff49));
}

// A whole frame of steps returns the machine to its starting point and
// raises exactly one vertical-blank request.
#[test]
fn frame_round_trip() {
    let mut ppu = Ppu::new(Mode::GB, FrameCounter::new());
    // 144 lines of 80 + 230 + 147 dots, then a 4560-dot vertical blank
    let frame_dots: u64 = 70368;
    let mut fed: u64 = 0;
    let mut vblanks = 0;
    let mut lines_seen = [false; 154];
    while fed < frame_dots {
        ppu.step(4);
        fed += 4;
        lines_seen[ppu.read(0xff44) as usize] = true;
        if let Some(flag) = ppu.take_vblank_int() {
            assert_eq!(Flag::VBlank, flag);
            vblanks += 1;
        }
    }
    assert_eq!(1, vblanks);
    assert_eq!(1, ppu.video().frames);
    assert_eq!(0, ppu.read(0xff44));
    // back in the horizontal blank of line 0, where the machine started
    assert_eq!(0, ppu.read(0xff41) & 0x03);
    for line in 0..154 {
        assert!(lines_seen[line], "line {} never appeared", line);
    }
}

// The line-compare request fires once on the rising edge, not on every
// step while the compare holds.
#[test]
fn lyc_fires_once_per_edge() {
    let mut ppu = Ppu::new(Mode::GB, ());
    ppu.write(0xff45, 2);
    ppu.write(0xff41, 0x40);
    let mut requests = 0;
    let mut fed: u64 = 0;
    while fed < 70368 {
        ppu.step(4);
        fed += 4;
        if ppu.take_lcdc_int().is_some() {
            assert_eq!(2, ppu.read(0xff44));
            requests += 1;
        }
    }
    assert_eq!(1, requests);
}

// Disabling the display resets the timing state and presents one blank
// frame.
#[test]
fn display_disable_resets_and_blanks() {
    let mut ppu = Ppu::new(Mode::GB, FrameCounter::new());
    // paint something first: index 3 everywhere on line 0
    ppu.write(0x8000, 0xff);
    ppu.write(0x8001, 0xff);
    ppu.write(0xff47, 0xfc);
    ppu.write(0xff44, 0);  // restart the scanline clock at line 0
    ppu.step(80);
    ppu.step(230);
    assert_eq!(BLACK, ppu.pixel(0, 0));
    let frames_before = ppu.video().frames;
    ppu.write(0xff40, 0x11);
    assert_eq!(frames_before + 1, ppu.video().frames);
    assert_eq!(0, ppu.read(0xff44));
    assert_eq!(0, ppu.read(0xff41) & 0x03);
    for x in 0..160 {
        assert_eq!(WHITE, ppu.pixel(0, x));
        assert_eq!(0, ppu.shadow_index(0, x));
    }
}

// All-zero bitplanes decode to index 0 whatever the flip flags say.
#[test]
fn zero_planes_decode_to_index_zero() {
    let ppu = Ppu::new(Mode::GB, ());
    let (c, i) = ppu.point_color(0, 0, TileMapAddr::X9800, TileDataAddr::X8000);
    assert_eq!(0, i);
    assert_eq!(WHITE, c);

    // color mode, with both flip attributes set on the tile
    let mut cgb = Ppu::new(Mode::CGB, ());
    cgb.write(0xff4f, 1);
    cgb.write(0x9800, 0x60);
    cgb.write(0xff4f, 0);
    let (_, i) = cgb.point_color(0, 0, TileMapAddr::X9800, TileDataAddr::X8000);
    assert_eq!(0, i);
}

// Overlapping sprites: the lower OAM index wins.
#[test]
fn sprite_priority_lower_index_wins() {
    let mut ppu = Ppu::new(Mode::GB, ());
    ppu.write(0xff40, 0x93);  // display + background + sprites
    ppu.write(0xff47, 0xe4);
    ppu.write(0xff48, 0xe4);
    // tile 1: row 0 decodes to index 1; tile 2: row 0 decodes to index 2
    ppu.write(0x8010, 0xff);
    ppu.write(0x8011, 0x00);
    ppu.write(0x8020, 0x00);
    ppu.write(0x8021, 0xff);
    // entries 3 and 7 at the same screen position, top-left corner
    ppu.write(0xfe0c, 16);
    ppu.write(0xfe0d, 8);
    ppu.write(0xfe0e, 1);
    ppu.write(0xfe0f, 0);
    ppu.write(0xfe1c, 16);
    ppu.write(0xfe1d, 8);
    ppu.write(0xfe1e, 2);
    ppu.write(0xfe1f, 0);
    ppu.write(0xff44, 0);  // restart the scanline clock at line 0
    ppu.step(80);
    ppu.step(230);
    // entry 3's pixel (index 1 through OBP0 0xe4: the light shade)
    assert_eq!(LIGHT, ppu.pixel(0, 0));
}

// A sprite marked "behind background" shows only where the shadow buffer
// holds index 0.
#[test]
fn sprite_behind_background() {
    let mut ppu = Ppu::new(Mode::GB, ());
    ppu.write(0xff40, 0x93);
    ppu.write(0xff47, 0xe4);
    ppu.write(0xff48, 0xe4);
    // background tile 0: left four pixels index 1, right four index 0
    ppu.write(0x8000, 0xf0);
    ppu.write(0x8001, 0x00);
    // sprite tile 1: all eight pixels index 2
    ppu.write(0x8010, 0x00);
    ppu.write(0x8011, 0xff);
    // entry 0 at the top-left corner, behind the background
    ppu.write(0xfe00, 16);
    ppu.write(0xfe01, 8);
    ppu.write(0xfe02, 1);
    ppu.write(0xfe03, 0x80);
    ppu.write(0xff44, 0);  // restart the scanline clock at line 0
    ppu.step(80);
    ppu.step(230);
    for x in 0..4 {
        // suppressed: the background underneath is opaque
        assert_eq!(LIGHT, ppu.pixel(0, x));
        assert_ne!(0, ppu.shadow_index(0, x));
    }
    for x in 4..8 {
        // shown: the background underneath is index 0
        assert_eq!(DARK, ppu.pixel(0, x));
        assert_eq!(0, ppu.shadow_index(0, x));
    }
}

// Register writes read back exactly, for both palette register groups.
#[test]
fn register_round_trip() {
    let mut ppu = Ppu::new(Mode::CGB, ());
    for (addr, data) in [
        (0xff42u16, 0x12u8),
        (0xff43, 0x34),
        (0xff45, 0x56),
        (0xff4a, 0x78),
        (0xff4b, 0x9a),
        (0xff47, 0xbc),
        (0xff48, 0xde),
        (0xff49, 0xf0),
        (0xff68, 0x15),
        (0xff6a, 0x2b),
    ] {
        ppu.write(addr, data);
        assert_eq!(data, ppu.read(addr), "register {:04x}", addr);
    }
    // palette RAM data: with auto-increment off the cell reads back
    ppu.write(0xff68, 0x05);
    ppu.write(0xff69, 0x77);
    assert_eq!(0x77, ppu.read(0xff69));
    ppu.write(0xff6a, 0x06);
    ppu.write(0xff6b, 0x66);
    assert_eq!(0x66, ppu.read(0xff6b));
}

// End to end: one tile, one palette, one rendered scanline.
#[test]
fn first_pixel_renders_black() {
    let mut ppu = Ppu::new(Mode::GB, ());
    ppu.write(0xff40, 0x91);
    ppu.write(0x8000, 0xff);
    ppu.write(0x8001, 0xff);
    ppu.write(0x9800, 0x00);
    ppu.write(0xff47, 0xfc);
    ppu.write(0xff44, 0);  // restart the scanline clock at line 0
    ppu.step(80);
    ppu.step(230);
    assert_eq!(BLACK, ppu.pixel(0, 0));
    assert_eq!(3, ppu.shadow_index(0, 0));
}

// The mid-line quirk: LY falls back to 0 halfway through the last
// vertical-blank line.
#[test]
fn ly_resets_mid_way_through_last_line() {
    let mut ppu = Ppu::new(Mode::GB, ());
    // run to the start of the vertical blank
    let mut fed: u64 = 0;
    while fed < 65808 - 310 {
        ppu.step(4);
        fed += 4;
    }
    assert_eq!(144, ppu.read(0xff44));
    // line 153 starts 9 * 456 dots in
    for _ in 0..(9 * 456 / 4) {
        ppu.step(4);
    }
    assert_eq!(153, ppu.read(0xff44));
    // just past the midpoint of the line the counter reads 0 already
    for _ in 0..(232 / 4) {
        ppu.step(4);
    }
    assert_eq!(0, ppu.read(0xff44));
}

#[test]
fn tile_data_dump_decodes_shades() {
    let mut ppu = Ppu::new(Mode::GB, ());
    ppu.write(0x8000, 0xff);
    ppu.write(0x8001, 0xff);
    let mut out: Vec<Color> = Vec::new();
    ppu.tile_data(TileDataAddr::X8000, 0, &mut out);
    assert_eq!(128 * 128, out.len());
    // row 0 of tile 0 is all index 3
    assert_eq!(BLACK, out[0]);
    assert_eq!(BLACK, out[7]);
    // the rest of the tile is untouched
    assert_eq!(WHITE, out[128]);
}

#[test]
fn tile_map_dump_uses_palette() {
    let mut ppu = Ppu::new(Mode::GB, ());
    ppu.write(0x8000, 0xff);
    ppu.write(0x8001, 0x00);
    ppu.write(0xff47, 0xe4);
    let mut out: Vec<Color> = Vec::new();
    ppu.tile_map(TileMapAddr::X9800, TileDataAddr::X8000, &mut out);
    assert_eq!(256 * 256, out.len());
    assert_eq!(LIGHT, out[0]);
}

// Writing LY through the bus resets the dot clock into the search phase.
#[test]
fn ly_write_resets_timing() {
    let mut ppu = Ppu::new(Mode::GB, ());
    for _ in 0..100 {
        ppu.step(7);
    }
    ppu.write(0xff44, 0x55);
    assert_eq!(0, ppu.read(0xff44));
    assert_eq!(2, ppu.read(0xff41) & 0x03);
}
