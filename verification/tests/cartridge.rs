use emulator::cartridge::{from_bytes, AnyCartridge, Mbc1, Mbc3, Mbc5, Rom};
use emulator::device::Device;

fn image(kind: u8, ram_code: u8) -> Vec<u8> {
    let mut rom = vec![0u8; 0x8000];
    rom[0x147] = kind;
    rom[0x149] = ram_code;
    for (i, b) in rom.iter_mut().enumerate().take(0x100) {
        *b = i as u8;
    }
    rom
}

#[test]
fn from_bytes_picks_the_controller() {
    assert!(matches!(from_bytes(&image(0x00, 0)), Ok(AnyCartridge::Rom(_))));
    assert!(matches!(from_bytes(&image(0x01, 2)), Ok(AnyCartridge::Mbc1(_))));
    assert!(matches!(from_bytes(&image(0x10, 3)), Ok(AnyCartridge::Mbc3(_))));
    assert!(matches!(from_bytes(&image(0x1b, 4)), Ok(AnyCartridge::Mbc5(_))));
    // unknown controller byte
    assert!(from_bytes(&image(0x42, 0)).is_err());
    // image too short to carry a header
    assert!(from_bytes(&[0u8; 0x100]).is_err());
}

#[test]
fn rom_reads_image_and_ignores_writes() {
    let mut rom = Rom::new(image(0x00, 0));
    assert_eq!(0x12, rom.read(0x0012));
    rom.write(0x0012, 0x99);
    assert_eq!(0x12, rom.read(0x0012));
    // reads past the image are open bus
    let mut short = Rom::new(vec![1, 2, 3]);
    assert_eq!(0xff, short.read(0x2000));
    let _ = short.read(0xa000);
}

#[test]
fn mbc1_switches_rom_banks() {
    let mut rom = image(0x01, 2);
    rom.resize(0x4000 * 4, 0);
    rom[0x4000 * 2] = 0xaa;
    rom[0x4000 * 3] = 0xbb;
    let mut cart = Mbc1::new(rom);
    // bank 0 reads as bank 1 in the switchable window
    assert_eq!(0, cart.read(0x4000));
    cart.write(0x2000, 2);
    assert_eq!(0xaa, cart.read(0x4000));
    cart.write(0x2000, 3);
    assert_eq!(0xbb, cart.read(0x4000));
    // RAM is silent until enabled
    cart.write(0xa000, 0x55);
    assert_eq!(0, cart.read(0xa000));
    cart.write(0x0000, 0x0a);
    cart.write(0xa000, 0x55);
    assert_eq!(0x55, cart.read(0xa000));
    cart.write(0x0000, 0x00);
    assert_eq!(0, cart.read(0xa000));
}

#[test]
fn mbc3_ram_and_clock_windows() {
    let mut cart = Mbc3::new(image(0x10, 3));
    cart.write(0x0000, 0x0a);
    cart.write(0x4000, 0x01);  // RAM bank 1
    cart.write(0xa010, 0x77);
    assert_eq!(0x77, cart.read(0xa010));
    cart.write(0x4000, 0x08);  // clock seconds cell
    cart.write(0xa000, 59);
    assert_eq!(59, cart.read(0xa000));
    cart.write(0x4000, 0x01);
    assert_eq!(0x77, cart.read(0xa010));
}

#[test]
fn mbc5_nine_bit_rom_bank() {
    let mut rom = image(0x19, 0);
    rom.resize(0x4000 * 0x120, 0);
    rom[0x4000 * 0x103] = 0xcc;
    let mut cart = Mbc5::new(rom);
    cart.write(0x2000, 0x03);
    cart.write(0x3000, 0x01);
    assert_eq!(0xcc, cart.read(0x4000));
    // bank 0 maps to the fixed window's contents here
    cart.write(0x2000, 0x00);
    cart.write(0x3000, 0x00);
    assert_eq!(0x12, cart.read(0x0012));
}
