use emulator::device::Device;
use emulator::ram::Ram;

#[test]
fn words() {
    let mut dev = Ram::new(0, 4);

    dev.write_word(0, 0x1234);
    dev.write_word(2, 0xabcd);
    assert_eq!(0x1234, dev.read_word(0));
    assert_eq!(0xabcd, dev.read_word(2));
}

#[test]
fn ram_bytes_round_trip() {
    let mut dev = Ram::new(0xc000, 0x100);
    dev.write(0xc000, 0x42);
    dev.write(0xc0ff, 0x99);
    assert_eq!(0x42, dev.read(0xc000));
    assert_eq!(0x99, dev.read(0xc0ff));
    assert_eq!(0, dev.read(0xc001));
}

#[test]
fn read_signed_reinterprets_the_byte() {
    let mut dev = Ram::new(0, 2);
    dev.write(0, 0x7f);
    dev.write(1, 0x80);
    assert_eq!(127, dev.read_signed(0));
    assert_eq!(-128, dev.read_signed(1));
}

#[test]
fn missing_device_reads_open_bus() {
    let mut nothing = ();
    assert_eq!(0xff, nothing.read(0x1234));
    nothing.write(0x1234, 0);
    assert_eq!(0xffff, nothing.read_word(0x4000));
}
