use emulator::buttons::{ButtonState, Buttons, Event};
use emulator::clock::Clock;
use emulator::controller::Controller;
use emulator::cpu::{Flag, Registers};
use emulator::device::Device;
use emulator::input::{ButtonMode, EmulatorInput};
use emulator::interrupt;
use emulator::joypad::{Btn, Dir, Joypad, Key};
use emulator::keypad::{Keypad, KeypadKey};
use emulator::screen::{convert_pixel_to_display_format, Colors, ConsoleDisplay, Framebuffer, Pixel};

#[test]
fn clock_divides_and_carries() {
    let mut clock = Clock::new(8, 2);
    assert_eq!(0, clock.step(3));
    assert_eq!(1, clock.step(2));
    assert_eq!(25, clock.step(100));
}

#[test]
fn joypad_rows_and_interrupt() {
    let mut joypad = Joypad::default();
    joypad.press(Key::Btn(Btn::A));
    assert_eq!(Some(interrupt::Flag::Joypad), joypad.take_int());
    // pressing the held key again changes nothing and raises nothing
    joypad.press(Key::Btn(Btn::A));
    assert_eq!(None, joypad.take_int());

    joypad.write(0xff00, 0x10);
    assert_eq!(0x10 | 0x0d, joypad.read(0xff00));
    joypad.release(Key::Btn(Btn::A));
    joypad.write(0xff00, 0x20);
    joypad.press(Key::Dir(Dir::Left));
    assert_eq!(0x20 | 0x0d, joypad.read(0xff00));
    joypad.write(0xff00, 0x30);
    assert_eq!(0x3f, joypad.read(0xff00));
    joypad.write(0xff00, 0x00);
    assert_eq!(0x0f, joypad.read(0xff00));
}

#[test]
fn keypad_latches_interrupt_on_selected_press() {
    let mut keypad = Keypad::new();
    assert_eq!(0xff, keypad.rb());
    // select the directional row, then hold a directional key
    keypad.wb(0xef);
    keypad.keydown(KeypadKey::Right);
    assert_eq!(0x10, keypad.interrupt);
    assert_eq!(0x0e, keypad.rb() & 0x0f);
    keypad.keyup(KeypadKey::Right);
    assert_eq!(0x0f, keypad.rb() & 0x0f);
}

#[test]
fn emulator_input_latches() {
    let mut input = EmulatorInput::new();
    assert!(!input.is_a_button_pressed());
    input.press_a_button();
    assert!(input.is_a_button_pressed());
    input.release_a_button();
    assert!(!input.is_a_button_pressed());
    input.press_b_button();
    assert!(input.is_b_button_pressed());
    input.press_start_button();
    assert!(input.is_start_button_pressed());
    input.press_select_button();
    assert!(input.is_select_button_pressed());
    input.release_select_button();
    input.press_down_button();
    assert!(input.is_down_button_pressed());
    input.press_left_button();
    assert!(input.is_left_button_pressed());
    input.press_right_button();
    assert!(input.is_right_button_pressed());
    input.release_up_button();
    assert!(!input.is_up_button_pressed());
    input.keypress(3, true);
    input.set_button_mode(ButtonMode::DirectionalKeys);
    let _ = matches!(Event::Idle, Event::Idle | Event::PowerOff);
}

#[test]
fn controller_axis_dead_zone() {
    let mut c = Controller::new();
    c.update_x_axis(5000);  // inside the dead zone: nothing registers
    assert!(!c.buttons().left.is_down() && !c.buttons().right.is_down());
    c.update_x_axis(20000);
    assert!(c.buttons().right.is_down());
    c.update_y_axis(-20000);
    assert!(c.buttons().up.is_down());
    c.update_y_axis(0);
    assert!(!c.buttons().up.is_down() && !c.buttons().down.is_down());
}

#[test]
fn buttons_start_in_default_state() {
    let buttons = Buttons::new(ButtonState::Up);
    assert!(!buttons.up.is_down());
    assert!(!buttons.interrupt);
    assert!(ButtonState::Down.is_down());
}

#[test]
fn cpu_register_pairs() {
    let mut regs = Registers::default();
    regs.set_af(0x12ff);
    // the low nibble of F always reads as zero
    assert_eq!(0x12f0, regs.af());
    regs.set_bc(0x3456);
    assert_eq!(0x3456, regs.bc());
    regs.set_de(0x789a);
    assert_eq!(0x789a, regs.de());
    regs.set_hl(0xbcde);
    assert_eq!(0xbcde, regs.hl());
    regs.set_flag(Flag::Z, true);
    assert!(regs.is_flag(Flag::Z));
    regs.set_flag(Flag::Z, false);
    assert!(!regs.is_flag(Flag::Z));
}

#[test]
fn pixel_words_pack_channels() {
    let pixel = Pixel { r: 0x12, g: 0x34, b: 0x56 };
    assert_eq!(0x123456, convert_pixel_to_display_format(&pixel));
}

#[test]
fn colors_from_bytes() {
    assert!(matches!(Colors::from_u8(0), Colors::White));
    assert!(matches!(Colors::from_u8(1), Colors::LightGrey));
    assert!(matches!(Colors::from_u8(2), Colors::DarkGrey));
    assert!(matches!(Colors::from_u8(3), Colors::Black));
}

#[test]
fn console_display_stores_in_row_order() {
    let mut display = ConsoleDisplay::new(4, 3);
    display.set_pixel(2, 1, 0xabcdef);
    assert_eq!(0xabcdef, display.pixels[1 * 4 + 2]);
    // off-grid writes are ignored
    display.set_pixel(9, 9, 0x123456);
    assert_eq!(4 * 3, display.pixels.len());
    assert_eq!(2 * 4 + 3, display.update());
}

#[test]
fn framebuffer_copies_to_display() {
    let mut fb = Framebuffer::new();
    fb.data[0] = Pixel { r: 1, g: 2, b: 3 };
    let last = fb.copy_framebuffer_to_display();
    assert_eq!(31 * 64 + 63, last);
    assert_eq!(0x010203, fb.display.pixels[0]);
    assert_eq!(0, fb.display.pixels[1]);
}
