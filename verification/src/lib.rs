//! Core of a handheld-console emulator: the pixel processing unit with its
//! dot-accurate timing state machine, scanline renderer and register file,
//! together with the cartridge bank controllers, joypad, timer clock and the
//! small device bus that ties them together.

use vstd::prelude::*;

pub mod audio;
pub mod bits;
pub mod buttons;
pub mod cartridge;
pub mod clock;
pub mod controller;
pub mod cpu;
pub mod device;
pub mod input;
pub mod interrupt;
pub mod joypad;
pub mod keypad;
pub mod ppu;
pub mod ram;
pub mod screen;

verus! {

/// Hardware generation the machine is running as. `GB` is the 4-shade
/// monochrome model, `CGB` the color model with palette RAM and banked VRAM.
/// Chosen once at power-on and never changed.
#[derive(Clone, Copy, PartialEq, Eq, Structural, Debug)]
pub enum Mode {
    GB,
    CGB,
}

} // verus!
