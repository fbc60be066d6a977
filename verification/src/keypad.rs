//! Alternative keypad model: two active-low rows selected through bits 4-5
//! of the data register, with an interrupt bit latched on a new press.

use vstd::prelude::*;

verus! {

/// Keypad state. `row0` holds the directional keys, `row1` the action keys,
/// both active-low in their four low bits.
pub struct Keypad {
    pub row0: u8,
    pub row1: u8,
    pub data: u8,
    pub interrupt: u8,
}

/// The eight physical keys.
#[derive(Clone, Copy, PartialEq, Eq, Structural, Debug)]
pub enum KeypadKey {
    Right,
    Left,
    Up,
    Down,
    A,
    B,
    Select,
    Start,
}

impl KeypadKey {
    /// Row (0 directional, 1 action) and bit of the key.
    pub open spec fn spec_row(self) -> int {
        match self {
            KeypadKey::Right | KeypadKey::Left | KeypadKey::Up | KeypadKey::Down => 0,
            KeypadKey::A | KeypadKey::B | KeypadKey::Select | KeypadKey::Start => 1,
        }
    }

    pub open spec fn spec_mask(self) -> u8 {
        match self {
            KeypadKey::Right | KeypadKey::A => 0x1,
            KeypadKey::Left | KeypadKey::B => 0x2,
            KeypadKey::Up | KeypadKey::Select => 0x4,
            KeypadKey::Down | KeypadKey::Start => 0x8,
        }
    }

    #[verifier::when_used_as_spec(spec_mask)]
    pub fn mask(self) -> (m: u8)
        ensures
            m == self.spec_mask(),
    {
        match self {
            KeypadKey::Right | KeypadKey::A => 0x1,
            KeypadKey::Left | KeypadKey::B => 0x2,
            KeypadKey::Up | KeypadKey::Select => 0x4,
            KeypadKey::Down | KeypadKey::Start => 0x8,
        }
    }
}

impl Keypad {
    /// The selected-row nibble a refresh folds into the data register:
    /// a row contributes only when its select bit (active low) is clear.
    pub open spec fn spec_row_bits(&self) -> u8 {
        let v0: u8 = 0xf;
        let v1: u8 = if self.data & 0x10 == 0x00 {
            v0 & self.row0
        } else {
            v0
        };
        if self.data & 0x20 == 0x00 {
            v1 & self.row1
        } else {
            v1
        }
    }

    /// Data register after a refresh.
    pub open spec fn spec_data_after_update(&self) -> u8 {
        (self.data & 0xf0) | self.spec_row_bits()
    }

    /// Whether a refresh latches the interrupt bit: some selected key is
    /// newly down while none was before.
    pub open spec fn spec_update_interrupts(&self) -> bool {
        self.data & 0xf == 0xf && self.spec_row_bits() != 0xf
    }

    pub fn new() -> (k: Keypad)
        ensures
            k.row0 == 0x0f,
            k.row1 == 0x0f,
            k.data == 0xff,
            k.interrupt == 0,
    {
        Keypad { row0: 0x0f, row1: 0x0f, data: 0xff, interrupt: 0 }
    }

    /// Read the data register.
    pub fn rb(&self) -> (r: u8)
        ensures
            r == self.data,
    {
        self.data
    }

    /// Write the row-select bits; the low nibble is refreshed from the rows.
    pub fn wb(&mut self, value: u8)
        ensures
            final(self).row0 == old(self).row0,
            final(self).row1 == old(self).row1,
            final(self).data == (Keypad {
                data: (old(self).data & 0xcf) | (value & 0x30),
                ..*old(self)
            }).spec_data_after_update(),
            final(self).interrupt == if (Keypad {
                data: (old(self).data & 0xcf) | (value & 0x30),
                ..*old(self)
            }).spec_update_interrupts() {
                old(self).interrupt | 0x10
            } else {
                old(self).interrupt
            },
    {
        self.data = (self.data & 0xCF) | (value & 0x30);
        self.update();
    }

    fn update(&mut self)
        ensures
            final(self).row0 == old(self).row0,
            final(self).row1 == old(self).row1,
            final(self).data == old(self).spec_data_after_update(),
            final(self).interrupt == if old(self).spec_update_interrupts() {
                old(self).interrupt | 0x10
            } else {
                old(self).interrupt
            },
    {
        let old_values = self.data & 0xF;
        let mut new_values: u8 = 0xF;

        if self.data & 0x10 == 0x00 {
            new_values = new_values & self.row0;
        }
        if self.data & 0x20 == 0x00 {
            new_values = new_values & self.row1;
        }

        if old_values == 0xF && new_values != 0xF {
            self.interrupt = self.interrupt | 0x10;
        }

        self.data = (self.data & 0xF0) | new_values;
    }

    /// Mark a key held: clear its bit in its row, then refresh.
    pub fn keydown(&mut self, key: KeypadKey)
        ensures
            ({
                let mid = if key.spec_row() == 0 {
                    Keypad { row0: (old(self).row0 & !key.spec_mask()) as u8, ..*old(self) }
                } else {
                    Keypad { row1: (old(self).row1 & !key.spec_mask()) as u8, ..*old(self) }
                };
                final(self).row0 == mid.row0 && final(self).row1 == mid.row1 && final(self).data
                    == mid.spec_data_after_update() && final(self).interrupt == if mid.spec_update_interrupts() {
                    mid.interrupt | 0x10
                } else {
                    mid.interrupt
                }
            }),
    {
        match key {
            KeypadKey::Right | KeypadKey::Left | KeypadKey::Up | KeypadKey::Down => {
                self.row0 = self.row0 & !key.mask();
            },
            KeypadKey::A | KeypadKey::B | KeypadKey::Select | KeypadKey::Start => {
                self.row1 = self.row1 & !key.mask();
            },
        }
        self.update();
    }

    /// Mark a key released: set its bit in its row, then refresh.
    pub fn keyup(&mut self, key: KeypadKey)
        ensures
            ({
                let mid = if key.spec_row() == 0 {
                    Keypad { row0: (old(self).row0 | key.spec_mask()) as u8, ..*old(self) }
                } else {
                    Keypad { row1: (old(self).row1 | key.spec_mask()) as u8, ..*old(self) }
                };
                final(self).row0 == mid.row0 && final(self).row1 == mid.row1 && final(self).data
                    == mid.spec_data_after_update() && final(self).interrupt == if mid.spec_update_interrupts() {
                    mid.interrupt | 0x10
                } else {
                    mid.interrupt
                }
            }),
    {
        match key {
            KeypadKey::Right | KeypadKey::Left | KeypadKey::Up | KeypadKey::Down => {
                self.row0 = self.row0 | key.mask();
            },
            KeypadKey::A | KeypadKey::B | KeypadKey::Select | KeypadKey::Start => {
                self.row1 = self.row1 | key.mask();
            },
        }
        self.update();
    }
}

} // verus!
