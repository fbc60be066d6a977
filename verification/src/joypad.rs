//! Joypad: two four-button rows multiplexed through one register at
//! `0xff00`, with an interrupt request on any newly pressed key.

use vstd::prelude::*;
use crate::device::Device;
use crate::interrupt::Flag;

verus! {

/// Which register row a read of `0xff00` selects.
pub const BTN_ROW_FLAG: u8 = 0x10;

pub const DIR_ROW_FLAG: u8 = 0x20;

/// Buttons.
#[derive(Clone, Copy, PartialEq, Eq, Structural, Debug)]
pub enum Key {
    Btn(Btn),
    Dir(Dir),
}

/// Action buttons.
#[derive(Clone, Copy, PartialEq, Eq, Structural, Debug)]
pub enum Btn {
    Start,
    Select,
    A,
    B,
}

impl Btn {
    /// Bit of the button within the action row.
    pub open spec fn spec_mask(self) -> u8 {
        match self {
            Btn::Start => 0x8,
            Btn::Select => 0x4,
            Btn::A => 0x2,
            Btn::B => 0x1,
        }
    }

    #[verifier::when_used_as_spec(spec_mask)]
    pub fn mask(self) -> (m: u8)
        ensures
            m == self.spec_mask(),
    {
        match self {
            Btn::Start => 0x8,
            Btn::Select => 0x4,
            Btn::A => 0x2,
            Btn::B => 0x1,
        }
    }
}

/// Directional buttons.
#[derive(Clone, Copy, PartialEq, Eq, Structural, Debug)]
pub enum Dir {
    Down,
    Up,
    Left,
    Right,
}

impl Dir {
    /// Bit of the button within the directional row.
    pub open spec fn spec_mask(self) -> u8 {
        match self {
            Dir::Down => 0x8,
            Dir::Up => 0x4,
            Dir::Left => 0x2,
            Dir::Right => 0x1,
        }
    }

    #[verifier::when_used_as_spec(spec_mask)]
    pub fn mask(self) -> (m: u8)
        ensures
            m == self.spec_mask(),
    {
        match self {
            Dir::Down => 0x8,
            Dir::Up => 0x4,
            Dir::Left => 0x2,
            Dir::Right => 0x1,
        }
    }
}

/// Joypad emulation. Rows store a 0 bit for a held key, matching the
/// hardware's active-low wiring.
pub struct Joypad {
    pub int: Option<Flag>,
    pub joyp: u8,
    pub btn: u8,
    pub dir: u8,
}

impl Default for Joypad {
    fn default() -> (j: Joypad)
        ensures
            j.int is None,
            j.joyp == 0x00,
            j.btn == 0xff,
            j.dir == 0xff,
    {
        Joypad { int: None, joyp: 0x00, btn: 0xff, dir: 0xff }
    }
}

impl Joypad {
    /// Row values after pressing `key`: the key's bit is cleared in its row.
    pub open spec fn spec_pressed(&self, key: Key) -> (u8, u8) {
        match key {
            Key::Btn(b) => ((self.btn & !b.spec_mask()), self.dir),
            Key::Dir(d) => (self.btn, (self.dir & !d.spec_mask())),
        }
    }

    /// Register new keypad input. Requests a joypad interrupt exactly when
    /// the press changes a row.
    pub fn press(&mut self, key: Key)
        ensures
            final(self).joyp == old(self).joyp,
            (final(self).btn, final(self).dir) == old(self).spec_pressed(key),
            final(self).int == if old(self).spec_pressed(key) != (old(self).btn, old(self).dir) {
                Some(Flag::Joypad)
            } else {
                old(self).int
            },
    {
        let (btn, dir) = match key {
            Key::Btn(b) => (self.btn & !b.mask(), self.dir),
            Key::Dir(d) => (self.btn, self.dir & !d.mask()),
        };
        if self.btn != btn || self.dir != dir {
            self.int = Some(Flag::Joypad);
        }
        self.btn = btn;
        self.dir = dir;
    }

    /// Release a key: its bit is set again in its row. Releases request no
    /// interrupt.
    pub fn release(&mut self, key: Key)
        ensures
            final(self).joyp == old(self).joyp,
            final(self).int == old(self).int,
            match key {
                Key::Btn(b) => final(self).btn == (old(self).btn | b.spec_mask())
                    && final(self).dir == old(self).dir,
                Key::Dir(d) => final(self).dir == (old(self).dir | d.spec_mask())
                    && final(self).btn == old(self).btn,
            },
    {
        match key {
            Key::Btn(b) => self.btn = self.btn | b.mask(),
            Key::Dir(d) => self.dir = self.dir | d.mask(),
        }
    }

    /// Hand out the pending interrupt request, clearing it.
    pub fn take_int(&mut self) -> (r: Option<Flag>)
        ensures
            r == old(self).int,
            final(self).int is None,
            final(self).joyp == old(self).joyp,
            final(self).btn == old(self).btn,
            final(self).dir == old(self).dir,
    {
        self.int.take()
    }
}

impl Device for Joypad {
    open spec fn addr_ok(&self, addr: u16) -> bool {
        addr == 0xff00
    }

    open spec fn byte_at(&self, addr: u16) -> u8 {
        let sel = self.joyp & 0x30;
        if sel == BTN_ROW_FLAG {
            BTN_ROW_FLAG | (self.btn & 0xf)
        } else if sel == DIR_ROW_FLAG {
            DIR_ROW_FLAG | (self.dir & 0xf)
        } else if sel == 0x30 {
            0x3f
        } else {
            0xf
        }
    }

    open spec fn write_ok(&self, addr: u16, data: u8) -> bool {
        true
    }

    /// The joypad register multiplexes two rows; no byte reads back as
    /// written.
    open spec fn plain_store(&self, addr: u16) -> bool {
        false
    }

    fn read(&self, addr: u16) -> (r: u8)
        ensures
            r == self.byte_at(addr),
    {
        let sel = self.joyp & 0x30;
        if sel == BTN_ROW_FLAG {
            BTN_ROW_FLAG | (self.btn & 0xf)
        } else if sel == DIR_ROW_FLAG {
            DIR_ROW_FLAG | (self.dir & 0xf)
        } else if sel == 0x30 {
            0x3f
        } else {
            0xf
        }
    }

    fn write(&mut self, addr: u16, data: u8)
        ensures
            *final(self) == (Joypad { joyp: data, ..*old(self) }),
    {
        self.joyp = data;
    }
}

} // verus!
