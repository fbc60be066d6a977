//! Host-side input state: one boolean per console button plus a free-form
//! key table, written by the front end and polled by the bus.

use vstd::prelude::*;

verus! {

/// Which button row the host has selected through the joypad port.
#[derive(Clone, Copy, PartialEq, Eq, Structural, Debug)]
pub enum ButtonMode {
    Nothing,
    ButtonKeys,
    DirectionalKeys,
}

pub const NUM_KEYS: usize = 16;

/// Latched state of every button the front end can report.
pub struct EmulatorInput {
    pub a_button: bool,
    pub b_button: bool,
    pub start_button: bool,
    pub select_button: bool,
    pub up_button: bool,
    pub down_button: bool,
    pub left_button: bool,
    pub right_button: bool,
    pub button_mode: ButtonMode,
    pub keys: Vec<bool>,
}

impl EmulatorInput {
    pub open spec fn wf(&self) -> bool {
        self.keys@.len() == NUM_KEYS
    }

    pub fn new() -> (r: EmulatorInput)
        ensures
            r.wf(),
            !r.a_button && !r.b_button && !r.start_button && !r.select_button,
            !r.up_button && !r.down_button && !r.left_button && !r.right_button,
            r.button_mode is Nothing,
            forall|i: int| 0 <= i < NUM_KEYS ==> !r.keys@[i],
    {
        let mut keys: Vec<bool> = Vec::new();
        let mut i: usize = 0;
        while i < NUM_KEYS
            invariant
                i <= NUM_KEYS,
                keys@.len() == i,
                forall|j: int| 0 <= j < i ==> !keys@[j],
            decreases NUM_KEYS - i,
        {
            keys.push(false);
            i = i + 1;
        }
        EmulatorInput {
            button_mode: ButtonMode::Nothing,
            a_button: false,
            b_button: false,
            start_button: false,
            select_button: false,
            up_button: false,
            down_button: false,
            left_button: false,
            right_button: false,
            keys,
        }
    }

    pub fn keypress(&mut self, index: usize, pressed: bool)
        requires
            old(self).wf(),
            index < NUM_KEYS,
        ensures
            final(self).keys@ == old(self).keys@.update(index as int, pressed),
            *final(self) == (EmulatorInput { keys: final(self).keys, ..*old(self) }),
    {
        self.keys[index] = pressed;
    }

    /// Method to set the button mode.
    pub fn set_button_mode(&mut self, mode: ButtonMode)
        ensures
            *final(self) == (EmulatorInput { button_mode: mode, ..*old(self) }),
    {
        self.button_mode = mode;
    }

    pub fn press_a_button(&mut self)
        ensures
            *final(self) == (EmulatorInput { a_button: true, ..*old(self) }),
    {
        self.a_button = true;
    }

    pub fn release_a_button(&mut self)
        ensures
            *final(self) == (EmulatorInput { a_button: false, ..*old(self) }),
    {
        self.a_button = false;
    }

    pub fn is_a_button_pressed(&self) -> (r: bool)
        ensures
            r == self.a_button,
    {
        self.a_button
    }

    pub fn press_b_button(&mut self)
        ensures
            *final(self) == (EmulatorInput { b_button: true, ..*old(self) }),
    {
        self.b_button = true;
    }

    pub fn release_b_button(&mut self)
        ensures
            *final(self) == (EmulatorInput { b_button: false, ..*old(self) }),
    {
        self.b_button = false;
    }

    pub fn is_b_button_pressed(&self) -> (r: bool)
        ensures
            r == self.b_button,
    {
        self.b_button
    }

    pub fn press_start_button(&mut self)
        ensures
            *final(self) == (EmulatorInput { start_button: true, ..*old(self) }),
    {
        self.start_button = true;
    }

    pub fn release_start_button(&mut self)
        ensures
            *final(self) == (EmulatorInput { start_button: false, ..*old(self) }),
    {
        self.start_button = false;
    }

    pub fn is_start_button_pressed(&self) -> (r: bool)
        ensures
            r == self.start_button,
    {
        self.start_button
    }

    pub fn press_select_button(&mut self)
        ensures
            *final(self) == (EmulatorInput { select_button: true, ..*old(self) }),
    {
        self.select_button = true;
    }

    pub fn release_select_button(&mut self)
        ensures
            *final(self) == (EmulatorInput { select_button: false, ..*old(self) }),
    {
        self.select_button = false;
    }

    pub fn is_select_button_pressed(&self) -> (r: bool)
        ensures
            r == self.select_button,
    {
        self.select_button
    }

    /// A quirk of this input map: the up key press lands on the select
    /// latch, and hosts may rely on it.
    pub fn press_up_button(&mut self)
        ensures
            *final(self) == (EmulatorInput { select_button: true, ..*old(self) }),
    {
        self.select_button = true;
    }

    pub fn release_up_button(&mut self)
        ensures
            *final(self) == (EmulatorInput { up_button: false, ..*old(self) }),
    {
        self.up_button = false;
    }

    pub fn is_up_button_pressed(&self) -> (r: bool)
        ensures
            r == self.up_button,
    {
        self.up_button
    }

    pub fn press_down_button(&mut self)
        ensures
            *final(self) == (EmulatorInput { down_button: true, ..*old(self) }),
    {
        self.down_button = true;
    }

    pub fn release_down_button(&mut self)
        ensures
            *final(self) == (EmulatorInput { down_button: false, ..*old(self) }),
    {
        self.down_button = false;
    }

    pub fn is_down_button_pressed(&self) -> (r: bool)
        ensures
            r == self.down_button,
    {
        self.down_button
    }

    pub fn press_left_button(&mut self)
        ensures
            *final(self) == (EmulatorInput { left_button: true, ..*old(self) }),
    {
        self.left_button = true;
    }

    pub fn release_left_button(&mut self)
        ensures
            *final(self) == (EmulatorInput { left_button: false, ..*old(self) }),
    {
        self.left_button = false;
    }

    pub fn is_left_button_pressed(&self) -> (r: bool)
        ensures
            r == self.left_button,
    {
        self.left_button
    }

    pub fn press_right_button(&mut self)
        ensures
            *final(self) == (EmulatorInput { right_button: true, ..*old(self) }),
    {
        self.right_button = true;
    }

    pub fn release_right_button(&mut self)
        ensures
            *final(self) == (EmulatorInput { right_button: false, ..*old(self) }),
    {
        self.right_button = false;
    }

    pub fn is_right_button_pressed(&self) -> (r: bool)
        ensures
            r == self.right_button,
    {
        self.right_button
    }
}

} // verus!
