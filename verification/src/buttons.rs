//! Front-end button snapshot handed to the bus by the host event loop.

use vstd::prelude::*;

verus! {

/// An event reported by the host front end.
#[derive(Clone, Copy, PartialEq, Eq, Structural, Debug)]
pub enum Event {
    /// No event
    Idle,
    /// Shutdown the emulator
    PowerOff,
}

/// Description of a button's state
#[derive(Clone, Copy, PartialEq, Eq, Structural, Debug)]
pub enum ButtonState {
    /// Key is pushed down
    Down,
    /// Key is up
    Up,
}

impl ButtonState {
    pub fn is_down(self) -> (r: bool)
        ensures
            r == (self is Down),
    {
        match self {
            ButtonState::Down => true,
            _ => false,
        }
    }
}

/// State of all the console buttons
#[derive(Clone, Copy, PartialEq, Eq, Structural, Debug)]
pub struct Buttons {
    pub up: ButtonState,
    pub down: ButtonState,
    pub left: ButtonState,
    pub right: ButtonState,
    pub a: ButtonState,
    pub b: ButtonState,
    pub start: ButtonState,
    pub select: ButtonState,
    /// State of the interrupt that occurs at the moment a button is pressed
    pub interrupt: bool,
}

impl Buttons {
    pub fn new(default_state: ButtonState) -> (r: Buttons)
        ensures
            r.up == default_state && r.down == default_state,
            r.left == default_state && r.right == default_state,
            r.a == default_state && r.b == default_state,
            r.start == default_state && r.select == default_state,
            !r.interrupt,
    {
        Buttons {
            a: default_state,
            b: default_state,
            start: default_state,
            select: default_state,
            up: default_state,
            down: default_state,
            left: default_state,
            right: default_state,
            interrupt: false,
        }
    }
}

} // verus!
