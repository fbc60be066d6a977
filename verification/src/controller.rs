//! Game-controller state: the button snapshot the host event loop fills
//! in, and the stick-to-directional-pad mapping with its dead zone. The
//! event loop itself (windowing, device enumeration) lives in the front
//! end; it decodes events and calls in with plain values.

use vstd::prelude::*;
use crate::buttons::{ButtonState, Buttons};

verus! {

/// The controller axis moves in a range from -32768 to +32767. To avoid
/// spurious events this constant says how far from 0 the axis has to move
/// for us to register the event.
pub const AXIS_DEAD_ZONE: i16 = 10_000;

#[derive(Clone, Copy, PartialEq, Eq, Structural, Debug)]
pub enum AxisState {
    Neutral,
    Negative,
    Positive,
}

impl AxisState {
    pub open spec fn spec_from_value(val: i16) -> AxisState {
        if val > AXIS_DEAD_ZONE {
            AxisState::Positive
        } else if val < -AXIS_DEAD_ZONE {
            AxisState::Negative
        } else {
            AxisState::Neutral
        }
    }

    pub fn from_value(val: i16) -> (r: AxisState)
        ensures
            r == AxisState::spec_from_value(val),
    {
        if val > AXIS_DEAD_ZONE {
            AxisState::Positive
        } else if val < -AXIS_DEAD_ZONE {
            AxisState::Negative
        } else {
            AxisState::Neutral
        }
    }

    pub open spec fn spec_down_if_negative(self) -> ButtonState {
        if self is Negative {
            ButtonState::Down
        } else {
            ButtonState::Up
        }
    }

    pub fn down_if_negative(self) -> (r: ButtonState)
        ensures
            r == self.spec_down_if_negative(),
    {
        if self == AxisState::Negative {
            ButtonState::Down
        } else {
            ButtonState::Up
        }
    }

    pub open spec fn spec_down_if_positive(self) -> ButtonState {
        if self is Positive {
            ButtonState::Down
        } else {
            ButtonState::Up
        }
    }

    pub fn down_if_positive(self) -> (r: ButtonState)
        ensures
            r == self.spec_down_if_positive(),
    {
        if self == AxisState::Positive {
            ButtonState::Down
        } else {
            ButtonState::Up
        }
    }
}

/// Button state collected from the host's input devices.
pub struct Controller {
    pub buttons: Buttons,
    pub x_axis_state: AxisState,
    pub y_axis_state: AxisState,
}

impl Controller {
    pub fn new() -> (c: Controller)
        ensures
            c.buttons == (Buttons {
                up: ButtonState::Up,
                down: ButtonState::Up,
                left: ButtonState::Up,
                right: ButtonState::Up,
                a: ButtonState::Up,
                b: ButtonState::Up,
                start: ButtonState::Up,
                select: ButtonState::Up,
                interrupt: false,
            }),
            c.x_axis_state is Neutral,
            c.y_axis_state is Neutral,
    {
        Controller {
            buttons: Buttons::new(ButtonState::Up),
            x_axis_state: AxisState::Neutral,
            y_axis_state: AxisState::Neutral,
        }
    }

    pub fn buttons(&self) -> (b: Buttons)
        ensures
            b == self.buttons,
    {
        self.buttons
    }

    /// Store a button snapshot the event loop decoded.
    pub fn set_buttons(&mut self, buttons: Buttons)
        ensures
            final(self).buttons == buttons,
            final(self).x_axis_state == old(self).x_axis_state,
            final(self).y_axis_state == old(self).y_axis_state,
    {
        self.buttons = buttons;
    }

    /// Map the left stick's X motion to the directional pad: left and
    /// right follow the sign once the value leaves the dead zone, and
    /// nothing changes while the state of the axis is unchanged.
    pub fn update_x_axis(&mut self, val: i16)
        ensures
            ({
                let state = AxisState::spec_from_value(val);
                if state == old(self).x_axis_state {
                    *final(self) == *old(self)
                } else {
                    &&& final(self).x_axis_state == state
                    &&& final(self).y_axis_state == old(self).y_axis_state
                    &&& final(self).buttons == (Buttons {
                        left: state.spec_down_if_negative(),
                        right: state.spec_down_if_positive(),
                        ..old(self).buttons
                    })
                }
            }),
    {
        let state = AxisState::from_value(val);
        if state != self.x_axis_state {
            self.x_axis_state = state;
            self.buttons.left = state.down_if_negative();
            self.buttons.right = state.down_if_positive();
        }
    }

    /// Map the left stick's Y motion to the directional pad, up for
    /// negative values, like [`Controller::update_x_axis`].
    pub fn update_y_axis(&mut self, val: i16)
        ensures
            ({
                let state = AxisState::spec_from_value(val);
                if state == old(self).y_axis_state {
                    *final(self) == *old(self)
                } else {
                    &&& final(self).y_axis_state == state
                    &&& final(self).x_axis_state == old(self).x_axis_state
                    &&& final(self).buttons == (Buttons {
                        up: state.spec_down_if_negative(),
                        down: state.spec_down_if_positive(),
                        ..old(self).buttons
                    })
                }
            }),
    {
        let state = AxisState::from_value(val);
        if state != self.y_axis_state {
            self.y_axis_state = state;
            self.buttons.up = state.down_if_negative();
            self.buttons.down = state.down_if_positive();
        }
    }
}

} // verus!
