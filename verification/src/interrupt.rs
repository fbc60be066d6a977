//! Interrupt request tags. Components raise one of these and park it in a
//! single-slot cell; the interrupt controller drains the slot once per step.

use vstd::prelude::*;

verus! {

/// The five interrupt sources of the machine.
#[derive(Clone, Copy, PartialEq, Eq, Structural, Debug)]
pub enum Flag {
    VBlank,
    LCDCStat,
    Timer,
    Serial,
    Joypad,
}

} // verus!
