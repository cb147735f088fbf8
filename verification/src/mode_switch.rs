//! Decoder for the front-panel pitch-mode switch.
//!
//! The physical switch is a 3-position type read through two pull-up input
//! pins; the peripheral layer reads the pins and hands their active-low
//! levels to [`ModeSwitch::read`] as plain booleans.

use vstd::prelude::*;

verus! {

/// The decoder for the 3-position pitch-mode switch.
pub struct ModeSwitch {}

/// The three pitch modes selectable from the front panel.
#[derive(Clone, Copy, PartialEq, Eq, Structural, Debug)]
pub enum Mode {
    HardQuantize,
    Assist,
    Smooth,
}

impl ModeSwitch {
    /// `ModeSwitch::new()` is a new mode-switch decoder.
    pub fn new() -> Self {
        Self {  }
    }

    /// `ms.read(sw1, sw2)` is the pitch mode selected by the switch, given
    /// the active-low levels of its two input pins.
    pub fn read(&self, switch_1_low: bool, switch_2_low: bool) -> (m: Mode)
        ensures
            m == (if !switch_1_low && switch_2_low {
                Mode::HardQuantize
            } else if !switch_1_low && !switch_2_low {
                Mode::Assist
            } else {
                Mode::Smooth
            }),
    {
        match (switch_1_low, switch_2_low) {
            (false, true) => Mode::HardQuantize,
            (false, false) => Mode::Assist,
            _ => Mode::Smooth,
        }
    }
}

} // verus!
