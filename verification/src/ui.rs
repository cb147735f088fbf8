//! Front-panel state: pitch-mode switch and glide-time knob.
//!
//! The panel controls are operated by hand, so the scheduler refreshes them
//! only on the slow tick. The peripheral layer reads the raw switch state
//! and knob position and hands them to [`UiState::update`] as plain values.

use vstd::prelude::*;

verus! {

use crate::board::Switch3wayState;

/// The three modes for the ribbon pitch information.
#[derive(Clone, Copy, PartialEq, Eq, Structural, Debug)]
pub enum PitchMode {
    HardQuantize,
    Assist,
    Smooth,
}

/// The pitch mode selected by a 3-way switch position.
pub open spec fn mode_for_switch(switch: Switch3wayState) -> PitchMode {
    match switch {
        Switch3wayState::Up => PitchMode::HardQuantize,
        Switch3wayState::Middle => PitchMode::Assist,
        Switch3wayState::Down => PitchMode::Smooth,
    }
}

/// The square-law taper applied to the linear glide knob, as a time
/// constant: the knob reading is squared (normalized to full scale) and
/// tripled, saturating at full scale.
///
/// The physical glide control is a linear potentiometer, but the control
/// feels better with its taper bent: low settings give fine control near
/// zero glide, high settings ramp up quickly.
pub open spec fn bent_glide_time(val: u16) -> u16 {
    if (val * val / 65535) * 3 > 65535 {
        65535u16
    } else {
        ((val * val / 65535) * 3) as u16
    }
}

/// The user interface state: the front-panel controls the user interacts
/// with, as read on the most recent slow tick.
pub struct UiState {
    /// The selected pitch mode.
    pitch_mode: PitchMode,
    /// The raw glide-knob reading.
    glide_level: u16,
    /// The glide time constant derived from the knob reading.
    glide_time: u16,
}

impl UiState {
    /// The selected pitch mode.
    pub closed spec fn mode(self) -> PitchMode {
        self.pitch_mode
    }

    /// The raw glide-knob reading.
    pub closed spec fn level(self) -> u16 {
        self.glide_level
    }

    /// The derived glide time constant.
    pub closed spec fn time(self) -> u16 {
        self.glide_time
    }

    /// `UiState::new()` is a new UI state initialized to default values:
    /// smooth mode, no glide.
    pub fn new() -> (r: Self)
        ensures
            r.mode() == PitchMode::Smooth,
            r.level() == 0,
            r.time() == 0,
    {
        Self { pitch_mode: PitchMode::Smooth, glide_level: 0, glide_time: 0 }
    }

    /// `ui.update(switch, glide_knob)` refreshes the UI state from the
    /// current panel readings: the 3-way switch position and the raw glide
    /// knob value.
    ///
    /// Must be called periodically — slowly is fine, since the controls are
    /// operated by hand.
    pub fn update(&mut self, switch: Switch3wayState, glide_knob: u16)
        ensures
            final(self).mode() == mode_for_switch(switch),
            final(self).level() == glide_knob,
            final(self).time() == bent_glide_time(glide_knob),
    {
        self.pitch_mode = match switch {
            Switch3wayState::Up => PitchMode::HardQuantize,
            Switch3wayState::Middle => PitchMode::Assist,
            Switch3wayState::Down => PitchMode::Smooth,
        };

        self.glide_level = glide_knob;

        // bend the glide signal so the control feels nicer
        self.glide_time = bend_glide_ctl(glide_knob);
    }

    /// `ui.glide_time()` is the current value of the front-panel glide knob
    /// as a time constant.
    pub fn glide_time(&self) -> (r: u16)
        ensures
            r == self.time(),
    {
        self.glide_time
    }

    /// `ui.pitch_mode()` is the current enumerated pitch mode, as set by the
    /// panel-mount switch.
    pub fn pitch_mode(&self) -> (r: PitchMode)
        ensures
            r == self.mode(),
    {
        self.pitch_mode
    }
}

/// `bend_glide_ctl(val)` is the value `val` scaled by a square-law taper for
/// a more natural-feeling glide control.
pub fn bend_glide_ctl(val: u16) -> (r: u16)
    ensures
        r == bent_glide_time(val),
{
    proof {
        vstd::arithmetic::mul::lemma_mul_upper_bound(val as int, 65535, val as int, 65535);
        vstd::arithmetic::div_mod::lemma_div_is_ordered(
            (val * val) as int,
            65535int * 65535,
            65535,
        );
        vstd::arithmetic::div_mod::lemma_div_pos_is_pos((val * val) as int, 65535);
        vstd::arithmetic::div_mod::lemma_div_by_multiple(65535int, 65535int);
    }
    let squared: u32 = (val as u32 * val as u32) / 65535;
    let tripled: u32 = squared * 3;
    if tripled > 65535 {
        65535
    } else {
        tripled as u16
    }
}

} // verus!
