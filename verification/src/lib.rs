//! Control core of a ribbon-controller musical instrument.
//!
//! The library turns a stream of noisy analog position samples into stable
//! pitch, gate, glide and MIDI decisions:
//!
//! * [`ribbon_controller`] debounces and averages the raw samples into a
//!   position value and a boolean gate signal,
//! * [`quantizer`] snaps a continuous value to the nearest semitone step with
//!   hysteresis,
//! * [`glide_processor`] slews the output pitch toward its target
//!   (portamento),
//! * [`midi_note_converter`] re-quantizes a pitch into a MIDI note number and
//!   pitch-bend value,
//! * [`midi`] and [`midi_transmitter`] hold the outgoing message queue and the
//!   MIDI wire encoding,
//! * [`controller`] combines all of the above into the per-tick decisions of
//!   the instrument's multi-rate main loop,
//! * [`board`], [`mode_switch`] and [`ui`] decode the front-panel controls and
//!   frame the DAC words.
//!
//! Everything here is pure computation on plain integers; the hardware access
//! that surrounds it (ADC reads, SPI and serial writes, timers) lives outside
//! the library and exchanges only plain values with it.

pub mod board;
pub mod controller;
pub mod glide_processor;
pub mod midi;
pub mod midi_note_converter;
pub mod midi_transmitter;
pub mod mode_switch;
pub mod quantizer;
pub mod ribbon_controller;
pub mod ui;
