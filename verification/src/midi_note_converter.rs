//! Conversion from a continuous pitch value to MIDI note and pitch bend.
//!
//! A second, independently re-quantized conversion produces the MIDI side of
//! the instrument's output: the committed bucket gives the note number, and
//! the signed deviation of the input from the bucket's center gives the
//! pitch-bend value, scaled so that a receiver set to the usual two-semitone
//! bend range tracks the finger with margin to spare.

use vstd::prelude::*;

verus! {

use crate::board::ADC_MAX;
use crate::midi_transmitter::{PITCH_BEND_CENTER, PITCH_BEND_FULL_SCALE};
use crate::quantizer::{
    abs_diff,
    quantize_step,
    Quantizer,
    BUCKET_WIDTH,
    HALF_BUCKET_WIDTH,
    HYSTERESIS,
};

/// The MIDI note number produced for an input in the lowest bucket.
pub const LOWEST_MIDI_NOTE: u8 = 48;

/// The MIDI note number for a committed stairstep value: the bucket index
/// offset by the lowest note of the instrument's range.
pub open spec fn note_for_step(stairstep: u16) -> u8 {
    (stairstep / BUCKET_WIDTH + LOWEST_MIDI_NOTE) as u8
}

/// The 14-bit pitch-bend value for a signed deviation (in ADC counts) from
/// the center of the committed bucket.
///
/// Full-scale bend corresponds to four bucket widths of deviation: two
/// semitones for the usual receiver bend range, doubled again so the bend
/// never overshoots.
pub open spec fn bend_for_offset(offset: int) -> u16 {
    if offset >= 0 {
        (PITCH_BEND_CENTER + offset * PITCH_BEND_FULL_SCALE / (4 * BUCKET_WIDTH)) as u16
    } else {
        (PITCH_BEND_CENTER - (-offset) * PITCH_BEND_FULL_SCALE / (4 * BUCKET_WIDTH)) as u16
    }
}

/// The result of converting one pitch value to its MIDI representation.
pub struct MidiNoteConversion {
    /// The MIDI note number of the committed bucket.
    pub note: u8,
    /// The 14-bit pitch-bend value for the deviation from the note's center.
    pub pitch_bend: u16,
    /// The signed deviation, in ADC counts, of the input from the center of
    /// the committed bucket.
    pub offset_from_note_center: i32,
}

/// A converter from continuous pitch values to MIDI note numbers and
/// pitch-bend values, with its own hysteretic quantizer state.
pub struct MidiNoteConverter {
    quantizer: Quantizer,
}

impl MidiNoteConverter {
    /// The converter's quantizer state is well formed.
    pub closed spec fn wf(self) -> bool {
        self.quantizer.wf()
    }

    /// The most recently committed stairstep value.
    pub closed spec fn last_step(self) -> u16 {
        self.quantizer.last()
    }

    /// `MidiNoteConverter::new()` is a new converter, committed to the
    /// lowest bucket.
    pub fn new() -> (r: Self)
        ensures
            r.wf(),
            r.last_step() == 0,
    {
        Self { quantizer: Quantizer::new() }
    }

    /// `mc.convert(val)` is the MIDI conversion of the pitch value `val`:
    /// the note number of the (hysteretically) committed bucket, the signed
    /// deviation of `val` from that bucket's center, and the pitch-bend
    /// value encoding that deviation.
    pub fn convert(&mut self, val: u16) -> (r: MidiNoteConversion)
        requires
            old(self).wf(),
        ensures
            final(self).wf(),
            final(self).last_step() == quantize_step(old(self).last_step(), val),
            r.note == note_for_step(final(self).last_step()),
            r.note < 128,
            r.offset_from_note_center == val - final(self).last_step() - HALF_BUCKET_WIDTH,
            abs_diff(r.offset_from_note_center as int, 0) <= HALF_BUCKET_WIDTH + HYSTERESIS,
            r.pitch_bend == bend_for_offset(r.offset_from_note_center as int),
            0 < r.pitch_bend < 0x4000,
    {
        let stairstep = self.quantizer.convert(val);

        proof {
            vstd::arithmetic::div_mod::lemma_div_is_ordered(
                stairstep as int,
                ADC_MAX as int,
                BUCKET_WIDTH as int,
            );
        }
        let note = (stairstep / BUCKET_WIDTH) as u8 + LOWEST_MIDI_NOTE;

        let center_of_note: u32 = stairstep as u32 + HALF_BUCKET_WIDTH as u32;
        let val32: u32 = val as u32;
        let denom: u32 = 4 * (BUCKET_WIDTH as u32);

        proof {
            lemma_bend_in_range(val as int - stairstep as int - HALF_BUCKET_WIDTH as int);
        }

        let offset_from_note_center: i32;
        let pitch_bend: u16;
        if val32 >= center_of_note {
            let off: u32 = val32 - center_of_note;
            offset_from_note_center = off as i32;
            pitch_bend = (PITCH_BEND_CENTER as u32 + (off * PITCH_BEND_FULL_SCALE as u32) / denom)
                as u16;
        } else {
            let off: u32 = center_of_note - val32;
            offset_from_note_center = -(off as i32);
            pitch_bend = (PITCH_BEND_CENTER as u32 - (off * PITCH_BEND_FULL_SCALE as u32) / denom)
                as u16;
        }
        MidiNoteConversion { note, pitch_bend, offset_from_note_center }
    }
}

/// For any deviation within the quantizer's commitment bound, the scaled
/// bend contribution stays well inside the 14-bit range on either side of
/// the center.
proof fn lemma_bend_in_range(offset: int)
    requires
        abs_diff(offset, 0) <= HALF_BUCKET_WIDTH + HYSTERESIS,
    ensures
        0 < bend_for_offset(offset) < 0x4000,
        0 <= offset ==> offset * PITCH_BEND_FULL_SCALE / (4 * BUCKET_WIDTH) < PITCH_BEND_FULL_SCALE,
        offset < 0 ==> (-offset) * PITCH_BEND_FULL_SCALE / (4 * BUCKET_WIDTH)
            < PITCH_BEND_FULL_SCALE,
{
    let d = 4 * BUCKET_WIDTH as int;
    let fs = PITCH_BEND_FULL_SCALE as int;
    let bound = (HALF_BUCKET_WIDTH + HYSTERESIS) as int;
    assert(d == 10484);
    assert(fs == 8192);
    assert(bound == 1572);
    assert(bound * fs == 12877824);
    assert(d * 1228 + 3472 == 12877824);
    vstd::arithmetic::div_mod::lemma_fundamental_div_mod_converse(12877824, d, 1228, 3472);
    let mag = if offset >= 0 { offset } else { -offset };
    let q = mag * fs / d;
    vstd::arithmetic::mul::lemma_mul_nonnegative(mag, fs);
    vstd::arithmetic::div_mod::lemma_div_pos_is_pos(mag * fs, d);
    vstd::arithmetic::mul::lemma_mul_inequality(mag, bound, fs);
    vstd::arithmetic::div_mod::lemma_div_is_ordered(mag * fs, bound * fs, d);
    assert(0 <= q <= 1228);
}

} // verus!
