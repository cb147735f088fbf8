//! The instrument's per-tick control decisions.
//!
//! The main loop of the instrument polls three timer flags at different
//! rates and calls one method here for each:
//!
//! * [`Controller::fast_tick`] feeds one raw ADC sample to the ribbon
//!   (highest rate — debouncing needs dense samples),
//! * [`Controller::slow_tick`] refreshes the front-panel state (lowest rate
//!   — the controls are operated by hand),
//! * [`Controller::output_tick`] runs the pitch-decision pipeline and
//!   returns everything the peripheral layer must write out: the DAC word,
//!   the note-gate level, and the MIDI bytes for the serial port.
//!
//! The caller owns the hardware; the controller only decides.

use vstd::prelude::*;

verus! {

use crate::board::{Switch3wayState, ADC_MAX};
use crate::glide_processor::{glide_step, GlideProcessor};
use crate::midi::{encode_seq, MidiMessage, MAX_VELOCITY, MIN_VELOCITY};
use crate::midi_note_converter::{bend_for_offset, note_for_step, MidiNoteConverter};
use crate::midi_transmitter::{MidiTransmitter, PITCH_BEND_CENTER};
use crate::quantizer::{quantize_step, Quantizer, HALF_BUCKET_WIDTH};
use crate::ribbon_controller::{ring_push, trimmed_mean, RibbonController,
    FINGER_PRESS_HIGH_BOUNDARY, MIN_VALID_SAMPLES_FOR_AVG};
use crate::ui::{bent_glide_time, mode_for_switch, PitchMode, UiState};

/// The fixed calibration offset subtracted from the raw position in smooth
/// mode; it keeps smooth mode in tune with hard-quantize mode at the low and
/// high ends of the ribbon.
pub const SMOOTH_MODE_FUDGE: u16 = 850;

/// `offset_clamped(initial_val, offset)` is `initial_val` with `offset`
/// subtracted, clamped to the ADC range.
pub open spec fn offset_clamped(initial_val: u16, offset: int) -> u16 {
    let shifted = initial_val - offset;
    if shifted < 0 {
        0u16
    } else if shifted > ADC_MAX {
        ADC_MAX
    } else {
        shifted as u16
    }
}

/// `offset_and_clamp(v, o)` applies the offset `o` to value `v` and clamps
/// the result between zero and the ADC maximum.
pub fn offset_and_clamp(initial_val: u16, offset: i32) -> (r: u16)
    ensures
        r == offset_clamped(initial_val, offset as int),
{
    // apply the offset; the result might be positive or negative
    let signed_offset_val: i64 = initial_val as i64 - offset as i64;

    // clamp and return
    if signed_offset_val < 0 {
        0
    } else if (ADC_MAX as i64) < signed_offset_val {
        ADC_MAX
    } else {
        signed_offset_val as u16
    }
}

/// The pitch handed to the glide stage on one output tick, by mode:
///
/// * hard-quantize plays the stairstep value directly,
/// * smooth plays the raw position minus a fixed calibration offset,
/// * assist plays the stairstep on the tick where the press begins (so the
///   attack is always in tune) and thereafter the raw position re-centered
///   by the offset recorded at the press.
pub open spec fn selected_pitch(
    mode: PitchMode,
    pos: u16,
    stairstep: u16,
    rising: bool,
    offset_in: i32,
) -> u16 {
    match mode {
        PitchMode::HardQuantize => stairstep,
        PitchMode::Smooth => if pos >= SMOOTH_MODE_FUDGE {
            (pos - SMOOTH_MODE_FUDGE) as u16
        } else {
            0u16
        },
        PitchMode::Assist => if rising {
            stairstep
        } else {
            offset_clamped(pos, offset_in as int)
        },
    }
}

/// The assist offset after one output tick: recorded as the deviation of the
/// finger position from the committed note's center on the tick where the
/// press begins, and held unchanged on every other tick.
pub open spec fn assist_offset_after(
    mode: PitchMode,
    pos: u16,
    stairstep: u16,
    rising: bool,
    offset_in: i32,
) -> i32 {
    if mode == PitchMode::Assist && rising {
        (pos - stairstep - HALF_BUCKET_WIDTH) as i32
    } else {
        offset_in
    }
}

/// The note on/off messages queued on one output tick:
///
/// * a press that just began sounds the new note,
/// * a held finger sliding into a new note sounds it, then silences the old
///   one,
/// * a press that just ended silences the current note, and the previously
///   sounded one too if it differs,
/// * an idle tick queues nothing.
pub open spec fn note_messages(
    channel: u8,
    rising: bool,
    pressing: bool,
    falling: bool,
    this_note: u8,
    last_note: u8,
) -> Seq<MidiMessage> {
    if rising {
        seq![MidiMessage::NoteOn { channel, note: this_note, velocity: MAX_VELOCITY }]
    } else if pressing && this_note != last_note {
        seq![
            MidiMessage::NoteOn { channel, note: this_note, velocity: MAX_VELOCITY },
            MidiMessage::NoteOff { channel, note: last_note, velocity: MIN_VELOCITY },
        ]
    } else if falling {
        if this_note != last_note {
            seq![
                MidiMessage::NoteOff { channel, note: this_note, velocity: MIN_VELOCITY },
                MidiMessage::NoteOff { channel, note: last_note, velocity: MIN_VELOCITY },
            ]
        } else {
            seq![MidiMessage::NoteOff { channel, note: this_note, velocity: MIN_VELOCITY }]
        }
    } else {
        Seq::<MidiMessage>::empty()
    }
}

/// The pitch-bend message queued on one output tick: one message when the
/// computed bend differs from the last value sent, none otherwise.
pub open spec fn bend_messages(channel: u8, this_bend: u16, last_bend: u16) -> Seq<
    MidiMessage,
> {
    if this_bend != last_bend {
        seq![MidiMessage::PitchBend { channel, value: this_bend }]
    } else {
        Seq::<MidiMessage>::empty()
    }
}

/// Pitch-bend suppression: a tick whose computed bend equals the last value
/// sent queues no pitch-bend message.
pub proof fn lemma_pitch_bend_suppression(channel: u8, bend: u16)
    ensures
        bend_messages(channel, bend, bend) == Seq::<MidiMessage>::empty(),
{
}

/// Everything one output tick asks the peripheral layer to write out.
pub struct OutputUpdate {
    /// The slewed pitch, full scale: the control voltage to play.
    pub cv: u16,
    /// The same pitch as a 12-bit word for the CV DAC channel.
    pub dac_word: u16,
    /// The level for the note-gate output pin.
    pub gate: bool,
    /// The MIDI bytes for the serial port; empty on an idle tick.
    pub midi_bytes: Vec<u8>,
}

/// The control core of the instrument: every component of the
/// signal-conditioning and note-decision pipeline, advanced tick by tick.
pub struct Controller {
    /// Debounced finger position and gate.
    ribbon: RibbonController,
    /// Quantizer for the analog pitch output.
    quantizer: Quantizer,
    /// Second, independent quantization for the MIDI note and bend.
    midi_converter: MidiNoteConverter,
    /// Portamento filter on the selected pitch.
    glide: GlideProcessor,
    /// Front-panel state.
    ui: UiState,
    /// Outgoing MIDI queue and encoder.
    midi: MidiTransmitter,
    /// The note number most recently sounded, to be silenced when the note
    /// changes or the finger lifts.
    last_midi_note: u8,
    /// The pitch-bend value most recently sent, so unchanged values cost no
    /// bytes on the wire.
    last_pitch_bend: u16,
    /// The deviation from the note center recorded when an assist-mode
    /// press began.
    assist_offset: i32,
}

impl Controller {
    /// Every component is well formed, the outgoing queue is drained, and
    /// the remembered note and bend fit their wire widths.
    pub closed spec fn wf(self) -> bool {
        &&& self.ribbon.wf()
        &&& self.quantizer.wf()
        &&& self.midi_converter.wf()
        &&& self.midi.wf()
        &&& self.midi.queue() == Seq::<MidiMessage>::empty()
        &&& self.last_midi_note < 128
        &&& self.last_pitch_bend < 0x4000
    }

    /// The ribbon controller state.
    pub closed spec fn ribbon(self) -> RibbonController {
        self.ribbon
    }

    /// The analog-side quantizer state.
    pub closed spec fn quant(self) -> Quantizer {
        self.quantizer
    }

    /// The MIDI-side converter state.
    pub closed spec fn conv(self) -> MidiNoteConverter {
        self.midi_converter
    }

    /// The glide filter state.
    pub closed spec fn glide(self) -> GlideProcessor {
        self.glide
    }

    /// The front-panel state.
    pub closed spec fn ui(self) -> UiState {
        self.ui
    }

    /// The MIDI channel in use.
    pub closed spec fn midi_channel(self) -> u8 {
        self.midi.channel()
    }

    /// The note number most recently sounded.
    pub closed spec fn last_note(self) -> u8 {
        self.last_midi_note
    }

    /// The pitch-bend value most recently sent.
    pub closed spec fn last_bend(self) -> u16 {
        self.last_pitch_bend
    }

    /// The assist-mode offset recorded at the most recent press.
    pub closed spec fn assist(self) -> i32 {
        self.assist_offset
    }

    /// `Controller::new(midi_channel)` is a fresh control core on the given
    /// MIDI channel: nothing pressed, no glide, smooth mode, bend centered.
    pub fn new(midi_channel: u8) -> (r: Self)
        requires
            midi_channel < 16,
        ensures
            r.wf(),
            r.ribbon().buffer() == Seq::<usize>::empty(),
            r.ribbon().val() == 0,
            !r.ribbon().gate_now(),
            !r.ribbon().gate_before(),
            r.quant().last() == 0,
            r.conv().last_step() == 0,
            r.glide().output() == 0,
            r.glide().time() == 0,
            r.ui().mode() == PitchMode::Smooth,
            r.midi_channel() == midi_channel,
            r.last_note() == 0,
            r.last_bend() == PITCH_BEND_CENTER,
            r.assist() == 0,
    {
        Self {
            ribbon: RibbonController::new(),
            quantizer: Quantizer::new(),
            midi_converter: MidiNoteConverter::new(),
            glide: GlideProcessor::new(),
            ui: UiState::new(),
            midi: MidiTransmitter::new(midi_channel),
            last_midi_note: 0,
            last_pitch_bend: PITCH_BEND_CENTER,
            assist_offset: 0,
        }
    }

    /// `c.fast_tick(raw_adc)` feeds one raw ADC sample to the ribbon; it
    /// must be called once per fast-timer tick. Nothing but the ribbon state
    /// changes; the ribbon is updated exactly as by
    /// [`RibbonController::poll`].
    pub fn fast_tick(&mut self, raw_adc: usize)
        requires
            old(self).wf(),
        ensures
            final(self).wf(),
            final(self).quant() == old(self).quant(),
            final(self).conv() == old(self).conv(),
            final(self).glide() == old(self).glide(),
            final(self).ui() == old(self).ui(),
            final(self).midi_channel() == old(self).midi_channel(),
            final(self).last_note() == old(self).last_note(),
            final(self).last_bend() == old(self).last_bend(),
            final(self).assist() == old(self).assist(),
            final(self).ribbon().gate_before() == old(self).ribbon().gate_now(),
            raw_adc > FINGER_PRESS_HIGH_BOUNDARY ==> {
                &&& final(self).ribbon().buffer() == Seq::<usize>::empty()
                &&& !final(self).ribbon().gate_now()
                &&& final(self).ribbon().val() == old(self).ribbon().val()
            },
            raw_adc <= FINGER_PRESS_HIGH_BOUNDARY ==> final(self).ribbon().buffer()
                == ring_push(old(self).ribbon().buffer(), raw_adc),
            raw_adc <= FINGER_PRESS_HIGH_BOUNDARY && final(self).ribbon().buffer().len()
                >= MIN_VALID_SAMPLES_FOR_AVG ==> {
                &&& final(self).ribbon().gate_now()
                &&& final(self).ribbon().val() == trimmed_mean(final(self).ribbon().buffer())
            },
            raw_adc <= FINGER_PRESS_HIGH_BOUNDARY && final(self).ribbon().buffer().len()
                < MIN_VALID_SAMPLES_FOR_AVG ==> {
                &&& final(self).ribbon().gate_now() == old(self).ribbon().gate_now()
                &&& final(self).ribbon().val() == old(self).ribbon().val()
            },
    {
        self.ribbon.poll(raw_adc);
    }

    /// `c.slow_tick(switch, glide_knob)` refreshes the front-panel state and
    /// applies the glide knob to the glide filter; it must be called once
    /// per slow-timer tick.
    pub fn slow_tick(&mut self, switch: Switch3wayState, glide_knob: u16)
        requires
            old(self).wf(),
        ensures
            final(self).wf(),
            final(self).ribbon() == old(self).ribbon(),
            final(self).quant() == old(self).quant(),
            final(self).conv() == old(self).conv(),
            final(self).midi_channel() == old(self).midi_channel(),
            final(self).last_note() == old(self).last_note(),
            final(self).last_bend() == old(self).last_bend(),
            final(self).assist() == old(self).assist(),
            final(self).ui().mode() == mode_for_switch(switch),
            final(self).ui().level() == glide_knob,
            final(self).ui().time() == bent_glide_time(glide_knob),
            final(self).glide().time() == bent_glide_time(glide_knob),
            final(self).glide().output() == old(self).glide().output(),
    {
        self.ui.update(switch, glide_knob);
        let t = self.ui.glide_time();
        self.glide.set_time(t);
    }

    /// `c.output_tick()` runs one output-rate tick of the whole
    /// pitch-decision pipeline and returns what the peripheral layer must
    /// write out.
    ///
    /// The debounced position is quantized with hysteresis; the pitch mode
    /// selects the played pitch from the stairstep, the raw position, and
    /// the assist offset; the glide filter slews toward it, and the slewed
    /// value becomes the 12-bit DAC word. An independent re-quantization of
    /// the selected pitch — led by half a bucket for better perceived
    /// tuning — yields the MIDI note and bend, and the note/bend deltas
    /// against the previous tick decide which MIDI messages are emitted.
    pub fn output_tick(&mut self) -> (out: OutputUpdate)
        requires
            old(self).wf(),
        ensures
            final(self).wf(),
            final(self).ribbon() == old(self).ribbon(),
            final(self).ui() == old(self).ui(),
            final(self).midi_channel() == old(self).midi_channel(),
            out.gate == old(self).ribbon().gate_now(),
            ({
                let pos = old(self).ribbon().val() as u16;
                let rising = old(self).ribbon().gate_now() && !old(self).ribbon().gate_before();
                let falling = !old(self).ribbon().gate_now() && old(self).ribbon().gate_before();
                let pressing = old(self).ribbon().gate_now();
                let stairstep = quantize_step(old(self).quant().last(), pos);
                let sel = selected_pitch(
                    old(self).ui().mode(),
                    pos,
                    stairstep,
                    rising,
                    old(self).assist(),
                );
                let lead = if sel + HALF_BUCKET_WIDTH > ADC_MAX {
                    ADC_MAX
                } else {
                    (sel + HALF_BUCKET_WIDTH) as u16
                };
                let midi_step = quantize_step(old(self).conv().last_step(), lead);
                let this_note = note_for_step(midi_step);
                let this_bend = bend_for_offset(lead - midi_step - HALF_BUCKET_WIDTH);
                &&& final(self).quant().last() == stairstep
                &&& final(self).assist() == assist_offset_after(
                    old(self).ui().mode(),
                    pos,
                    stairstep,
                    rising,
                    old(self).assist(),
                )
                &&& final(self).glide().time() == old(self).glide().time()
                &&& final(self).glide().output() == glide_step(
                    old(self).glide().output(),
                    sel,
                    old(self).glide().time(),
                )
                &&& out.cv == final(self).glide().output()
                &&& out.dac_word == final(self).glide().output() / 16
                &&& final(self).conv().last_step() == midi_step
                &&& final(self).last_note() == this_note
                &&& final(self).last_bend() == this_bend
                &&& out.midi_bytes@ == encode_seq(
                    note_messages(
                        old(self).midi_channel(),
                        rising,
                        pressing,
                        falling,
                        this_note,
                        old(self).last_note(),
                    ) + bend_messages(
                        old(self).midi_channel(),
                        this_bend,
                        old(self).last_bend(),
                    ),
                )
            }),
    {
        let pos: u16 = self.ribbon.value() as u16;
        let pressing = self.ribbon.gate();
        let rising = self.ribbon.rising_gate();
        let falling = self.ribbon.falling_gate();

        let stairstep = self.quantizer.convert(pos);

        // the main ribbon pitch, selected by mode
        let sel: u16 = match self.ui.pitch_mode() {
            PitchMode::HardQuantize => stairstep,
            PitchMode::Smooth => {
                if pos >= SMOOTH_MODE_FUDGE {
                    pos - SMOOTH_MODE_FUDGE
                } else {
                    0
                }
            },
            PitchMode::Assist => {
                if rising {
                    // When the finger first presses down, record the offset
                    // between the finger position and the center of the
                    // note, and play the stairstep so the attack is in tune.
                    self.assist_offset = pos as i32 - stairstep as i32
                        - HALF_BUCKET_WIDTH as i32;
                    stairstep
                } else {
                    // The finger is holding or sliding: re-center the raw
                    // position by the offset recorded at the press.
                    offset_and_clamp(pos, self.assist_offset)
                }
            },
        };

        // portamento toward the selected pitch; the slewed value drives the
        // 12-bit DAC
        let cv = self.glide.process(sel);
        let dac_word = cv / 16;

        // the extra half step of lead helps keep the MIDI side in tune
        let lead: u16 = if sel <= ADC_MAX - HALF_BUCKET_WIDTH {
            sel + HALF_BUCKET_WIDTH
        } else {
            ADC_MAX
        };
        let conversion = self.midi_converter.convert(lead);
        let this_note = conversion.note;
        let this_bend = conversion.pitch_bend;

        // Each tick queues zero or more MIDI messages:
        // a note-on when the press begins or slides into a new note, one or
        // two note-offs when a note is left behind or the finger lifts, and
        // a pitch bend whenever the bend value changed.
        if rising {
            self.midi.note_on(this_note);
        } else if pressing && this_note != self.last_midi_note {
            self.midi.note_on(this_note);
            self.midi.note_off(self.last_midi_note);
        } else if falling {
            self.midi.note_off(this_note);
            if this_note != self.last_midi_note {
                self.midi.note_off(self.last_midi_note);
            }
        }
        proof {
            assert(self.midi.queue() =~= note_messages(
                old(self).midi_channel(),
                rising,
                pressing,
                falling,
                this_note,
                old(self).last_midi_note,
            ));
        }
        let ghost note_msgs = self.midi.queue();
        self.last_midi_note = this_note;

        if this_bend != self.last_pitch_bend {
            self.midi.pitch_bend(this_bend);
        }
        proof {
            assert(self.midi.queue() =~= note_msgs + bend_messages(
                old(self).midi_channel(),
                this_bend,
                old(self).last_pitch_bend,
            ));
        }
        self.last_pitch_bend = this_bend;

        let midi_bytes = self.midi.send_queue();

        OutputUpdate { cv, dac_word, gate: pressing, midi_bytes }
    }
}

/// Assist-mode offset persistence: once an offset has been recorded at the
/// press, every later tick of the continuing press (no new rising edge)
/// leaves the offset unchanged and plays the raw position minus the offset,
/// for any run of positions whose corrected values stay in range.
pub proof fn lemma_assist_offset_persistence(positions: Seq<u16>, offset: i32, stairstep: u16)
    requires
        forall|i: int| 0 <= i < positions.len() ==> 0 <= #[trigger] positions[i] - offset <= ADC_MAX,
    ensures
        forall|i: int|
            0 <= i < positions.len() ==> selected_pitch(
                PitchMode::Assist,
                positions[i],
                stairstep,
                false,
                offset,
            ) == positions[i] - offset,
        forall|i: int|
            0 <= i < positions.len() ==> assist_offset_after(
                PitchMode::Assist,
                positions[i],
                stairstep,
                false,
                offset,
            ) == offset,
{
}

} // verus!
