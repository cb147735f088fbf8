//! MIDI messages and their wire encoding.
//!
//! The instrument emits three kinds of MIDI messages, each three bytes long
//! on the wire:
//!
//! * Note On: `0x90 | channel`, note, velocity
//! * Note Off: `0x80 | channel`, note, velocity
//! * Pitch Bend: `0xE0 | channel`, low 7 bits of the 14-bit value, high 7
//!   bits of the 14-bit value
//!
//! Channels are 4 bits, notes and velocities 7 bits, pitch-bend values 14
//! bits; the pitch-bend center (no bend) is `1 << 13`.

use vstd::prelude::*;

verus! {

/// The maximum value for a velocity byte.
pub const MAX_VELOCITY: u8 = 0x7F;

/// The minimum value for a velocity byte.
pub const MIN_VELOCITY: u8 = 0x00;

/// A MIDI message the instrument can emit.
#[derive(Clone, Copy, PartialEq, Eq, Structural, Debug)]
pub enum MidiMessage {
    NoteOn { channel: u8, note: u8, velocity: u8 },
    NoteOff { channel: u8, note: u8, velocity: u8 },
    PitchBend { channel: u8, value: u16 },
}

/// A message is well formed when its fields fit their wire-format widths:
/// 4-bit channel, 7-bit note and velocity, 14-bit pitch-bend value.
pub open spec fn msg_wf(m: MidiMessage) -> bool {
    match m {
        MidiMessage::NoteOn { channel, note, velocity } => channel < 16 && note < 128
            && velocity < 128,
        MidiMessage::NoteOff { channel, note, velocity } => channel < 16 && note < 128
            && velocity < 128,
        MidiMessage::PitchBend { channel, value } => channel < 16 && value < 0x4000,
    }
}

/// The three wire bytes of a MIDI message.
pub open spec fn encode_msg(m: MidiMessage) -> Seq<u8> {
    match m {
        MidiMessage::NoteOn { channel, note, velocity } => seq![
            (0x90u8 | channel),
            note,
            velocity,
        ],
        MidiMessage::NoteOff { channel, note, velocity } => seq![
            (0x80u8 | channel),
            note,
            velocity,
        ],
        MidiMessage::PitchBend { channel, value } => seq![
            (0xE0u8 | channel),
            (value & 0x7F) as u8,
            ((value >> 7) & 0x7F) as u8,
        ],
    }
}

/// The wire bytes of a run of MIDI messages, in order.
pub open spec fn encode_seq(s: Seq<MidiMessage>) -> Seq<u8>
    decreases s.len(),
{
    if s.len() == 0 {
        Seq::<u8>::empty()
    } else {
        encode_seq(s.drop_last()) + encode_msg(s.last())
    }
}

/// The channel and value recovered from the wire bytes of a pitch-bend
/// message, or nothing if the bytes are not a well-formed pitch-bend
/// message.
pub open spec fn decode_pitch_bend_spec(s: Seq<u8>) -> Option<(u8, u16)> {
    if s.len() == 3 && s[0] & 0xF0 == 0xE0 && s[1] < 0x80 && s[2] < 0x80 {
        Some(((s[0] & 0x0F) as u8, (s[1] as u16 | ((s[2] as u16) << 7)) as u16))
    } else {
        None
    }
}

/// A very basic MIDI transmitter bound to one channel, producing raw wire
/// bytes for the serial port.
pub struct Midi {
    channel: u8,
}

impl Midi {
    /// The MIDI channel this transmitter is bound to.
    pub closed spec fn channel(self) -> u8 {
        self.channel
    }

    /// `Midi::new(ch)` is a new MIDI transmitter set to channel `ch`.
    pub fn new(channel: u8) -> (r: Self)
        requires
            channel < 16,
        ensures
            r.channel() == channel,
            r.channel() < 16,
    {
        Self { channel }
    }

    /// `midi.send_command(b1, b2, b3)` is the 3-byte MIDI payload for status
    /// byte `b1` (with the channel folded in) and data bytes `b2`, `b3`.
    fn send_command(&self, byte_1: u8, byte_2: u8, byte_3: u8) -> (r: [u8; 3])
        ensures
            r@ == seq![(byte_1 | self.channel), byte_2, byte_3],
    {
        let r = [byte_1 | self.channel, byte_2, byte_3];
        proof {
            assert(r@ =~= seq![(byte_1 | self.channel), byte_2, byte_3]);
        }
        r
    }

    /// `midi.note_on(note)` is the wire encoding that turns `note` on at
    /// maximum velocity.
    pub fn note_on(&self, note: u8) -> (r: [u8; 3])
        requires
            self.channel() < 16,
            note < 128,
        ensures
            r@ == encode_msg(
                MidiMessage::NoteOn {
                    channel: self.channel(),
                    note,
                    velocity: MAX_VELOCITY,
                },
            ),
    {
        self.send_command(0x90, note, MAX_VELOCITY)
    }

    /// `midi.note_off(note)` is the wire encoding that turns `note` off at
    /// minimum velocity.
    pub fn note_off(&self, note: u8) -> (r: [u8; 3])
        requires
            self.channel() < 16,
            note < 128,
        ensures
            r@ == encode_msg(
                MidiMessage::NoteOff {
                    channel: self.channel(),
                    note,
                    velocity: MIN_VELOCITY,
                },
            ),
    {
        self.send_command(0x80, note, MIN_VELOCITY)
    }
}

/// `decode_pitch_bend(bytes)` recovers the channel and 14-bit value from the
/// wire bytes of a pitch-bend message, or `None` if the bytes are not a
/// well-formed pitch-bend message.
pub fn decode_pitch_bend(bytes: &[u8; 3]) -> (r: Option<(u8, u16)>)
    ensures
        r == decode_pitch_bend_spec(bytes@),
{
    let b0 = bytes[0];
    let b1 = bytes[1];
    let b2 = bytes[2];
    if b0 & 0xF0 == 0xE0 && b1 < 0x80 && b2 < 0x80 {
        Some((b0 & 0x0F, b1 as u16 | ((b2 as u16) << 7)))
    } else {
        None
    }
}

/// Round-trip: encoding a pitch-bend message and decoding the bytes recovers
/// the channel and the 14-bit value exactly.
pub proof fn lemma_pitch_bend_round_trip(channel: u8, value: u16)
    requires
        channel < 16,
        value < 0x4000,
    ensures
        decode_pitch_bend_spec(encode_msg(MidiMessage::PitchBend { channel, value }))
            == Some((channel, value)),
{
    assert((0xE0u8 | channel) & 0xF0 == 0xE0 && (0xE0u8 | channel) & 0x0F == channel)
        by (bit_vector)
        requires
            channel < 16,
    ;
    assert((value & 0x7F) < 0x80 && ((value >> 7) & 0x7F) < 0x80) by (bit_vector);
    assert(((value & 0x7F) as u8) as u16 == (value & 0x7F) && (((value >> 7) & 0x7F) as u8) as u16
        == ((value >> 7) & 0x7F)) by (bit_vector);
    assert((value & 0x7F) | (((value >> 7) & 0x7F) as u16) << 7 == value)
        by (bit_vector)
        requires
            value < 0x4000,
    ;
}

} // verus!
