//! Queued MIDI transmitter.
//!
//! Outgoing messages are collected in a bounded FIFO queue during an output
//! tick and drained once per tick into a contiguous byte buffer for the
//! serial port. A push onto a full queue silently drops the message rather
//! than stall the real-time loop; the capacity exceeds the most messages one
//! tick can produce, so under correct operation the queue never fills.

use vstd::prelude::*;

verus! {

use crate::midi::{encode_msg, encode_seq, msg_wf, MidiMessage, MAX_VELOCITY, MIN_VELOCITY};

/// The most messages the outgoing queue can hold.
pub const MAX_NUM_MESSAGES_IN_QUEUE: usize = 16;

/// The center value for pitch-bend messages (half of the 14-bit range);
/// represents zero bend.
pub const PITCH_BEND_CENTER: u16 = 8192;

/// The full-scale value of pitch bend in one direction; bend goes up and
/// down by this amount from [`PITCH_BEND_CENTER`].
pub const PITCH_BEND_FULL_SCALE: u16 = 8192;

/// A MIDI transmitter holding a bounded queue of outgoing messages, bound to
/// one channel.
pub struct MidiTransmitter {
    /// The MIDI channel to use.
    channel: u8,
    /// The outgoing messages, oldest first.
    msg_queue: Vec<MidiMessage>,
    /// How many messages have been dropped against a full queue; saturates.
    dropped: u32,
}

impl MidiTransmitter {
    /// The queue respects its capacity and holds only well-formed messages;
    /// the channel fits in four bits.
    pub closed spec fn wf(self) -> bool {
        &&& self.channel < 16
        &&& self.msg_queue@.len() <= MAX_NUM_MESSAGES_IN_QUEUE
        &&& forall|i: int| 0 <= i < self.msg_queue@.len() ==> msg_wf(self.msg_queue@[i])
    }

    /// The MIDI channel this transmitter is bound to.
    pub closed spec fn channel(self) -> u8 {
        self.channel
    }

    /// The queued messages, oldest first.
    pub closed spec fn queue(self) -> Seq<MidiMessage> {
        self.msg_queue@
    }

    /// How many messages have been dropped against a full queue so far.
    pub closed spec fn dropped_count(self) -> u32 {
        self.dropped
    }

    /// `MidiTransmitter::new(ch)` is a new MIDI transmitter with an empty
    /// queue, set to channel `ch`.
    pub fn new(channel: u8) -> (r: Self)
        requires
            channel < 16,
        ensures
            r.wf(),
            r.channel() == channel,
            r.queue() == Seq::<MidiMessage>::empty(),
            r.dropped_count() == 0,
    {
        Self { channel, msg_queue: Vec::new(), dropped: 0 }
    }

    /// `mt.push(m)` appends the message `m` to the queue; a message pushed
    /// onto a full queue is dropped, and only the overflow counter records
    /// that it ever existed.
    pub fn push(&mut self, msg: MidiMessage)
        requires
            old(self).wf(),
            msg_wf(msg),
        ensures
            final(self).wf(),
            final(self).channel() == old(self).channel(),
            old(self).queue().len() < MAX_NUM_MESSAGES_IN_QUEUE ==> {
                &&& final(self).queue() == old(self).queue().push(msg)
                &&& final(self).dropped_count() == old(self).dropped_count()
            },
            old(self).queue().len() >= MAX_NUM_MESSAGES_IN_QUEUE ==> {
                &&& final(self).queue() == old(self).queue()
                &&& final(self).dropped_count() == (if old(self).dropped_count() < u32::MAX {
                    old(self).dropped_count() + 1
                } else {
                    old(self).dropped_count() as int
                })
            },
    {
        if self.msg_queue.len() < MAX_NUM_MESSAGES_IN_QUEUE {
            self.msg_queue.push(msg);
        } else if self.dropped < u32::MAX {
            self.dropped = self.dropped + 1;
        }
    }

    /// `mt.overflow_count()` is how many messages have been dropped against
    /// a full queue — a diagnostic that should read zero under correct
    /// operation, since one output tick never produces more messages than
    /// the queue holds.
    pub fn overflow_count(&self) -> (r: u32)
        ensures
            r == self.dropped_count(),
    {
        self.dropped
    }

    /// `mt.note_on(note)` queues a note-on for `note` at maximum velocity on
    /// this transmitter's channel.
    pub fn note_on(&mut self, note: u8)
        requires
            old(self).wf(),
            note < 128,
        ensures
            final(self).wf(),
            final(self).channel() == old(self).channel(),
            old(self).queue().len() < MAX_NUM_MESSAGES_IN_QUEUE ==> final(self).queue()
                == old(self).queue().push(
                MidiMessage::NoteOn {
                    channel: old(self).channel(),
                    note,
                    velocity: MAX_VELOCITY,
                },
            ),
            old(self).queue().len() < MAX_NUM_MESSAGES_IN_QUEUE ==> final(self).dropped_count()
                == old(self).dropped_count(),
            old(self).queue().len() >= MAX_NUM_MESSAGES_IN_QUEUE ==> {
                &&& final(self).queue() == old(self).queue()
                &&& final(self).dropped_count() == (if old(self).dropped_count() < u32::MAX {
                    old(self).dropped_count() + 1
                } else {
                    old(self).dropped_count() as int
                })
            },
    {
        let channel = self.channel;
        self.push(MidiMessage::NoteOn { channel, note, velocity: MAX_VELOCITY });
    }

    /// `mt.note_off(note)` queues a note-off for `note` at minimum velocity
    /// on this transmitter's channel.
    pub fn note_off(&mut self, note: u8)
        requires
            old(self).wf(),
            note < 128,
        ensures
            final(self).wf(),
            final(self).channel() == old(self).channel(),
            old(self).queue().len() < MAX_NUM_MESSAGES_IN_QUEUE ==> final(self).queue()
                == old(self).queue().push(
                MidiMessage::NoteOff {
                    channel: old(self).channel(),
                    note,
                    velocity: MIN_VELOCITY,
                },
            ),
            old(self).queue().len() < MAX_NUM_MESSAGES_IN_QUEUE ==> final(self).dropped_count()
                == old(self).dropped_count(),
            old(self).queue().len() >= MAX_NUM_MESSAGES_IN_QUEUE ==> {
                &&& final(self).queue() == old(self).queue()
                &&& final(self).dropped_count() == (if old(self).dropped_count() < u32::MAX {
                    old(self).dropped_count() + 1
                } else {
                    old(self).dropped_count() as int
                })
            },
    {
        let channel = self.channel;
        self.push(MidiMessage::NoteOff { channel, note, velocity: MIN_VELOCITY });
    }

    /// `mt.pitch_bend(pb_u14)` queues a pitch-bend message carrying the
    /// 14-bit value `pb_u14` on this transmitter's channel.
    pub fn pitch_bend(&mut self, pb_u14: u16)
        requires
            old(self).wf(),
            pb_u14 < 0x4000,
        ensures
            final(self).wf(),
            final(self).channel() == old(self).channel(),
            old(self).queue().len() < MAX_NUM_MESSAGES_IN_QUEUE ==> final(self).queue()
                == old(self).queue().push(
                MidiMessage::PitchBend { channel: old(self).channel(), value: pb_u14 },
            ),
            old(self).queue().len() < MAX_NUM_MESSAGES_IN_QUEUE ==> final(self).dropped_count()
                == old(self).dropped_count(),
            old(self).queue().len() >= MAX_NUM_MESSAGES_IN_QUEUE ==> {
                &&& final(self).queue() == old(self).queue()
                &&& final(self).dropped_count() == (if old(self).dropped_count() < u32::MAX {
                    old(self).dropped_count() + 1
                } else {
                    old(self).dropped_count() as int
                })
            },
    {
        let channel = self.channel;
        self.push(MidiMessage::PitchBend { channel, value: pb_u14 });
    }

    /// `mt.send_queue()` serializes all queued messages, oldest first, into
    /// one contiguous byte buffer and clears the queue. The caller hands the
    /// bytes to the serial port; an empty queue yields an empty buffer.
    pub fn send_queue(&mut self) -> (bytes: Vec<u8>)
        requires
            old(self).wf(),
        ensures
            final(self).wf(),
            final(self).channel() == old(self).channel(),
            final(self).queue() == Seq::<MidiMessage>::empty(),
            final(self).dropped_count() == old(self).dropped_count(),
            bytes@ == encode_seq(old(self).queue()),
    {
        let mut bytes: Vec<u8> = Vec::new();
        let mut i: usize = 0;
        while i < self.msg_queue.len()
            invariant
                self.msg_queue@ == old(self).msg_queue@,
                self.channel == old(self).channel,
                i <= self.msg_queue@.len(),
                bytes@ == encode_seq(self.msg_queue@.take(i as int)),
            decreases self.msg_queue@.len() - i,
        {
            let msg = self.msg_queue[i];
            match msg {
                MidiMessage::NoteOn { channel, note, velocity } => {
                    bytes.push(0x90 | channel);
                    bytes.push(note);
                    bytes.push(velocity);
                },
                MidiMessage::NoteOff { channel, note, velocity } => {
                    bytes.push(0x80 | channel);
                    bytes.push(note);
                    bytes.push(velocity);
                },
                MidiMessage::PitchBend { channel, value } => {
                    bytes.push(0xE0 | channel);
                    bytes.push((value & 0x7F) as u8);
                    bytes.push(((value >> 7) & 0x7F) as u8);
                },
            }
            proof {
                let q = self.msg_queue@;
                assert(q.take(i + 1).drop_last() =~= q.take(i as int));
                assert(q.take(i + 1).last() == q[i as int]);
                assert(bytes@ =~= encode_seq(q.take(i as int)) + encode_msg(q[i as int]));
            }
            i = i + 1;
        }
        proof {
            assert(self.msg_queue@.take(self.msg_queue@.len() as int) =~= self.msg_queue@);
        }
        self.msg_queue.clear();
        bytes
    }
}

} // verus!
