use ribbon_core::midi::{decode_pitch_bend, Midi};
use ribbon_core::midi_transmitter::{MidiTransmitter, PITCH_BEND_CENTER};

#[test]
fn note_on_wire_bytes() {
    let midi = Midi::new(2);
    assert_eq!(midi.note_on(60), [0x92, 60, 0x7F]);
}

#[test]
fn note_off_wire_bytes() {
    let midi = Midi::new(2);
    assert_eq!(midi.note_off(60), [0x82, 60, 0x00]);
}

#[test]
fn queued_messages_serialize_in_fifo_order() {
    let mut tx = MidiTransmitter::new(0);
    tx.note_on(61);
    tx.note_off(60);
    let bytes = tx.send_queue();
    assert_eq!(bytes, vec![0x90, 61, 0x7F, 0x80, 60, 0x00]);
}

#[test]
fn send_queue_drains_the_queue() {
    let mut tx = MidiTransmitter::new(0);
    tx.note_on(61);
    let first = tx.send_queue();
    assert_eq!(first.len(), 3);
    let second = tx.send_queue();
    assert!(second.is_empty());
}

#[test]
fn pitch_bend_wire_bytes() {
    let mut tx = MidiTransmitter::new(5);
    tx.pitch_bend(9223);
    // 9223 = 72 * 128 + 7
    assert_eq!(tx.send_queue(), vec![0xE5, 7, 72]);
}

#[test]
fn center_bend_encodes_to_expected_bytes() {
    let mut tx = MidiTransmitter::new(0);
    tx.pitch_bend(PITCH_BEND_CENTER);
    // 8192 = 64 * 128 + 0
    assert_eq!(tx.send_queue(), vec![0xE0, 0, 64]);
}

#[test]
fn full_queue_drops_the_newest_push() {
    let mut tx = MidiTransmitter::new(0);
    for _ in 0..20 {
        tx.note_on(60);
    }
    // only the first 16 messages fit; the four dropped ones are counted
    assert_eq!(tx.overflow_count(), 4);
    assert_eq!(tx.send_queue().len(), 16 * 3);
    assert_eq!(tx.overflow_count(), 4);
}

#[test]
fn pitch_bend_round_trips_for_every_value() {
    for v in 0..0x4000u16 {
        let mut tx = MidiTransmitter::new(3);
        tx.pitch_bend(v);
        let bytes = tx.send_queue();
        assert_eq!(bytes.len(), 3);
        let decoded = decode_pitch_bend(&[bytes[0], bytes[1], bytes[2]]);
        assert_eq!(decoded, Some((3, v)));
    }
}

#[test]
fn decode_rejects_non_bend_bytes() {
    assert_eq!(decode_pitch_bend(&[0x90, 60, 0x7F]), None);
    assert_eq!(decode_pitch_bend(&[0xE0, 0x80, 0x00]), None);
}
