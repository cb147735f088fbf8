use ribbon_core::board::Switch3wayState;
use ribbon_core::controller::Controller;
use ribbon_core::ribbon_controller::{FINGER_PRESS_HIGH_BOUNDARY, MIN_VALID_SAMPLES_FOR_AVG};

/// The center of the quantizer bucket that maps to MIDI note 60: bucket 12
/// (12 * 2621 = 31452) plus half a bucket (1310).
const NOTE_60_CENTER: usize = 12 * 2621 + 1310;

/// The center of the bucket for MIDI note 61.
const NOTE_61_CENTER: usize = 13 * 2621 + 1310;

fn press(c: &mut Controller, pos: usize) {
    for _ in 0..MIN_VALID_SAMPLES_FOR_AVG {
        c.fast_tick(pos);
    }
}

fn settle(c: &mut Controller, pos: usize) {
    // enough samples to fill the whole ring buffer with the new position
    for _ in 0..64 {
        c.fast_tick(pos);
    }
}

#[test]
fn press_emits_exactly_one_note_on() {
    let mut c = Controller::new(0);
    c.slow_tick(Switch3wayState::Up, 0);  // hard-quantize, no glide
    press(&mut c, NOTE_60_CENTER);
    let out = c.output_tick();
    assert!(out.gate);
    assert_eq!(out.midi_bytes, vec![0x90, 60, 0x7F]);
    assert_eq!(out.cv, 31452);
    assert_eq!(out.dac_word, 31452 / 16);
}

#[test]
fn slide_emits_note_on_then_note_off() {
    let mut c = Controller::new(0);
    c.slow_tick(Switch3wayState::Up, 0);
    press(&mut c, NOTE_60_CENTER);
    let first = c.output_tick();
    assert_eq!(first.midi_bytes, vec![0x90, 60, 0x7F]);
    settle(&mut c, NOTE_61_CENTER);
    let second = c.output_tick();
    assert_eq!(second.midi_bytes, vec![0x90, 61, 0x7F, 0x80, 60, 0x00]);
    assert_eq!(second.cv, 13 * 2621);
}

#[test]
fn release_emits_exactly_one_note_off() {
    let mut c = Controller::new(0);
    c.slow_tick(Switch3wayState::Up, 0);
    press(&mut c, NOTE_61_CENTER);
    let first = c.output_tick();
    assert_eq!(first.midi_bytes, vec![0x90, 61, 0x7F]);
    c.fast_tick(FINGER_PRESS_HIGH_BOUNDARY + 1);
    let out = c.output_tick();
    assert!(!out.gate);
    assert_eq!(out.midi_bytes, vec![0x80, 61, 0x00]);
}

#[test]
fn unchanged_tick_emits_nothing() {
    let mut c = Controller::new(0);
    c.slow_tick(Switch3wayState::Up, 0);
    press(&mut c, NOTE_60_CENTER);
    let first = c.output_tick();
    assert!(!first.midi_bytes.is_empty());
    // the finger holds still: same position, no edge, same note, same bend
    c.fast_tick(NOTE_60_CENTER);
    let second = c.output_tick();
    assert!(second.midi_bytes.is_empty());
}

#[test]
fn idle_ticks_cost_zero_bytes() {
    let mut c = Controller::new(0);
    c.slow_tick(Switch3wayState::Up, 0);
    c.fast_tick(FINGER_PRESS_HIGH_BOUNDARY + 1);
    let out = c.output_tick();
    assert!(!out.gate);
    assert!(out.midi_bytes.is_empty());
}

#[test]
fn assist_press_plays_the_stairstep() {
    let mut c = Controller::new(0);
    c.slow_tick(Switch3wayState::Middle, 0);  // assist, no glide
    // press 100 counts above the center of note 60's bucket
    press(&mut c, NOTE_60_CENTER + 100);
    let out = c.output_tick();
    // the attack is in tune: the stairstep, not the off-center position
    assert_eq!(out.cv, 31452);
    assert_eq!(out.midi_bytes, vec![0x90, 60, 0x7F]);
}

#[test]
fn assist_offset_persists_across_the_slide() {
    let mut c = Controller::new(0);
    c.slow_tick(Switch3wayState::Middle, 0);
    press(&mut c, NOTE_60_CENTER + 100);
    let _ = c.output_tick();  // records the offset of 100 counts
    // the finger keeps sliding upward; every later tick plays the raw
    // position minus the recorded offset
    for k in 1..=10u16 {
        let pos = NOTE_60_CENTER + 100 + 16 * k as usize;
        settle(&mut c, pos);
        let out = c.output_tick();
        assert_eq!(out.cv, (pos - 100) as u16);
    }
}

#[test]
fn assist_slide_bends_the_pitch() {
    let mut c = Controller::new(0);
    c.slow_tick(Switch3wayState::Middle, 0);
    press(&mut c, NOTE_60_CENTER + 100);
    let _ = c.output_tick();
    settle(&mut c, NOTE_60_CENTER + 116);
    let out = c.output_tick();
    // played pitch 32778, re-quantized with a half-bucket lead: still note
    // 60, 1326 counts above its center; bend = 8192 + 1326 * 8192 / 10484
    assert_eq!(out.cv, 32778);
    assert_eq!(out.midi_bytes, vec![0xE0, 12, 72]);
}

#[test]
fn smooth_mode_subtracts_the_calibration_offset() {
    let mut c = Controller::new(0);
    c.slow_tick(Switch3wayState::Down, 0);  // smooth, no glide
    press(&mut c, 20000);
    let out = c.output_tick();
    assert_eq!(out.cv, 20000 - 850);
}

#[test]
fn glide_slews_the_played_pitch() {
    let mut c = Controller::new(0);
    // hard-quantize with the glide knob at half scale: time constant 49152
    c.slow_tick(Switch3wayState::Up, 32768);
    press(&mut c, NOTE_60_CENTER);
    let first = c.output_tick();
    // one tick toward 31452 from 0: 31452 / 49153 rounds to zero, so the
    // filter moves a single count
    assert_eq!(first.cv, 1);
    let second = c.output_tick();
    assert_eq!(second.cv, 2);
}

#[test]
fn midi_channel_is_carried_in_the_status_bytes() {
    let mut c = Controller::new(9);
    c.slow_tick(Switch3wayState::Up, 0);
    press(&mut c, NOTE_60_CENTER);
    let out = c.output_tick();
    assert_eq!(out.midi_bytes, vec![0x99, 60, 0x7F]);
}
