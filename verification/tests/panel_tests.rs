use ribbon_core::board::{
    dac8162_frame, mcp4822_frame, midi_channel_decode, switch3way_decode, Dac8162Channel,
    Mcp4822Channel, Switch3wayState,
};
use ribbon_core::mode_switch::{Mode, ModeSwitch};
use ribbon_core::ui::{bend_glide_ctl, PitchMode, UiState};

#[test]
fn mcp4822_frame_packs_value_channel_and_control_bits() {
    assert_eq!(mcp4822_frame(0x0ABC, Mcp4822Channel::A), (0x3A, 0xBC));
    assert_eq!(mcp4822_frame(0x0ABC, Mcp4822Channel::B), (0xBA, 0xBC));
}

#[test]
fn mcp4822_frame_truncates_above_twelve_bits() {
    assert_eq!(mcp4822_frame(0xFABC, Mcp4822Channel::A), (0x3A, 0xBC));
}

#[test]
fn dac8162_frame_shifts_and_splits_the_count() {
    // 0x1ABC shifted up two bits is 0x6AF0
    assert_eq!(dac8162_frame(0x1ABC, Dac8162Channel::A), (0x18, 0x6A, 0xF0));
    assert_eq!(dac8162_frame(0x1ABC, Dac8162Channel::B), (0x19, 0x6A, 0xF0));
}

#[test]
fn dac8162_frame_clamps_to_full_scale() {
    // anything above 14 bits writes the full-scale count 16383
    assert_eq!(dac8162_frame(0xFFFF, Dac8162Channel::A), (0x18, 0xFF, 0xFC));
}

#[test]
fn midi_channel_decode_reads_msb_first() {
    assert_eq!(midi_channel_decode(true, false, true, false), 10);
    assert_eq!(midi_channel_decode(false, false, false, false), 0);
    assert_eq!(midi_channel_decode(true, true, true, true), 15);
    assert_eq!(midi_channel_decode(false, false, false, true), 1);
}

#[test]
fn switch3way_decode_covers_all_pin_states() {
    assert_eq!(switch3way_decode(true, false), Switch3wayState::Up);
    assert_eq!(switch3way_decode(false, false), Switch3wayState::Middle);
    assert_eq!(switch3way_decode(false, true), Switch3wayState::Down);
    // both pins low means a faulty switch; the show must go on
    assert_eq!(switch3way_decode(true, true), Switch3wayState::Down);
}

#[test]
fn mode_switch_decodes_all_positions() {
    let ms = ModeSwitch::new();
    assert_eq!(ms.read(false, true), Mode::HardQuantize);
    assert_eq!(ms.read(false, false), Mode::Assist);
    assert_eq!(ms.read(true, false), Mode::Smooth);
    assert_eq!(ms.read(true, true), Mode::Smooth);
}

#[test]
fn glide_knob_taper_is_square_law() {
    assert_eq!(bend_glide_ctl(0), 0);
    // 32768^2 / 65535 = 16384, tripled = 49152
    assert_eq!(bend_glide_ctl(32768), 49152);
    // the top of the knob saturates at full scale
    assert_eq!(bend_glide_ctl(65535), 65535);
}

#[test]
fn ui_update_tracks_switch_and_knob() {
    let mut ui = UiState::new();
    assert!(matches!(ui.pitch_mode(), PitchMode::Smooth));
    ui.update(Switch3wayState::Up, 32768);
    assert!(matches!(ui.pitch_mode(), PitchMode::HardQuantize));
    assert_eq!(ui.glide_time(), 49152);
    ui.update(Switch3wayState::Middle, 0);
    assert!(matches!(ui.pitch_mode(), PitchMode::Assist));
    assert_eq!(ui.glide_time(), 0);
    ui.update(Switch3wayState::Down, 0);
    assert!(matches!(ui.pitch_mode(), PitchMode::Smooth));
}
