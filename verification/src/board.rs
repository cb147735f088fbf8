//! Pure, board-facing conversions: DAC frame layout and front-panel decoding.
//!
//! The hardware itself (SPI, GPIO, ADC, timers) is outside the library; these
//! functions compute the exact bit patterns and decoded values that the
//! peripheral drivers exchange with the core.

use vstd::prelude::*;

verus! {

/// The maximum value that can be produced by the analog-to-digital converter.
pub const ADC_MAX: u16 = u16::MAX;

/// The maximum value that can be written to the onboard digital-to-analog converter.
pub const DAC_MAX: u16 = 0x0FFF;

/// The channels of the MCP4822 dual DAC.
#[derive(Clone, Copy, PartialEq, Eq, Structural, Debug)]
pub enum Mcp4822Channel {
    A,
    B,
}

/// The maximum count that can be written to a DAC8162 channel (14 bits).
pub const DAC8162_MAX_COUNT: u16 = 16383;

/// The channels of the DAC8162 dual DAC.
#[derive(Clone, Copy, PartialEq, Eq, Structural, Debug)]
pub enum Dac8162Channel {
    A,
    B,
}

/// Valid states of a front-panel 3-way switch.
#[derive(Clone, Copy, PartialEq, Eq, Structural, Debug)]
pub enum Switch3wayState {
    Up,
    Middle,
    Down,
}

/// The channel-select bit of an MCP4822 command word.
pub open spec fn mcp4822_channel_bit(channel: Mcp4822Channel) -> u8 {
    match channel {
        Mcp4822Channel::A => 0,
        Mcp4822Channel::B => 1,
    }
}

/// `mcp4822_frame(val_u12, channel)` is the two-byte SPI frame that writes the
/// 12 bit value `val_u12` to the given channel of the MCP4822 DAC.
///
/// Bits above 11 are truncated. The high byte carries the upper four data
/// bits, the channel-select bit, and the control bits for GAIN=1x and
/// output-enable; the low byte carries the lower eight data bits.
pub fn mcp4822_frame(val_u12: u16, channel: Mcp4822Channel) -> (r: (u8, u8))
    ensures
        r.0 == ((((val_u12 & 0x0FFF) >> 8) as u8) | (mcp4822_channel_bit(channel) << 7)
            | 0b0011_0000u8),
        r.1 == (val_u12 & 0xFF) as u8,
{
    let ch: u8 = match channel {
        Mcp4822Channel::A => 0,
        Mcp4822Channel::B => 1,
    };
    let low_word = (val_u12 & 0xFF) as u8;
    let high_word = (((val_u12 & DAC_MAX) >> 8) as u8) | (ch << 7) | 0b0011_0000;
    (high_word, low_word)
}

/// The channel-select bits of a DAC8162 command byte.
pub open spec fn dac8162_channel_bits(channel: Dac8162Channel) -> u8 {
    match channel {
        Dac8162Channel::A => 0,
        Dac8162Channel::B => 1,
    }
}

/// `dac8162_frame(count_u14, channel)` is the three-byte SPI frame that
/// writes the 14-bit count to the given channel of the DAC8162 and updates
/// its output.
///
/// A count above 14 bits is clamped to full scale. The data bits sit two
/// positions up in the 16-bit data word (above DB0 and DB1); the command
/// byte selects the channel and the write-and-update operation.
pub fn dac8162_frame(count_u14: u16, channel: Dac8162Channel) -> (r: (u8, u8, u8))
    ensures
        ({
            let count = if count_u14 > DAC8162_MAX_COUNT {
                DAC8162_MAX_COUNT as int
            } else {
                count_u14 as int
            };
            &&& r.0 == dac8162_channel_bits(channel) | 0b0001_1000u8
            &&& r.1 == (count * 4) / 256
            &&& r.2 == (count * 4) % 256
        }),
{
    let count = if count_u14 > DAC8162_MAX_COUNT {
        DAC8162_MAX_COUNT
    } else {
        count_u14
    };
    // move the value out of DB0 and DB1
    let val_u16: u16 = count * 4;
    // split it into bytes
    let low_byte = (val_u16 % 256) as u8;
    let mid_byte = (val_u16 / 256) as u8;
    // write to the channel and update the output
    let high_byte = (match channel {
        Dac8162Channel::A => 0u8,
        Dac8162Channel::B => 1u8,
    }) | 0b0001_1000;
    (high_byte, mid_byte, low_byte)
}

/// `switch3way_decode(first_low, second_low)` is the enumerated position of a
/// 3-way on-off-on switch read from two active-low input pins.
///
/// The switch grounds the first pin, the second pin, or neither. Both pins low
/// means a faulty switch; it is folded into `Down` so the instrument keeps
/// playing.
pub fn switch3way_decode(first_low: bool, second_low: bool) -> (r: Switch3wayState)
    ensures
        r == (if first_low && !second_low {
            Switch3wayState::Up
        } else if !first_low && !second_low {
            Switch3wayState::Middle
        } else {
            Switch3wayState::Down
        }),
{
    match (first_low, second_low) {
        (true, false) => Switch3wayState::Up,
        (false, false) => Switch3wayState::Middle,
        _ => Switch3wayState::Down,
    }
}

/// `midi_channel_decode(b3, b2, b1, b0)` is the MIDI channel in `[0, 15]`
/// represented by a 4-bit coded rotary switch, most significant bit first.
///
/// The caller reads the four switch pins (active low) and passes one boolean
/// per bit.
pub fn midi_channel_decode(b3: bool, b2: bool, b1: bool, b0: bool) -> (r: u8)
    ensures
        r == (if b3 { 8int } else { 0 }) + (if b2 { 4int } else { 0 }) + (if b1 {
            2int
        } else {
            0
        }) + (if b0 { 1int } else { 0 }),
        r < 16,
{
    let mut r: u8 = 0;
    if b3 {
        r = r + 8;
    }
    if b2 {
        r = r + 4;
    }
    if b1 {
        r = r + 2;
    }
    if b0 {
        r = r + 1;
    }
    r
}

} // verus!
