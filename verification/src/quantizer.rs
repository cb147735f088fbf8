//! Hysteretic semitone quantizer.
//!
//! A quantizer converts a smoothly changing control value into stairsteps so
//! that the musician more easily plays in tune. The conversion is sticky: the
//! committed step only changes when the input strays more than half a bucket
//! width plus a hysteresis margin from the center of the current bucket, so an
//! input dithering near a bucket boundary cannot make the output flicker
//! between neighbouring notes.

use vstd::prelude::*;

verus! {

use crate::board::ADC_MAX;

/// The number of octaves that the quantizer can handle.
pub const NUM_OCTAVES: u16 = 2;

/// The number of semitone buckets the quantizer spans: two octaves of twelve
/// semitones, plus one so the range ends on an octave instead of a major
/// seventh.
pub const NUM_SEMITONES: u16 = 25;

/// The width of one semitone bucket, in ADC counts: the 65535-count full
/// scale divided into `NUM_SEMITONES` buckets.
pub const BUCKET_WIDTH: u16 = 2621;

/// Half of one bucket width.
pub const HALF_BUCKET_WIDTH: u16 = 1310;

/// The hysteresis margin around a bucket boundary: a tenth of a bucket
/// width.
///
/// It provides noise immunity and prevents oscillations near transition
/// regions.
pub const HYSTERESIS: u16 = 262;

/// The absolute difference of two integers.
pub open spec fn abs_diff(a: int, b: int) -> int {
    if a >= b {
        a - b
    } else {
        b - a
    }
}

/// One step of the quantizer: the committed value after feeding `val` to a
/// quantizer whose committed value is `last`.
///
/// The committed value changes, to the bottom of the bucket containing `val`,
/// exactly when `val` lies more than half a bucket width plus the hysteresis
/// margin away from the center of the committed bucket.
pub open spec fn quantize_step(last: u16, val: u16) -> u16 {
    if abs_diff(val as int, last + HALF_BUCKET_WIDTH) > HALF_BUCKET_WIDTH + HYSTERESIS {
        ((val / BUCKET_WIDTH) * BUCKET_WIDTH) as u16
    } else {
        last
    }
}

/// A quantizer which converts smooth inputs into stairsteps.
pub struct Quantizer {
    /// The cached last conversion.
    last_conversion: u16,
}

impl Quantizer {
    /// The committed stairstep value is always the bottom of some bucket.
    pub closed spec fn wf(self) -> bool {
        &&& self.last_conversion % BUCKET_WIDTH == 0
        &&& self.last_conversion <= ADC_MAX
    }

    /// The most recently committed stairstep value.
    pub closed spec fn last(self) -> u16 {
        self.last_conversion
    }

    /// `Quantizer::new()` is a new quantizer, committed to the lowest bucket.
    pub fn new() -> (r: Self)
        ensures
            r.wf(),
            r.last() == 0,
    {
        Self { last_conversion: 0 }
    }

    /// `qn.convert(val)` is the quantized version of the input value.
    ///
    /// The result is the bottom of the committed bucket; it equals the
    /// previous conversion unless `val` strayed more than
    /// `HALF_BUCKET_WIDTH + HYSTERESIS` from the committed bucket's center.
    pub fn convert(&mut self, val: u16) -> (r: u16)
        requires
            old(self).wf(),
        ensures
            final(self).wf(),
            r == final(self).last(),
            final(self).last() == quantize_step(old(self).last(), val),
            abs_diff(val as int, r + HALF_BUCKET_WIDTH) <= HALF_BUCKET_WIDTH + HYSTERESIS,
            r <= ADC_MAX,
    {
        proof {
            lemma_bucket_floor_bounds(val);
            lemma_step_offset_bound(old(self).last_conversion, val);
        }
        // center the last conversion in the middle of its bucket so we can
        // check whether the new value is close to or far from that center
        let last_centered_conversion: u32 = self.last_conversion as u32 + HALF_BUCKET_WIDTH as u32;

        // how far the new value is from the center of the last conversion
        let val32: u32 = val as u32;
        let abs_diff: u32 = if val32 < last_centered_conversion {
            last_centered_conversion - val32
        } else {
            val32 - last_centered_conversion
        };

        // only commit a new conversion if the input is far enough away from
        // the last one
        if (HALF_BUCKET_WIDTH as u32 + HYSTERESIS as u32) < abs_diff {
            self.last_conversion = (val / BUCKET_WIDTH) * BUCKET_WIDTH;
        }

        self.last_conversion
    }
}

/// The number of times the committed value changes while a sequence of
/// inputs is fed to the quantizer, first input first.
pub open spec fn quantize_change_count(last: u16, inputs: Seq<u16>) -> nat
    decreases inputs.len(),
{
    if inputs.len() == 0 {
        0
    } else {
        let next = quantize_step(last, inputs[0]);
        (if next == last {
            0nat
        } else {
            1nat
        }) + quantize_change_count(next, inputs.subrange(1, inputs.len() as int))
    }
}

/// A quantizer committed to the bucket just above a boundary is not moved by
/// any input within the hysteresis margin of that boundary.
proof fn lemma_boundary_absorbing(b: u16, v: u16)
    requires
        abs_diff(v as int, b as int) <= HYSTERESIS,
    ensures
        quantize_step(b, v) == b,
{
}

/// From the bucket just below a boundary, an input within the hysteresis
/// margin of the boundary either leaves the quantizer in place or moves it to
/// the bucket just above the boundary — never anywhere else.
proof fn lemma_boundary_step_up(b: u16, v: u16)
    requires
        b % BUCKET_WIDTH == 0,
        BUCKET_WIDTH <= b,
        b <= ADC_MAX,
        abs_diff(v as int, b as int) <= HYSTERESIS,
    ensures
        quantize_step((b - BUCKET_WIDTH) as u16, v) == b - BUCKET_WIDTH || quantize_step(
            (b - BUCKET_WIDTH) as u16,
            v,
        ) == b,
{
    let w = BUCKET_WIDTH as int;
    let last = (b - BUCKET_WIDTH) as u16;
    if abs_diff(v as int, last + HALF_BUCKET_WIDTH) > HALF_BUCKET_WIDTH + HYSTERESIS {
        vstd::arithmetic::div_mod::lemma_fundamental_div_mod(b as int, w);
        let m = b as int / w;
        if v >= b {
            vstd::arithmetic::div_mod::lemma_fundamental_div_mod_converse(
                v as int,
                w,
                m,
                v - b,
            );
        } else {
            vstd::arithmetic::div_mod::lemma_fundamental_div_mod_converse(
                v as int,
                w,
                m - 1,
                v - (b - w),
            );
        }
    }
}

/// Hysteresis non-oscillation: for any input sequence dithering within the
/// hysteresis margin of a bucket boundary, a quantizer committed to either of
/// the boundary's two buckets changes its committed value at most once over
/// the whole sequence — and never, once it sits in the bucket above the
/// boundary.
pub proof fn lemma_hysteresis_non_oscillation(last: u16, b: u16, inputs: Seq<u16>)
    requires
        b % BUCKET_WIDTH == 0,
        BUCKET_WIDTH <= b,
        b <= ADC_MAX,
        last == b || last == b - BUCKET_WIDTH,
        forall|i: int|
            0 <= i < inputs.len() ==> abs_diff(inputs[i] as int, b as int) <= HYSTERESIS,
    ensures
        quantize_change_count(last, inputs) <= 1,
        last == b ==> quantize_change_count(last, inputs) == 0,
    decreases inputs.len(),
{
    if inputs.len() > 0 {
        let v = inputs[0];
        let rest = inputs.subrange(1, inputs.len() as int);
        assert(forall|i: int|
            0 <= i < rest.len() ==> abs_diff(rest[i] as int, b as int) <= HYSTERESIS);
        let next = quantize_step(last, v);
        if last == b {
            lemma_boundary_absorbing(b, v);
            lemma_hysteresis_non_oscillation(next, b, rest);
        } else {
            lemma_boundary_step_up(b, v);
            lemma_hysteresis_non_oscillation(next, b, rest);
        }
    }
}

/// After one quantizer step the input never lies farther from the center of
/// the committed bucket than half a bucket width plus the hysteresis margin:
/// any input farther out forces a recommit, and a recommitted bucket contains
/// the input.
pub proof fn lemma_step_offset_bound(last: u16, val: u16)
    requires
        last % BUCKET_WIDTH == 0,
        last <= ADC_MAX,
    ensures
        abs_diff(val as int, quantize_step(last, val) + HALF_BUCKET_WIDTH) <= HALF_BUCKET_WIDTH
            + HYSTERESIS,
{
    let w = BUCKET_WIDTH as int;
    let v = val as int;
    if abs_diff(v, last + HALF_BUCKET_WIDTH) > HALF_BUCKET_WIDTH + HYSTERESIS {
        vstd::arithmetic::div_mod::lemma_fundamental_div_mod(v, w);
        vstd::arithmetic::div_mod::lemma_mod_division_less_than_divisor(v, w);
        lemma_bucket_floor_bounds(val);
    }
}

/// Rounding `val` down to a multiple of `BUCKET_WIDTH` stays within the ADC
/// range, and the result is a multiple of the bucket width no greater than
/// `val`.
pub proof fn lemma_bucket_floor_bounds(val: u16)
    ensures
        ((val as int / BUCKET_WIDTH as int) * (BUCKET_WIDTH as int)) % (BUCKET_WIDTH as int) == 0,
        (val as int / BUCKET_WIDTH as int) * (BUCKET_WIDTH as int) <= val,
        (val as int / BUCKET_WIDTH as int) * (BUCKET_WIDTH as int) <= ADC_MAX,
{
    let w = BUCKET_WIDTH as int;
    let v = val as int;
    vstd::arithmetic::div_mod::lemma_fundamental_div_mod(v, w);
    vstd::arithmetic::div_mod::lemma_mod_division_less_than_divisor(v, w);
    vstd::arithmetic::div_mod::lemma_mod_multiples_basic(v / w, w);
}

} // verus!
