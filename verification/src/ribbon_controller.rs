//! Ribbon controller: debounced finger position and gate detection.
//!
//! Users play the ribbon by sliding a finger along a resistive track wired as
//! a voltage divider. The position of the finger is represented as an
//! integer: the farther along the track, the larger the number. The position
//! is retained when the finger lifts off, like a sample-and-hold. A boolean
//! "gate" signal is true while the ribbon is pressed.
//!
//! Raw samples are noisy, so the controller averages a window of recent
//! samples, leaving out the few most recently added ones to reject transient
//! outliers from the very latest readings.

use vstd::prelude::*;

verus! {

/// Samples at or below this value indicate a finger pressed on the ribbon.
///
/// The unpressed ribbon idles near full scale (65535 counts) because of the
/// pull-up to the positive reference; the margin of a little over one percent
/// of full scale was chosen empirically for a reliable press detection.
pub const FINGER_PRESS_HIGH_BOUNDARY: usize = 65535 - 65535 / 90;

/// The capacity of the internal ribbon sample buffer.
pub const BUFFER_CAPACITY: usize = 64;

/// The minimum number of samples required before an average is taken.
///
/// Must be no greater than the buffer capacity.
pub const MIN_VALID_SAMPLES_FOR_AVG: usize = 32;

/// The number of most recently added samples left out of the average, to
/// keep spurious readings from influencing it.
///
/// Must be less than the minimum number of samples needed for an average.
pub const NUM_MOST_RECENT_SAMPLES_TO_IGNORE: usize = 8;

/// The sum of a sequence of samples.
pub open spec fn seq_sum(s: Seq<usize>) -> int
    decreases s.len(),
{
    if s.len() == 0 {
        0
    } else {
        seq_sum(s.drop_last()) + s.last()
    }
}

/// The debounced position derived from a full-enough sample buffer: the mean
/// of the buffer contents with the most recent few samples left out.
pub open spec fn trimmed_mean(s: Seq<usize>) -> int
    recommends
        NUM_MOST_RECENT_SAMPLES_TO_IGNORE < s.len(),
{
    let n = s.len() - NUM_MOST_RECENT_SAMPLES_TO_IGNORE;
    seq_sum(s.take(n as int)) / (n as int)
}

/// The buffer contents after one pressed sample arrives: the sample is
/// appended, evicting the oldest entry once the buffer is full.
pub open spec fn ring_push(s: Seq<usize>, x: usize) -> Seq<usize> {
    if s.len() < BUFFER_CAPACITY {
        s.push(x)
    } else {
        s.subrange(1, s.len() as int).push(x)
    }
}

/// A synthesizer ribbon controller.
///
/// A constant stream of raw ADC samples is fed in through [`Self::poll`]; the
/// debounced position and gate signals are read back through [`Self::value`]
/// and [`Self::gate`], and the edge detectors report one-tick pulses when the
/// gate rises or falls.
pub struct RibbonController {
    /// The current position value of the ribbon.
    current_val: usize,
    /// The current gate value of the ribbon.
    current_gate: bool,
    /// The note-gate value observed on the previous poll, for edge detection.
    prev_gate: bool,
    /// Recent samples, oldest first, for averaging.
    buff: Vec<usize>,
}

impl RibbonController {
    /// The buffer never exceeds its fixed capacity, holds only in-range
    /// (pressed) samples, and the held position is always in range.
    pub closed spec fn wf(self) -> bool {
        &&& self.buff@.len() <= BUFFER_CAPACITY
        &&& forall|i: int|
            0 <= i < self.buff@.len() ==> self.buff@[i] <= FINGER_PRESS_HIGH_BOUNDARY
        &&& self.current_val <= FINGER_PRESS_HIGH_BOUNDARY
    }

    /// The recent-sample buffer, oldest first.
    pub closed spec fn buffer(self) -> Seq<usize> {
        self.buff@
    }

    /// The held position value.
    pub closed spec fn val(self) -> usize {
        self.current_val
    }

    /// The current gate.
    pub closed spec fn gate_now(self) -> bool {
        self.current_gate
    }

    /// The note-gate value as it stood before the most recent poll.
    pub closed spec fn gate_before(self) -> bool {
        self.prev_gate
    }

    /// `RibbonController::new()` is a new ribbon controller: empty buffer,
    /// gate low, position zero.
    pub fn new() -> (r: Self)
        ensures
            r.wf(),
            r.buffer() == Seq::<usize>::empty(),
            r.val() == 0,
            !r.gate_now(),
            !r.gate_before(),
    {
        Self { current_val: 0, current_gate: false, prev_gate: false, buff: Vec::new() }
    }

    /// `rib.poll(raw_adc_value)` updates the ribbon controller with one raw
    /// ADC sample; it must be called once per fast-timer tick.
    ///
    /// A sample at or below [`FINGER_PRESS_HIGH_BOUNDARY`] counts as a press
    /// and is buffered; once enough samples have accumulated, the position
    /// becomes the trimmed mean of the buffer and the note gate goes high. An
    /// out-of-range sample clears the buffer and drops the note gate at once,
    /// while the last valid position is retained (sample-and-hold).
    pub fn poll(&mut self, raw_adc_value: usize)
        requires
            old(self).wf(),
        ensures
            final(self).wf(),
            final(self).gate_before() == old(self).gate_now(),
            raw_adc_value > FINGER_PRESS_HIGH_BOUNDARY ==> {
                &&& final(self).buffer() == Seq::<usize>::empty()
                &&& !final(self).gate_now()
                &&& final(self).val() == old(self).val()
            },
            raw_adc_value <= FINGER_PRESS_HIGH_BOUNDARY ==> final(self).buffer() == ring_push(
                old(self).buffer(),
                raw_adc_value,
            ),
            raw_adc_value <= FINGER_PRESS_HIGH_BOUNDARY && final(self).buffer().len()
                >= MIN_VALID_SAMPLES_FOR_AVG ==> {
                &&& final(self).gate_now()
                &&& final(self).val() == trimmed_mean(final(self).buffer())
            },
            raw_adc_value <= FINGER_PRESS_HIGH_BOUNDARY && final(self).buffer().len()
                < MIN_VALID_SAMPLES_FOR_AVG ==> {
                &&& final(self).gate_now() == old(self).gate_now()
                &&& final(self).val() == old(self).val()
            },
    {
        self.prev_gate = self.current_gate;

        let user_is_pressing_ribbon = raw_adc_value <= FINGER_PRESS_HIGH_BOUNDARY;

        if user_is_pressing_ribbon {
            if self.buff.len() == BUFFER_CAPACITY {
                self.buff.remove(0);
                proof {
                    assert(self.buff@ =~= old(self).buff@.subrange(1, old(self).buff@.len() as int));
                }
            }
            self.buff.push(raw_adc_value);

            if MIN_VALID_SAMPLES_FOR_AVG <= self.buff.len() {
                let num_to_take = self.buff.len() - NUM_MOST_RECENT_SAMPLES_TO_IGNORE;

                // average the buffered samples, excluding the few most
                // recently added ones
                let mut sum: usize = 0;
                let mut i: usize = 0;
                while i < num_to_take
                    invariant
                        i <= num_to_take,
                        num_to_take <= self.buff@.len(),
                        self.buff@.len() <= BUFFER_CAPACITY,
                        forall|j: int|
                            0 <= j < self.buff@.len() ==> self.buff@[j]
                                <= FINGER_PRESS_HIGH_BOUNDARY,
                        sum == seq_sum(self.buff@.take(i as int)),
                        sum <= i * FINGER_PRESS_HIGH_BOUNDARY,
                    decreases num_to_take - i,
                {
                    proof {
                        assert(self.buff@.take(i + 1).drop_last() =~= self.buff@.take(i as int));
                        assert(self.buff@.take(i + 1).last() == self.buff@[i as int]);
                        vstd::arithmetic::mul::lemma_mul_is_distributive_add_other_way(
                            FINGER_PRESS_HIGH_BOUNDARY as int,
                            i as int,
                            1,
                        );
                        vstd::arithmetic::mul::lemma_mul_inequality(
                            i as int,
                            BUFFER_CAPACITY as int,
                            FINGER_PRESS_HIGH_BOUNDARY as int,
                        );
                    }
                    sum = sum + self.buff[i];
                    i = i + 1;
                }

                proof {
                    lemma_trimmed_mean_in_range(self.buff@);
                }
                self.current_val = sum / num_to_take;
                self.current_gate = true;
            }
        } else {
            // the user is not pressing the ribbon: clear the buffer but hold
            // on to the last valid position
            self.buff.clear();
            self.current_gate = false;
        }
    }

    /// `rib.value()` is the current position value of the ribbon.
    ///
    /// If no finger is pressing, this is the last valid position before the
    /// finger lifted.
    pub fn value(&self) -> (r: usize)
        ensures
            r == self.val(),
    {
        self.current_val
    }

    /// `rib.gate()` is the current state of the ribbon gate: `true` when a
    /// finger is pressing and enough samples have accumulated for a stable
    /// reading.
    pub fn gate(&self) -> (r: bool)
        ensures
            r == self.gate_now(),
    {
        self.current_gate
    }

    /// `rib.rising_gate()` is `true` for exactly one poll when the note gate goes
    /// from low to high (the finger just pressed down).
    pub fn rising_gate(&self) -> (r: bool)
        ensures
            r == (self.gate_now() && !self.gate_before()),
    {
        self.current_gate && !self.prev_gate
    }

    /// `rib.falling_gate()` is `true` for exactly one poll when the note gate goes
    /// from high to low (the finger just lifted off).
    pub fn falling_gate(&self) -> (r: bool)
        ensures
            r == (!self.gate_now() && self.gate_before()),
    {
        !self.current_gate && self.prev_gate
    }
}

/// The sum of a sequence of in-range samples is bounded by the length times
/// the range bound.
proof fn lemma_seq_sum_upper(s: Seq<usize>, bound: int)
    requires
        forall|i: int| 0 <= i < s.len() ==> s[i] <= bound,
        0 <= bound,
    ensures
        0 <= seq_sum(s) <= s.len() * bound,
    decreases s.len(),
{
    if s.len() == 0 {
    } else {
        lemma_seq_sum_upper(s.drop_last(), bound);
        vstd::arithmetic::mul::lemma_mul_is_distributive_add_other_way(
            bound,
            s.len() as int - 1,
            1,
        );
    }
}

/// The sum of a constant sequence is the length times the constant.
proof fn lemma_seq_sum_constant(s: Seq<usize>, c: usize)
    requires
        forall|i: int| 0 <= i < s.len() ==> s[i] == c,
    ensures
        seq_sum(s) == s.len() * c,
    decreases s.len(),
{
    if s.len() == 0 {
    } else {
        lemma_seq_sum_constant(s.drop_last(), c);
        vstd::arithmetic::mul::lemma_mul_is_distributive_add_other_way(
            c as int,
            s.len() as int - 1,
            1,
        );
    }
}

/// The sum of a sequence that is constant except at one position.
proof fn lemma_seq_sum_one_off(s: Seq<usize>, c: usize, j: int)
    requires
        0 <= j < s.len(),
        forall|i: int| 0 <= i < s.len() && i != j ==> s[i] == c,
    ensures
        seq_sum(s) == s.len() * c + (s[j] - c),
    decreases s.len(),
{
    if j == s.len() - 1 {
        lemma_seq_sum_constant(s.drop_last(), c);
    } else {
        lemma_seq_sum_one_off(s.drop_last(), c, j);
    }
    vstd::arithmetic::mul::lemma_mul_is_distributive_add_other_way(
        c as int,
        s.len() as int - 1,
        1,
    );
}

/// Debounce stability: a full-enough buffer of one constant sample value
/// averages to exactly that value, so a ribbon fed a constant value reads
/// back that constant once the minimum sample count is reached.
pub proof fn lemma_debounce_stability(s: Seq<usize>, c: usize)
    requires
        MIN_VALID_SAMPLES_FOR_AVG <= s.len(),
        forall|i: int| 0 <= i < s.len() ==> s[i] == c,
    ensures
        trimmed_mean(s) == c,
{
    let n = s.len() - NUM_MOST_RECENT_SAMPLES_TO_IGNORE;
    let t = s.take(n as int);
    lemma_seq_sum_constant(t, c);
    vstd::arithmetic::mul::lemma_mul_is_commutative(n as int, c as int);
    vstd::arithmetic::div_mod::lemma_div_by_multiple(c as int, n as int);
}

/// The buffer after `n` samples of one value have been fed in.
pub open spec fn ring_push_n(s: Seq<usize>, x: usize, n: nat) -> Seq<usize>
    decreases n,
{
    if n == 0 {
        s
    } else {
        ring_push(ring_push_n(s, x, (n - 1) as nat), x)
    }
}

/// Feeding a constant into an empty buffer yields a buffer of that constant,
/// as long as the buffer's capacity allows and capped at it afterwards.
proof fn lemma_ring_push_n_constant(x: usize, n: nat)
    ensures
        ring_push_n(Seq::<usize>::empty(), x, n).len() == if n <= BUFFER_CAPACITY {
            n as int
        } else {
            BUFFER_CAPACITY as int
        },
        forall|i: int|
            0 <= i < ring_push_n(Seq::<usize>::empty(), x, n).len() ==> ring_push_n(
                Seq::<usize>::empty(),
                x,
                n,
            )[i] == x,
    decreases n,
{
    if n > 0 {
        lemma_ring_push_n_constant(x, (n - 1) as nat);
    }
}

/// Debounce stability, end to end: a ring buffer fed nothing but a constant
/// value reads that constant back exactly once the minimum sample count is
/// reached.
pub proof fn lemma_constant_feed_reads_back(x: usize, n: nat)
    requires
        MIN_VALID_SAMPLES_FOR_AVG <= n,
    ensures
        ring_push_n(Seq::<usize>::empty(), x, n).len() >= MIN_VALID_SAMPLES_FOR_AVG,
        trimmed_mean(ring_push_n(Seq::<usize>::empty(), x, n)) == x,
{
    lemma_ring_push_n_constant(x, n);
    lemma_debounce_stability(ring_push_n(Seq::<usize>::empty(), x, n), x);
}

/// Outlier rejection: one spurious sample among otherwise-constant samples
/// moves the trimmed mean by exactly the outlier's excess divided by the
/// number of averaged samples — and not at all when the outlier is among the
/// ignored most-recent samples.
pub proof fn lemma_outlier_rejection(s: Seq<usize>, c: usize, j: int)
    requires
        MIN_VALID_SAMPLES_FOR_AVG <= s.len(),
        0 <= j < s.len(),
        forall|i: int| 0 <= i < s.len() && i != j ==> s[i] == c,
    ensures
        j < s.len() - NUM_MOST_RECENT_SAMPLES_TO_IGNORE ==> trimmed_mean(s) == c + (s[j] - c)
            / (s.len() - NUM_MOST_RECENT_SAMPLES_TO_IGNORE),
        j >= s.len() - NUM_MOST_RECENT_SAMPLES_TO_IGNORE ==> trimmed_mean(s) == c,
{
    let n = (s.len() - NUM_MOST_RECENT_SAMPLES_TO_IGNORE) as int;
    let t = s.take(n);
    if j < n {
        lemma_seq_sum_one_off(t, c, j);
        vstd::arithmetic::mul::lemma_mul_is_commutative(n, c as int);
        vstd::arithmetic::div_mod::lemma_hoist_over_denominator(
            s[j] - c,
            c as int,
            n as nat,
        );
    } else {
        lemma_seq_sum_constant(t, c);
        vstd::arithmetic::mul::lemma_mul_is_commutative(n, c as int);
        vstd::arithmetic::div_mod::lemma_div_by_multiple(c as int, n);
    }
}

/// The trimmed mean of a buffer of in-range samples is itself in range.
proof fn lemma_trimmed_mean_in_range(s: Seq<usize>)
    requires
        MIN_VALID_SAMPLES_FOR_AVG <= s.len(),
        forall|i: int| 0 <= i < s.len() ==> s[i] <= FINGER_PRESS_HIGH_BOUNDARY,
    ensures
        0 <= trimmed_mean(s) <= FINGER_PRESS_HIGH_BOUNDARY,
{
    let n = s.len() - NUM_MOST_RECENT_SAMPLES_TO_IGNORE;
    let t = s.take(n as int);
    let b = FINGER_PRESS_HIGH_BOUNDARY as int;
    lemma_seq_sum_upper(t, b);
    vstd::arithmetic::div_mod::lemma_div_pos_is_pos(seq_sum(t), n as int);
    vstd::arithmetic::div_mod::lemma_div_is_ordered(seq_sum(t), n * b, n as int);
    vstd::arithmetic::div_mod::lemma_div_by_multiple(b, n as int);
}

} // verus!
