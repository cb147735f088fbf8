//! Glide (portamento) processor.
//!
//! A time-constant-driven smoothing filter that slews the output pitch toward
//! a target value instead of jumping to it. Each output tick moves the
//! current output a fraction of the remaining distance toward the target —
//! at least one count whenever any distance remains — so the output
//! approaches the target monotonically, never overshoots, and reaches it in
//! finitely many ticks. A time constant of zero gives instantaneous tracking.

use vstd::prelude::*;

verus! {

/// One tick of the glide filter: the output after slewing `out` toward
/// `target` with time constant `tc`.
///
/// With `tc == 0` the output jumps straight to the target; otherwise it moves
/// by the remaining distance divided by `tc + 1`, and by a single count when
/// that quotient rounds down to zero.
pub open spec fn glide_step(out: u16, target: u16, tc: u16) -> u16 {
    if tc == 0 {
        target
    } else if out < target {
        let step = (target - out) / (tc + 1);
        if step == 0 {
            (out + 1) as u16
        } else {
            (out + step) as u16
        }
    } else if target < out {
        let step = (out - target) / (tc + 1);
        if step == 0 {
            (out - 1) as u16
        } else {
            (out - step) as u16
        }
    } else {
        out
    }
}

/// The output after `n` glide ticks toward a fixed target.
pub open spec fn glide_iter(out: u16, target: u16, tc: u16, n: nat) -> u16
    decreases n,
{
    if n == 0 {
        out
    } else {
        glide_iter(glide_step(out, target, tc), target, tc, (n - 1) as nat)
    }
}

/// A portamento filter slewing the output pitch toward its target.
pub struct GlideProcessor {
    /// The last emitted smoothed value.
    current_output: u16,
    /// The smoothing time constant; zero means instantaneous tracking.
    time_constant: u16,
}

impl GlideProcessor {
    /// The last emitted smoothed value.
    pub closed spec fn output(self) -> u16 {
        self.current_output
    }

    /// The current smoothing time constant.
    pub closed spec fn time(self) -> u16 {
        self.time_constant
    }

    /// `GlideProcessor::new()` is a new glide processor with no glide and an
    /// output of zero.
    pub fn new() -> (r: Self)
        ensures
            r.output() == 0,
            r.time() == 0,
    {
        Self { current_output: 0, time_constant: 0 }
    }

    /// `g.set_time(t)` updates the smoothing time constant, leaving the
    /// current output untouched.
    pub fn set_time(&mut self, t: u16)
        ensures
            final(self).time() == t,
            final(self).output() == old(self).output(),
    {
        self.time_constant = t;
    }

    /// `g.process(target)` advances the filter one output tick toward
    /// `target` and returns the new smoothed value.
    ///
    /// The output moves monotonically toward the target without ever
    /// overshooting it, makes strict progress whenever any distance remains,
    /// and jumps straight to the target when the time constant is zero.
    pub fn process(&mut self, target: u16) -> (r: u16)
        ensures
            r == final(self).output(),
            final(self).time() == old(self).time(),
            final(self).output() == glide_step(old(self).output(), target, old(self).time()),
            old(self).output() <= target ==> old(self).output() <= final(self).output()
                <= target,
            target <= old(self).output() ==> target <= final(self).output()
                <= old(self).output(),
            old(self).time() == 0 ==> final(self).output() == target,
            old(self).output() != target ==> crate::quantizer::abs_diff(
                final(self).output() as int,
                target as int,
            ) < crate::quantizer::abs_diff(old(self).output() as int, target as int),
    {
        if self.time_constant == 0 {
            self.current_output = target;
        } else if self.current_output < target {
            let step: u16 = ((target - self.current_output) as u32
                / (self.time_constant as u32 + 1)) as u16;
            proof {
                lemma_step_le_diff((target - self.current_output) as int, self.time_constant + 1);
            }
            if step == 0 {
                self.current_output = self.current_output + 1;
            } else {
                self.current_output = self.current_output + step;
            }
        } else if target < self.current_output {
            let step: u16 = ((self.current_output - target) as u32
                / (self.time_constant as u32 + 1)) as u16;
            proof {
                lemma_step_le_diff((self.current_output - target) as int, self.time_constant + 1);
            }
            if step == 0 {
                self.current_output = self.current_output - 1;
            } else {
                self.current_output = self.current_output - step;
            }
        }
        self.current_output
    }
}

/// Glide convergence: repeated glide ticks toward a fixed target approach it
/// monotonically, never overshoot it, close at least one count of distance
/// per tick, and therefore reach the target exactly once as many ticks have
/// elapsed as there were counts of initial distance.
pub proof fn lemma_glide_convergence(out: u16, target: u16, tc: u16, n: nat)
    ensures
        out <= target ==> out <= glide_iter(out, target, tc, n) <= target,
        target <= out ==> target <= glide_iter(out, target, tc, n) <= out,
        crate::quantizer::abs_diff(glide_iter(out, target, tc, n) as int, target as int)
            <= crate::quantizer::abs_diff(out as int, target as int) - n
            || glide_iter(out, target, tc, n) == target,
        n >= crate::quantizer::abs_diff(out as int, target as int) ==> glide_iter(
            out,
            target,
            tc,
            n,
        ) == target,
    decreases n,
{
    if n == 0 {
    } else {
        let next = glide_step(out, target, tc);
        if out < target {
            assert(out < next <= target) by {
                lemma_step_le_diff((target - out) as int, tc as int + 1);
            }
        } else if target < out {
            assert(target <= next < out) by {
                lemma_step_le_diff((out - target) as int, tc as int + 1);
            }
        }
        lemma_glide_convergence(next, target, tc, (n - 1) as nat);
    }
}

/// For a positive distance, the per-tick step (the distance divided by a
/// positive divisor) is between zero and the distance.
proof fn lemma_step_le_diff(d: int, q: int)
    requires
        q >= 1,
        d >= 1,
    ensures
        0 <= d / q <= d,
{
    vstd::arithmetic::div_mod::lemma_div_nonincreasing(d, q);
    vstd::arithmetic::div_mod::lemma_div_pos_is_pos(d, q);
}

} // verus!
