use vstd::prelude::*;

verus! {

/// The delay, in milliseconds, for a given number of consecutive failures:
/// `base * failures`, capped at `max`.
pub open spec fn delay_for(base: u64, max: u64, failures: u32) -> int {
    if base * failures <= max {
        base * failures
    } else {
        max as int
    }
}

/// Retry policy whose delay grows linearly with the number of consecutive
/// failures, up to a ceiling. Durations are whole milliseconds.
pub struct Backoff {
    pub failures: u32,
    pub base_duration: u64,
    pub max_duration: u64,
}

impl Backoff {
    /// Failure count after one more computed delay (it stops at `u32::MAX`).
    pub open spec fn next_failures(&self) -> u32 {
        if self.failures < u32::MAX {
            (self.failures + 1) as u32
        } else {
            self.failures
        }
    }

    pub open spec fn new_spec(base_duration: u64, max_duration: u64) -> Self {
        Backoff { failures: 0, base_duration, max_duration }
    }

    /// A policy with no failures recorded yet.
    pub fn new(base_duration: u64, max_duration: u64) -> (r: Self)
        ensures
            r == Self::new_spec(base_duration, max_duration),
    {
        Backoff { failures: 0, base_duration, max_duration }
    }

    /// Records one more failure and returns the delay to wait before retrying.
    pub fn next(&mut self) -> (r: u64)
        ensures
            final(self).failures == old(self).next_failures(),
            final(self).base_duration == old(self).base_duration,
            final(self).max_duration == old(self).max_duration,
            r == delay_for(old(self).base_duration, old(self).max_duration, final(self).failures),
    {
        if self.failures < u32::MAX {
            self.failures = self.failures + 1;
        }
        let duration = match self.base_duration.checked_mul(self.failures as u64) {
            Some(d) => d,
            None => self.max_duration,
        };
        proof {
            assert(self.base_duration * self.failures >= 0) by (nonlinear_arith);
        }
        if duration < self.max_duration {
            duration
        } else {
            self.max_duration
        }
    }

    /// Forgets all recorded failures.
    pub fn reset(&mut self)
        ensures
            final(self).failures == 0,
            final(self).base_duration == old(self).base_duration,
            final(self).max_duration == old(self).max_duration,
    {
        self.failures = 0;
    }
}

/// Delays never decrease as failures accumulate, and never exceed the ceiling:
/// any later point of a sequence of `next` calls (more failures, same policy)
/// yields a delay at least as long as an earlier one.
pub proof fn lemma_delays_non_decreasing(base: u64, max: u64, earlier: u32, later: u32)
    requires
        earlier <= later,
    ensures
        delay_for(base, max, earlier) <= delay_for(base, max, later),
        delay_for(base, max, later) <= max,
{
    assert(base * earlier <= base * later) by (nonlinear_arith)
        requires earlier <= later;
}

/// After `reset`, the next delay is exactly the base duration (when the base
/// does not already exceed the ceiling).
pub proof fn lemma_reset_restarts_at_base(b: Backoff)
    requires
        b.failures == 0,
        b.base_duration <= b.max_duration,
    ensures
        b.next_failures() == 1,
        delay_for(b.base_duration, b.max_duration, b.next_failures()) == b.base_duration,
{
    assert(b.base_duration * 1 == b.base_duration);
}

} // verus!
