use vstd::prelude::*;

verus! {

/// Interval between two refreshes of the arena, in milliseconds.
pub const REFRESH_INTERVAL_MS: u64 = 500;

/// Time that one scheduling step adds to the refresh timer, in milliseconds.
pub const TICK_STEP_MS: u64 = 10;

/// The accumulated time after adding `delta` to `elapsed`, stopping at `threshold`.
pub open spec fn next_elapsed(elapsed: int, delta: int, threshold: int) -> int {
    if elapsed + delta < threshold {
        elapsed + delta
    } else {
        threshold
    }
}

/// The accumulated time of a freshly reset timer after `steps` ticks of `delta`.
pub open spec fn elapsed_after_steps(threshold: int, delta: int, steps: nat) -> int
    decreases steps,
{
    if steps == 0 {
        0
    } else {
        next_elapsed(elapsed_after_steps(threshold, delta, (steps - 1) as nat), delta, threshold)
    }
}

/// Ticking a freshly reset timer `steps` times by `delta` accumulates
/// `steps * delta`, stopping at the threshold; so the timer has fired exactly
/// when `steps * delta` reaches the threshold.
pub proof fn lemma_fires_after_steps(threshold: u64, delta: u64, steps: nat)
    ensures
        elapsed_after_steps(threshold as int, delta as int, steps) == if steps * delta
            < threshold {
            steps * delta
        } else {
            threshold as int
        },
        elapsed_after_steps(threshold as int, delta as int, steps) >= threshold <==> steps * delta
            >= threshold,
    decreases steps,
{
    if steps > 0 {
        lemma_fires_after_steps(threshold, delta, (steps - 1) as nat);
        assert((steps - 1) * delta + delta == steps * delta) by (nonlinear_arith);
        assert((steps - 1) * delta <= steps * delta) by (nonlinear_arith);
        assert(elapsed_after_steps(threshold as int, delta as int, steps) == next_elapsed(
            elapsed_after_steps(threshold as int, delta as int, (steps - 1) as nat),
            delta as int,
            threshold as int,
        ));
    } else {
        assert(steps * delta == 0) by (nonlinear_arith)
            requires
                steps == 0,
        ;
    }
}

/// A clock that fires once the time accumulated since its last reset reaches a
/// threshold. Time is counted in milliseconds and stops at the threshold.
pub struct RefreshTimer {
    threshold: u64,
    elapsed: u64,
}

impl RefreshTimer {
    #[verifier::type_invariant]
    spec fn inv(&self) -> bool {
        self.elapsed <= self.threshold
    }

    /// The time that makes the timer fire.
    pub closed spec fn spec_threshold(&self) -> u64 {
        self.threshold
    }

    /// The time accumulated since the last reset.
    pub closed spec fn spec_elapsed(&self) -> u64 {
        self.elapsed
    }

    /// Whether the timer has fired and waits to be reset.
    pub open spec fn spec_finished(&self) -> bool {
        self.spec_elapsed() >= self.spec_threshold()
    }

    /// A running timer with nothing accumulated.
    pub fn new(threshold: u64) -> (r: Self)
        ensures
            r.spec_threshold() == threshold,
            r.spec_elapsed() == 0,
    {
        RefreshTimer { threshold, elapsed: 0 }
    }

    pub fn threshold(&self) -> (r: u64)
        ensures
            r == self.spec_threshold(),
    {
        self.threshold
    }

    pub fn elapsed(&self) -> (r: u64)
        ensures
            r == self.spec_elapsed(),
            r <= self.spec_threshold(),
    {
        proof {
            use_type_invariant(self);
        }
        self.elapsed
    }

    /// Advances the timer by `delta` milliseconds, stopping at the threshold.
    pub fn tick(&mut self, delta: u64)
        ensures
            final(self).spec_threshold() == old(self).spec_threshold(),
            final(self).spec_elapsed() == next_elapsed(
                old(self).spec_elapsed() as int,
                delta as int,
                old(self).spec_threshold() as int,
            ),
    {
        proof {
            use_type_invariant(&*self);
        }
        if delta < self.threshold - self.elapsed {
            self.elapsed = self.elapsed + delta;
        } else {
            self.elapsed = self.threshold;
        }
    }

    /// Whether the threshold has been reached.
    pub fn finished(&self) -> (r: bool)
        ensures
            r == self.spec_finished(),
    {
        self.elapsed >= self.threshold
    }

    /// Starts a new interval: nothing accumulated, same threshold.
    pub fn reset(&mut self)
        ensures
            final(self).spec_threshold() == old(self).spec_threshold(),
            final(self).spec_elapsed() == 0,
    {
        self.elapsed = 0;
    }
}

} // verus!
