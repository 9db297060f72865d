//! Bounded exponential backoff.
//!
//! `BackoffState` is owned exclusively by one connection manager for one
//! connection's lifetime: the current delay starts at the configured initial
//! delay, doubles on each failed attempt and is capped at the maximum delay;
//! the attempt counter increments on each failed attempt and is never reset.

use vstd::prelude::*;

verus! {

/// 2 to the power `n`.
pub open spec fn pow2(n: nat) -> nat
    decreases n,
{
    if n == 0 {
        1
    } else {
        2 * pow2((n - 1) as nat)
    }
}

/// The smaller of two integers.
pub open spec fn min_int(a: int, b: int) -> int {
    if a <= b {
        a
    } else {
        b
    }
}

/// Doubling capped at `max`: the successor of one backoff delay.
pub open spec fn capped_double(d: int, max: int) -> int {
    if 2 * d >= max {
        max
    } else {
        2 * d
    }
}

/// `n + 1`, saturating at the largest `u32`.
pub open spec fn sat_inc(n: u32) -> u32 {
    if n == u32::MAX {
        u32::MAX
    } else {
        (n + 1) as u32
    }
}

/// The current delay after `n` consecutive failed attempts, starting from
/// `initial_ms` and doubling with a cap at `max_ms` on each failure.
pub open spec fn delay_after_failures(initial_ms: u64, max_ms: u64, n: nat) -> int
    decreases n,
{
    if n == 0 {
        initial_ms as int
    } else {
        capped_double(delay_after_failures(initial_ms, max_ms, (n - 1) as nat), max_ms as int)
    }
}

/// The delay prescribed for the retry that follows `n` earlier consecutive
/// failures equals `min(initial_ms * 2^n, max_ms)`: the iterated capped
/// doubling has this closed form whenever `initial_ms <= max_ms`.
pub proof fn lemma_backoff_delay_closed_form(initial_ms: u64, max_ms: u64, n: nat)
    requires
        initial_ms <= max_ms,
    ensures
        delay_after_failures(initial_ms, max_ms, n) == min_int(
            initial_ms as int * pow2(n),
            max_ms as int,
        ),
    decreases n,
{
    let i = initial_ms as int;
    let m = max_ms as int;
    if n == 0 {
        assert(pow2(0) == 1);
        assert(i * pow2(0) == i);
        assert(delay_after_failures(initial_ms, max_ms, 0) == i);
        assert(min_int(i * pow2(0), m) == i);
    } else {
        lemma_backoff_delay_closed_form(initial_ms, max_ms, (n - 1) as nat);
        let p = pow2((n - 1) as nat) as int;
        assert(pow2(n) == 2 * pow2((n - 1) as nat));
        assert(i * (2 * p) == 2 * (i * p)) by (nonlinear_arith);
        assert(i * pow2(n) == 2 * (i * p));
        let prev = min_int(i * p, m);
        assert(delay_after_failures(initial_ms, max_ms, n) == capped_double(prev, m));
        if i * p >= m {
            assert(2 * (i * p) >= m);
        }
        assert(delay_after_failures(initial_ms, max_ms, n) == min_int(i * pow2(n), m));
    }
}

/// The delay never leaves the configured band: it is at least the smaller of
/// `initial_ms` and `max_ms`, and at most `max_ms`.
pub proof fn lemma_backoff_delay_bounds(initial_ms: u64, max_ms: u64, n: nat)
    requires
        initial_ms <= max_ms,
    ensures
        min_int(initial_ms as int, max_ms as int) <= delay_after_failures(initial_ms, max_ms, n)
            <= max_ms,
    decreases n,
{
    if n > 0 {
        lemma_backoff_delay_bounds(initial_ms, max_ms, (n - 1) as nat);
    }
}

/// Mutable per-connection retry state: the delay to wait before the next
/// reconnection attempt, and how many failed attempts have occurred.
#[derive(Clone, Copy, Debug, PartialEq, Eq, Structural)]
pub struct BackoffState {
    /// Delay in milliseconds to wait before the next attempt.
    pub current_delay_ms: u64,
    /// Number of failed attempts so far; saturates at the largest `u32`.
    pub attempts: u32,
}

impl BackoffState {
    /// Fresh state for a new connection: the configured initial delay, no
    /// failed attempts yet.
    pub fn new(initial_delay_ms: u64) -> (s: Self)
        ensures
            s.current_delay_ms == initial_delay_ms,
            s.attempts == 0,
    {
        BackoffState { current_delay_ms: initial_delay_ms, attempts: 0 }
    }

    /// Record one failed attempt: returns the delay to sleep before the next
    /// attempt, increments the attempt counter, and doubles the stored delay,
    /// capped at `max_delay_ms`.
    pub fn record_failure(&mut self, max_delay_ms: u64) -> (delay: u64)
        requires
            old(self).current_delay_ms <= max_delay_ms,
        ensures
            delay == old(self).current_delay_ms,
            final(self).attempts == sat_inc(old(self).attempts),
            final(self).current_delay_ms as int == capped_double(
                old(self).current_delay_ms as int,
                max_delay_ms as int,
            ),
            final(self).current_delay_ms <= max_delay_ms,
    {
        let delay = self.current_delay_ms;
        self.attempts = if self.attempts == u32::MAX {
            u32::MAX
        } else {
            self.attempts + 1
        };
        self.current_delay_ms = if self.current_delay_ms >= max_delay_ms - self.current_delay_ms {
            max_delay_ms
        } else {
            self.current_delay_ms + self.current_delay_ms
        };
        delay
    }
}

} // verus!
