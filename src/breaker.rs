//! Per-agent circuit breaker: suppresses new work after repeated failures.

use vstd::prelude::*;
use crate::clock::{elapsed, elapsed_since};

verus! {

/// The three states of the breaker.
#[derive(Debug, Clone, Copy, PartialEq, Eq, Structural)]
pub enum BreakerState {
    /// Normal operation: spawns are admitted.
    Closed,
    /// Spawns are refused; entered at the given second.
    Open { opened_at: u64 },
    /// One trial spawn is permitted; `trial_taken` records whether it has been.
    HalfOpen { trial_taken: bool },
}

/// Circuit breaker of one agent.
#[derive(Debug, Clone, Copy)]
pub struct CircuitBreaker {
    pub state: BreakerState,
    pub consecutive_failures: u32,
    pub threshold: u32,
    pub cooldown_secs: u64,
}

impl CircuitBreaker {
    /// Whether a spawn attempt would be admitted now.
    pub open spec fn admits(self) -> bool {
        match self.state {
            BreakerState::Closed => true,
            BreakerState::Open { .. } => false,
            BreakerState::HalfOpen { trial_taken } => !trial_taken,
        }
    }

    /// The breaker after an admitted spawn.
    pub open spec fn after_admit(self) -> CircuitBreaker {
        match self.state {
            BreakerState::HalfOpen { .. } => CircuitBreaker {
                state: BreakerState::HalfOpen { trial_taken: true },
                ..self
            },
            _ => self,
        }
    }

    /// The breaker after a process reported success.
    pub open spec fn after_success(self) -> CircuitBreaker {
        match self.state {
            BreakerState::Open { .. } => self,
            _ => CircuitBreaker { state: BreakerState::Closed, consecutive_failures: 0, ..self },
        }
    }

    /// The failure count after one more failure, held at `u32::MAX`.
    pub open spec fn bumped(self) -> u32 {
        if self.consecutive_failures < u32::MAX {
            (self.consecutive_failures + 1) as u32
        } else {
            u32::MAX
        }
    }

    /// The breaker after a process failed (or timed out) at second `now`.
    pub open spec fn after_failure(self, now: u64) -> CircuitBreaker {
        match self.state {
            BreakerState::Closed => if self.bumped() >= self.threshold {
                CircuitBreaker {
                    state: BreakerState::Open { opened_at: now },
                    consecutive_failures: self.bumped(),
                    ..self
                }
            } else {
                CircuitBreaker { consecutive_failures: self.bumped(), ..self }
            },
            BreakerState::Open { .. } => CircuitBreaker {
                consecutive_failures: self.bumped(),
                ..self
            },
            BreakerState::HalfOpen { .. } => CircuitBreaker {
                state: BreakerState::Open { opened_at: now },
                consecutive_failures: self.bumped(),
                ..self
            },
        }
    }

    /// The breaker after a scheduler tick at second `now`.
    pub open spec fn after_tick(self, now: u64) -> CircuitBreaker {
        match self.state {
            BreakerState::Open { opened_at } => if elapsed(now, opened_at) >= self.cooldown_secs {
                CircuitBreaker { state: BreakerState::HalfOpen { trial_taken: false }, ..self }
            } else {
                self
            },
            _ => self,
        }
    }

    /// The breaker after `n` consecutive failures at second `now`.
    pub open spec fn after_failures(self, n: nat, now: u64) -> CircuitBreaker
        decreases n,
    {
        if n == 0 {
            self
        } else {
            self.after_failures((n - 1) as nat, now).after_failure(now)
        }
    }

    /// A closed breaker with no failures recorded.
    pub open spec fn spec_new(threshold: u32, cooldown_secs: u64) -> CircuitBreaker {
        CircuitBreaker { state: BreakerState::Closed, consecutive_failures: 0, threshold, cooldown_secs }
    }

    /// A closed breaker with no failures recorded.
    pub fn new(threshold: u32, cooldown_secs: u64) -> (r: CircuitBreaker)
        ensures
            r == Self::spec_new(threshold, cooldown_secs),
    {
        CircuitBreaker { state: BreakerState::Closed, consecutive_failures: 0, threshold, cooldown_secs }
    }

    /// Whether a spawn attempt would be admitted now, without taking the
    /// half-open trial.
    pub fn would_admit(&self) -> (r: bool)
        ensures
            r == self.admits(),
    {
        match self.state {
            BreakerState::Closed => true,
            BreakerState::Open { .. } => false,
            BreakerState::HalfOpen { trial_taken } => !trial_taken,
        }
    }

    /// Asks to admit a spawn; in the half-open state this takes the one trial.
    pub fn try_admit(&mut self) -> (r: bool)
        ensures
            r == old(self).admits(),
            *final(self) == if r { old(self).after_admit() } else { *old(self) },
    {
        let ok = self.would_admit();
        if ok {
            if let BreakerState::HalfOpen { .. } = self.state {
                self.state = BreakerState::HalfOpen { trial_taken: true };
            }
        }
        ok
    }

    /// Records a successful (or budget-exhausted) terminal outcome.
    pub fn record_success(&mut self)
        ensures
            *final(self) == old(self).after_success(),
    {
        match self.state {
            BreakerState::Open { .. } => {},
            _ => {
                self.state = BreakerState::Closed;
                self.consecutive_failures = 0;
            },
        }
    }

    /// Records a failed or timed-out terminal outcome at second `now`.
    pub fn record_failure(&mut self, now: u64)
        ensures
            *final(self) == old(self).after_failure(now),
    {
        let bumped: u32 = if self.consecutive_failures < u32::MAX {
            self.consecutive_failures + 1
        } else {
            u32::MAX
        };
        match self.state {
            BreakerState::Closed => {
                self.consecutive_failures = bumped;
                if bumped >= self.threshold {
                    self.state = BreakerState::Open { opened_at: now };
                }
            },
            BreakerState::Open { .. } => {
                self.consecutive_failures = bumped;
            },
            BreakerState::HalfOpen { .. } => {
                self.consecutive_failures = bumped;
                self.state = BreakerState::Open { opened_at: now };
            },
        }
    }

    /// Scheduler tick: an open breaker whose cooldown has elapsed becomes
    /// half-open.
    pub fn tick(&mut self, now: u64)
        ensures
            *final(self) == old(self).after_tick(now),
    {
        if let BreakerState::Open { opened_at } = self.state {
            let waited = elapsed_since(now, opened_at);
            if waited >= self.cooldown_secs {
                self.state = BreakerState::HalfOpen { trial_taken: false };
            }
        }
    }
}

/// Fewer consecutive failures than the threshold, counted from a closed
/// breaker with none recorded, leave it closed with exactly that count.
pub proof fn lemma_below_threshold_stays_closed(b: CircuitBreaker, n: nat, now: u64)
    requires
        b.state == BreakerState::Closed,
        b.consecutive_failures == 0,
        n < b.threshold,
    ensures
        b.after_failures(n, now).state == BreakerState::Closed,
        b.after_failures(n, now).consecutive_failures == n,
        b.after_failures(n, now).threshold == b.threshold,
    decreases n,
{
    if n > 0 {
        lemma_below_threshold_stays_closed(b, (n - 1) as nat, now);
    }
}

/// After exactly `threshold` consecutive failures, counted from a closed
/// breaker with none recorded, the next spawn attempt is refused.
pub proof fn lemma_threshold_failures_open_circuit(b: CircuitBreaker, now: u64)
    requires
        b.state == BreakerState::Closed,
        b.consecutive_failures == 0,
        b.threshold >= 1,
    ensures
        b.after_failures(b.threshold as nat, now).state == (BreakerState::Open { opened_at: now }),
        !b.after_failures(b.threshold as nat, now).admits(),
{
    let n = b.threshold as nat;
    lemma_below_threshold_stays_closed(b, (n - 1) as nat, now);
}

/// One success while closed resets the failure count to zero.
pub proof fn lemma_success_resets_failures(b: CircuitBreaker)
    requires
        b.state == BreakerState::Closed,
    ensures
        b.after_success().state == BreakerState::Closed,
        b.after_success().consecutive_failures == 0,
{
}

} // verus!
