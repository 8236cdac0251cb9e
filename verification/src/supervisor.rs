//! The decisions that keep the relay attachment up for as long as the agent
//! runs.
//!
//! The service's relay thread connects, pumps frames and sleeps; after each
//! attempt it hands the outcome to [`RelaySupervisor::supervise`], which says
//! whether to try again and after how long. It never gives up for a reason a
//! retry could fix, nor retries one it cannot.

use vstd::prelude::*;
use crate::link::{
    Backoff, Disconnect, BACKOFF_BASE_MS, BACKOFF_CAP_MS, HEALTHY_AFTER_MS, scaled_delay,
    within_jitter,
};
use crate::time::clock_subsec_nanos;

verus! {

/// How one attach attempt ended.
#[derive(Debug, Clone)]
pub enum LinkOutcome {
    /// The socket could not be opened or the upgrade was refused.
    AttachFailed,
    /// A link was up for `lasted_ms` and then ended. `None` means the agent
    /// itself is shutting down.
    Ended { lasted_ms: u64, disconnect: Option<Disconnect> },
}

/// What the relay thread does next.
#[derive(Debug, Clone, Copy, PartialEq, Eq)]
pub enum SupervisorStep {
    /// Sleep this many milliseconds (waking early if the agent stops), then
    /// attach again.
    RetryAfter(u64),
    /// Do not attach again.
    Stop,
}

/// Whether a link that lasted `lasted_ms` proved the relay well. A link that
/// is accepted and dropped at once must not reset the backoff, or a flapping
/// relay would become a hot loop.
pub open spec fn proved_healthy(lasted_ms: u64) -> bool {
    lasted_ms >= HEALTHY_AFTER_MS
}

/// The relay thread's retry state.
#[derive(Debug, Clone)]
pub struct RelaySupervisor {
    backoff: Backoff,
}

impl RelaySupervisor {
    /// The retry delay for the next attempt, before jitter, is
    /// `scaled_delay(base, cap, spec_attempts())`.
    pub closed spec fn spec_attempts(&self) -> u32 {
        self.backoff.spec_attempts()
    }

    /// The supervisor's backoff keeps the relay's base and ceiling.
    pub closed spec fn wf(&self) -> bool {
        &&& self.backoff.spec_base_ms() == BACKOFF_BASE_MS
        &&& self.backoff.spec_cap_ms() == BACKOFF_CAP_MS
    }

    /// A supervisor that has not retried yet.
    pub fn new() -> (s: RelaySupervisor)
        ensures
            s.wf(),
            s.spec_attempts() == 0,
    {
        RelaySupervisor { backoff: Backoff::new(BACKOFF_BASE_MS, BACKOFF_CAP_MS) }
    }

    /// How many retries have been scheduled since the last healthy link.
    pub fn attempts(&self) -> (n: u32)
        ensures
            n == self.spec_attempts(),
    {
        self.backoff.attempts()
    }

    /// Decide what follows an attach attempt.
    ///
    /// - A terminal disconnect (revoked device, refused endpoint) stops the
    ///   thread: every further attempt would fail the same way.
    /// - A link that ended because the agent is stopping stops it too.
    /// - Anything else is retried after the next backoff delay; a link that
    ///   lasted [`HEALTHY_AFTER_MS`] first resets the backoff, so the next
    ///   outage starts from the base delay again.
    pub fn supervise(&mut self, outcome: &LinkOutcome) -> (step: SupervisorStep)
        requires
            old(self).wf(),
        ensures
            final(self).wf(),
            match outcome {
                LinkOutcome::AttachFailed => {
                    &&& step matches SupervisorStep::RetryAfter(ms)
                        && within_jitter(scaled_delay(BACKOFF_BASE_MS, BACKOFF_CAP_MS, old(self).spec_attempts()), ms as nat)
                    &&& final(self).spec_attempts() == next_attempt(old(self).spec_attempts())
                },
                LinkOutcome::Ended { lasted_ms, disconnect } => {
                    let from = if proved_healthy(*lasted_ms) { 0u32 } else { old(self).spec_attempts() };
                    match disconnect {
                        Some(Disconnect::Retryable(_)) => {
                            &&& step matches SupervisorStep::RetryAfter(ms)
                                && within_jitter(scaled_delay(BACKOFF_BASE_MS, BACKOFF_CAP_MS, from), ms as nat)
                            &&& final(self).spec_attempts() == next_attempt(from)
                        },
                        _ => {
                            &&& step == SupervisorStep::Stop
                            &&& final(self).spec_attempts() == from
                        },
                    }
                },
            },
    {
        match outcome {
            LinkOutcome::AttachFailed => {},
            LinkOutcome::Ended { lasted_ms, disconnect } => {
                if *lasted_ms >= HEALTHY_AFTER_MS {
                    self.backoff.reset();
                }
                match disconnect {
                    Some(Disconnect::Retryable(_)) => {},
                    _ => return SupervisorStep::Stop,
                }
            },
        }
        let ms = self.backoff.next_delay_ms_with(clock_subsec_nanos());
        SupervisorStep::RetryAfter(ms)
    }
}

/// The attempt count after one more delay, saturating.
pub open spec fn next_attempt(n: u32) -> u32 {
    if n == u32::MAX { u32::MAX } else { (n + 1) as u32 }
}

} // verus!
