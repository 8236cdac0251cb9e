//! The sampler's decisions: how often to sample, and which samples go into the
//! 24 h ring.
//!
//! Storing is governed by an absolute grid rather than by the gap since the
//! last stored sample, so that stored sample `N` lands within one sampler
//! period of `first_ts + N * RING_INTERVAL_MS` however the wakeups jitter.
//! The thread, the lock and the subscriber channels live with the service.

use vstd::prelude::*;
use crate::ring::RING_INTERVAL_MS;

verus! {

/// Sampling period while at least one controller is subscribed.
pub const LIVE_INTERVAL_MS: u64 = 1_000;
/// Sampling period with nobody watching: an unwatched agent wakes twice a
/// minute, not sixty times.
pub const IDLE_INTERVAL_MS: u64 = 30_000;
/// Shortest interval between two platform reads.
pub const MIN_SAMPLE_SPACING_MS: u64 = 250;

/// How long the sampler waits before its next read.
pub fn sampler_interval_ms(has_subscribers: bool) -> (ms: u64)
    ensures
        ms == if has_subscribers { LIVE_INTERVAL_MS } else { IDLE_INTERVAL_MS },
{
    if has_subscribers { LIVE_INTERVAL_MS } else { IDLE_INTERVAL_MS }
}

/// How much longer to wait before reading again, given how long ago the
/// previous read was, so that reads are never closer than
/// [`MIN_SAMPLE_SPACING_MS`] however often a subscribe wakes the sampler.
pub fn spacing_wait_ms(since_last_ms: Option<u64>) -> (ms: u64)
    ensures
        ms == match since_last_ms {
            Some(since) => if since < MIN_SAMPLE_SPACING_MS { (MIN_SAMPLE_SPACING_MS - since) as u64 } else { 0 },
            None => 0,
        },
        since_last_ms matches Some(since) ==> since + ms >= MIN_SAMPLE_SPACING_MS,
{
    match since_last_ms {
        Some(since) => if since < MIN_SAMPLE_SPACING_MS { MIN_SAMPLE_SPACING_MS - since } else { 0 },
        None => 0,
    }
}

/// `x`, or `i64::MAX` when `x` is above it.
pub open spec fn clamp_i64(x: int) -> int {
    if x > i64::MAX { i64::MAX as int } else { x }
}

/// The first grid point after `ts`, for a grid through `due` with
/// [`RING_INTERVAL_MS`] spacing, saturating at `i64::MAX`.
pub open spec fn next_grid_point(due: int, ts: int) -> int {
    clamp_i64(due + ((ts - due) / (RING_INTERVAL_MS as int) + 1) * RING_INTERVAL_MS)
}

/// What happens to one delivered sample: whether it is stored in the ring,
/// and when the next stored sample is due.
pub open spec fn ring_step(next_due: Option<i64>, ts_ms: i64, rates_known: bool) -> (bool, Option<i64>) {
    if !rates_known {
        (false, next_due)
    } else {
        match next_due {
            None => (true, Some(clamp_i64(ts_ms + RING_INTERVAL_MS) as i64)),
            Some(due) => if ts_ms >= due {
                (true, Some(next_grid_point(due as int, ts_ms as int) as i64))
            } else {
                (false, Some(due))
            },
        }
    }
}

/// Decide whether a sample goes into the ring.
///
/// The grid cannot move past the end of the clock, so a storable sample
/// stamped `i64::MAX` after the grid has started is outside what this
/// decides.
///
/// A sample whose throughput is unknown is never stored: the history body has
/// one entry per sample with no way to mark one absent. The first storable
/// sample is stored and starts the grid; after that a sample is stored once it
/// reaches the due point, and the due point snaps forward to the first grid
/// point after it, so a long outage does not make every following sample due.
pub fn ring_decision(next_due: Option<i64>, ts_ms: i64, rates_known: bool) -> (r: (bool, Option<i64>))
    requires
        !(rates_known && next_due is Some && ts_ms == i64::MAX),
    ensures
        r == ring_step(next_due, ts_ms, rates_known),
        r.0 ==> rates_known,
        r.0 ==> (r.1 matches Some(next) && (next > ts_ms || next == i64::MAX)),
        !r.0 ==> r.1 == next_due,
        (r.0 && next_due is Some && r.1.unwrap() < i64::MAX) ==>
            (r.1.unwrap() - next_due.unwrap()) % (RING_INTERVAL_MS as int) == 0,
{
    if !rates_known {
        return (false, next_due);
    }
    let interval: i128 = RING_INTERVAL_MS as i128;
    match next_due {
        None => {
            let next: i128 = ts_ms as i128 + interval;
            let next64: i64 = if next > i64::MAX as i128 { i64::MAX } else { next as i64 };
            (true, Some(next64))
        },
        Some(due) => {
            if ts_ms >= due {
                let steps: i128 = (ts_ms as i128 - due as i128) / interval + 1;
                assert(steps * interval <= (i64::MAX as int - i64::MIN as int) + interval) by (nonlinear_arith)
                    requires steps == (ts_ms - due) / 30000 + 1, ts_ms >= due, interval == 30000,
                        ts_ms - due <= i64::MAX as int - i64::MIN as int;
                assert(steps * interval >= 0) by (nonlinear_arith) requires steps >= 1, interval == 30000;
                let next: i128 = due as i128 + steps * interval;
                proof {
                    let q = (ts_ms - due) / 30000;
                    assert((ts_ms - due) - 30000 * q < 30000 && (ts_ms - due) - 30000 * q >= 0) by (nonlinear_arith)
                        requires q == (ts_ms - due) / 30000, ts_ms - due >= 0;
                    assert(steps * interval == 30000 * q + 30000) by (nonlinear_arith)
                        requires steps == q + 1, interval == 30000;
                    assert((steps * interval) % 30000 == 0) by (nonlinear_arith)
                        requires steps * interval == 30000 * q + 30000, q >= 0;
                }
                let next64: i64 = if next > i64::MAX as i128 { i64::MAX } else { next as i64 };
                (true, Some(next64))
            } else {
                (false, Some(due))
            }
        },
    }
}

/// Whether a collection failure has been reported and not yet followed by a
/// recovery, so that an unsupported platform logs one line rather than one
/// per sample forever.
#[derive(Debug, Clone, Copy, PartialEq, Eq)]
pub struct FailureReport {
    pub reported: bool,
}

impl FailureReport {
    /// Nothing reported yet.
    pub fn new() -> (r: FailureReport)
        ensures
            !r.reported,
    {
        FailureReport { reported: false }
    }

    /// A read failed: report it only if the last outcome was not already a
    /// reported failure.
    pub fn on_failure(&mut self) -> (report: bool)
        ensures
            report == !old(self).reported,
            final(self).reported,
    {
        let report = !self.reported;
        self.reported = true;
        report
    }

    /// A read succeeded: announce the recovery only after a reported failure.
    pub fn on_success(&mut self) -> (recovered: bool)
        ensures
            recovered == old(self).reported,
            !final(self).reported,
    {
        let recovered = self.reported;
        self.reported = false;
        recovered
    }
}

/// What a send to a subscriber's queue reported.
#[derive(Debug, Clone, Copy, PartialEq, Eq)]
pub enum SendOutcome {
    /// Queued.
    Sent,
    /// The queue is full: a busy subscriber, not a dead one.
    Full,
    /// The receiver is gone: the subscriber unsubscribed.
    Disconnected,
}

/// Whether a subscriber stays after a delivery: only a disconnected one is
/// dropped, which is what returns an idle agent to the slow cadence.
pub fn keeps_subscriber(outcome: SendOutcome) -> (b: bool)
    ensures
        b == (outcome != SendOutcome::Disconnected),
{
    match outcome {
        SendOutcome::Disconnected => false,
        _ => true,
    }
}

} // verus!
