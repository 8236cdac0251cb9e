//! Durations and clock readings at the edge of the library.
//!
//! The decisions in this crate are made on whole milliseconds; a
//! `std::time::Duration` is built only where a caller expects one.

use std::time::{Duration, SystemTime, UNIX_EPOCH};
use vstd::prelude::*;

verus! {

/// The `Duration` that `Duration::from_millis` builds from `ms`.
pub uninterp spec fn duration_of_millis(ms: u64) -> Duration;

/// The `Duration` that `Duration::from_secs` builds from `secs`.
pub uninterp spec fn duration_of_secs(secs: u64) -> Duration;

/// `Duration::from_millis`.
#[verifier::external_body]
pub(crate) fn millis(ms: u64) -> (d: Duration)
    ensures
        d == duration_of_millis(ms),
{
    Duration::from_millis(ms)
}

/// `Duration::from_secs`.
#[verifier::external_body]
pub(crate) fn secs(s: u64) -> (d: Duration)
    ensures
        d == duration_of_secs(s),
{
    Duration::from_secs(s)
}

/// The system clock's time type; opaque here.
#[verifier::external_type_specification]
#[verifier::external_body]
pub struct ExSystemTime(SystemTime);

/// `SystemTime::now`: the wall clock as it reads now. It depends on when it
/// is read and on the machine's clock, so nothing is promised of it.
#[verifier::external_body]
pub(crate) fn system_now() -> SystemTime {
    SystemTime::now()
}

/// `SystemTime::duration_since(UNIX_EPOCH)`: how long after the epoch `t`
/// is, or `None` when it is before the epoch. What the duration is, is not
/// stated here.
#[verifier::external_body]
pub(crate) fn since_epoch(t: SystemTime) -> Option<Duration> {
    t.duration_since(UNIX_EPOCH).ok()
}

/// `Duration::subsec_nanos`: the fractional part of `d` in nanoseconds,
/// always below one second.
#[verifier::external_body]
pub(crate) fn subsec_nanos(d: &Duration) -> (n: u32)
    ensures
        n < 1_000_000_000,
{
    d.subsec_nanos()
}

/// `Duration::as_millis`: the whole milliseconds in `d`. Durations here are
/// opaque, so nothing is stated of the count.
#[verifier::external_body]
pub(crate) fn whole_millis(d: &Duration) -> u128 {
    d.as_millis()
}

/// The sub-second part of the system clock, in nanoseconds: zero when the
/// clock reads before the epoch. It depends on when it is read, so only its
/// range is promised.
pub(crate) fn clock_subsec_nanos() -> (n: u32)
    ensures
        n < 1_000_000_000,
{
    match since_epoch(system_now()) {
        Some(d) => subsec_nanos(&d),
        None => 0,
    }
}

} // verus!
