//! Whole-machine telemetry: the sample type and the clock it is stamped with.
//!
//! A counter the platform does not expose is absent from a sample rather than
//! defaulted: a chart drawn from a fabricated zero is indistinguishable from a
//! real idle machine.
//!
//! The processor reading is a type parameter. This crate never does arithmetic
//! on it; the collector that produces it decides its representation.

use vstd::prelude::*;
use crate::time::{since_epoch, system_now, whole_millis};

verus! {

/// One volume's usage.
#[derive(Debug, Clone, PartialEq, Eq)]
pub struct DiskUsage {
    /// Volume label as the operator sees it, e.g. `C:`.
    pub label: String,
    pub used_bytes: u64,
    pub total_bytes: u64,
}

/// The value of a [`DiskUsage`]: its label's characters and its two counters.
pub struct DiskUsageView {
    pub label: Seq<char>,
    pub used_bytes: u64,
    pub total_bytes: u64,
}

impl View for DiskUsage {
    type V = DiskUsageView;

    open spec fn view(&self) -> DiskUsageView {
        DiskUsageView { label: self.label@, used_bytes: self.used_bytes, total_bytes: self.total_bytes }
    }
}

impl DiskUsage {
    /// An independent copy with the same label and counters.
    pub fn duplicate(&self) -> (r: DiskUsage)
        ensures
            r@ == self@,
    {
        DiskUsage { label: self.label.clone(), used_bytes: self.used_bytes, total_bytes: self.total_bytes }
    }
}

/// Copies of every entry of `disks`, in order.
pub fn duplicate_disks(disks: &Vec<DiskUsage>) -> (r: Vec<DiskUsage>)
    ensures
        r@.len() == disks@.len(),
        forall|i: int| 0 <= i < disks@.len() ==> #[trigger] r@[i]@ == disks@[i]@,
{
    let mut r: Vec<DiskUsage> = Vec::new();
    let mut i: usize = 0;
    while i < disks.len()
        invariant
            i <= disks@.len(),
            r@.len() == i,
            forall|k: int| 0 <= k < i ==> #[trigger] r@[k]@ == disks@[k]@,
        decreases disks@.len() - i,
    {
        r.push(disks[i].duplicate());
        i = i + 1;
    }
    r
}

/// One whole-machine observation. `C` is the processor-utilisation reading
/// (0–100), whose representation the collector chooses.
#[derive(Debug, Clone, PartialEq)]
pub struct Sample<C> {
    /// Wall clock at sampling, milliseconds since the Unix epoch.
    pub ts_ms: i64,
    /// Whole-machine utilisation across all logical processors.
    pub cpu_percent: C,
    pub mem_used_bytes: u64,
    pub mem_total_bytes: u64,
    pub disks: Vec<DiskUsage>,
    /// Bytes per second since the previous reading; `None` means unknown for
    /// this interval, which is a different claim from zero.
    pub net_rx_bytes_per_sec: Option<u64>,
    pub net_tx_bytes_per_sec: Option<u64>,
}

/// The value of a [`Sample`].
pub struct SampleView<C> {
    pub ts_ms: i64,
    pub cpu_percent: C,
    pub mem_used_bytes: u64,
    pub mem_total_bytes: u64,
    pub disks: Seq<DiskUsageView>,
    pub net_rx_bytes_per_sec: Option<u64>,
    pub net_tx_bytes_per_sec: Option<u64>,
}

impl<C> View for Sample<C> {
    type V = SampleView<C>;

    open spec fn view(&self) -> SampleView<C> {
        SampleView {
            ts_ms: self.ts_ms,
            cpu_percent: self.cpu_percent,
            mem_used_bytes: self.mem_used_bytes,
            mem_total_bytes: self.mem_total_bytes,
            disks: self.disks@.map_values(|d: DiskUsage| d@),
            net_rx_bytes_per_sec: self.net_rx_bytes_per_sec,
            net_tx_bytes_per_sec: self.net_tx_bytes_per_sec,
        }
    }
}

impl<C: Copy> Sample<C> {
    /// An independent copy holding the same values.
    pub fn duplicate(&self) -> (r: Sample<C>)
        ensures
            r@ == self@,
    {
        let disks = duplicate_disks(&self.disks);
        assert(disks@.map_values(|d: DiskUsage| d@) =~= self.disks@.map_values(|d: DiskUsage| d@));
        Sample {
            ts_ms: self.ts_ms,
            cpu_percent: self.cpu_percent,
            mem_used_bytes: self.mem_used_bytes,
            mem_total_bytes: self.mem_total_bytes,
            disks,
            net_rx_bytes_per_sec: self.net_rx_bytes_per_sec,
            net_tx_bytes_per_sec: self.net_tx_bytes_per_sec,
        }
    }
}

/// Why a sample could not be taken.
#[derive(Debug)]
pub enum MetricsError {
    /// The platform has no collector; it never pretends to have data.
    Unsupported,
    /// Rates are differences between two readings, and the first reading of a
    /// counter has nothing to difference against.
    NoBaseline,
    /// A platform call failed.
    Platform { call: &'static str, detail: String },
}

/// Milliseconds since the Unix epoch for a clock reading, where `None` stands
/// for a clock set before 1970.
pub open spec fn millis_to_ms(elapsed_ms: Option<u128>) -> i64 {
    match elapsed_ms {
        None => 0,
        Some(ms) => if ms > i64::MAX { i64::MAX } else { ms as i64 },
    }
}

/// The clock reading as milliseconds since the epoch: a clock before 1970 is
/// advisory-only nonsense and reads as zero, and one past the `i64` range
/// saturates.
pub fn ms_since_epoch(elapsed_ms: Option<u128>) -> (r: i64)
    ensures
        r == millis_to_ms(elapsed_ms),
{
    match elapsed_ms {
        None => 0,
        Some(ms) => if ms > i64::MAX as u128 { i64::MAX } else { ms as i64 },
    }
}

/// The system clock measured from the Unix epoch, in whole milliseconds;
/// `None` when the clock reads before the epoch.
fn system_clock_millis() -> Option<u128> {
    match since_epoch(system_now()) {
        Some(d) => Some(whole_millis(&d)),
        None => None,
    }
}

/// Milliseconds since the Unix epoch, from the system clock.
pub fn now_ms() -> (r: i64)
    ensures
        r >= 0,
{
    ms_since_epoch(system_clock_millis())
}

} // verus!
