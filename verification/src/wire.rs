//! Conversions from sampled values to the `metrics.tick` and
//! `metrics.history` bodies.
//!
//! The schema uses parallel arrays, so this is the one place where their
//! lengths have to line up exactly: a mismatch between `disk_labels` and
//! `disk_used_bytes` would mislabel every volume on the client, and nothing
//! downstream could detect it.

use vstd::prelude::*;
use crate::metrics::Sample;
use crate::ring::{History, RING_INTERVAL_MS};

verus! {

/// One live sample, as the controller receives it. `sub` names the
/// subscription the tick belongs to.
#[derive(Debug, Clone, PartialEq)]
pub struct MetricsTickBody<C> {
    pub sub: u128,
    pub ts: i64,
    pub cpu_percent: C,
    pub mem_used_bytes: u64,
    pub mem_total_bytes: u64,
    pub disk_labels: Vec<String>,
    pub disk_used_bytes: Vec<u64>,
    pub disk_total_bytes: Vec<u64>,
    pub net_rx_bytes_per_sec: Option<u64>,
    pub net_tx_bytes_per_sec: Option<u64>,
}

/// A stored run, as the controller receives it: sample `N` is at
/// `start_ts + N * interval_ms`.
#[derive(Debug, Clone, PartialEq)]
pub struct MetricsHistoryBody<C> {
    pub sub: u128,
    pub start_ts: i64,
    pub interval_ms: u32,
    pub cpu_percent: Vec<C>,
    pub mem_used_bytes: Vec<u64>,
    pub mem_total_bytes: Option<u64>,
    pub net_rx_bytes_per_sec: Vec<u64>,
    pub net_tx_bytes_per_sec: Vec<u64>,
}

/// One live sample as a `metrics.tick` body: every scalar carried through,
/// and the volumes split into three parallel arrays in the sample's order.
pub fn tick_body<C: Copy>(sub: u128, sample: &Sample<C>) -> (b: MetricsTickBody<C>)
    ensures
        b.sub == sub,
        b.ts == sample.ts_ms,
        b.cpu_percent == sample.cpu_percent,
        b.mem_used_bytes == sample.mem_used_bytes,
        b.mem_total_bytes == sample.mem_total_bytes,
        b.net_rx_bytes_per_sec == sample.net_rx_bytes_per_sec,
        b.net_tx_bytes_per_sec == sample.net_tx_bytes_per_sec,
        b.disk_labels@.len() == sample.disks@.len(),
        b.disk_used_bytes@.len() == sample.disks@.len(),
        b.disk_total_bytes@.len() == sample.disks@.len(),
        forall|i: int| 0 <= i < sample.disks@.len() ==> {
            &&& #[trigger] b.disk_labels@[i]@ == sample.disks@[i].label@
            &&& b.disk_used_bytes@[i] == sample.disks@[i].used_bytes
            &&& b.disk_total_bytes@[i] == sample.disks@[i].total_bytes
        },
{
    let mut disk_labels: Vec<String> = Vec::new();
    let mut disk_used_bytes: Vec<u64> = Vec::new();
    let mut disk_total_bytes: Vec<u64> = Vec::new();
    let mut i: usize = 0;
    while i < sample.disks.len()
        invariant
            i <= sample.disks@.len(),
            disk_labels@.len() == i,
            disk_used_bytes@.len() == i,
            disk_total_bytes@.len() == i,
            forall|k: int| 0 <= k < i ==> {
                &&& #[trigger] disk_labels@[k]@ == sample.disks@[k].label@
                &&& disk_used_bytes@[k] == sample.disks@[k].used_bytes
                &&& disk_total_bytes@[k] == sample.disks@[k].total_bytes
            },
        decreases sample.disks@.len() - i,
    {
        let disk = &sample.disks[i];
        disk_labels.push(disk.label.clone());
        disk_used_bytes.push(disk.used_bytes);
        disk_total_bytes.push(disk.total_bytes);
        i = i + 1;
    }
    MetricsTickBody {
        sub,
        ts: sample.ts_ms,
        cpu_percent: sample.cpu_percent,
        mem_used_bytes: sample.mem_used_bytes,
        mem_total_bytes: sample.mem_total_bytes,
        disk_labels,
        disk_used_bytes,
        disk_total_bytes,
        net_rx_bytes_per_sec: sample.net_rx_bytes_per_sec,
        net_tx_bytes_per_sec: sample.net_tx_bytes_per_sec,
    }
}

/// Whether both of a sample's throughput figures are known.
pub open spec fn rates_known<C>(s: Sample<C>) -> bool {
    s.net_rx_bytes_per_sec is Some && s.net_tx_bytes_per_sec is Some
}

/// How many leading samples of `s` have both throughput figures known: the
/// history arrays stop at the first sample that does not, because an entry
/// per sample cannot be marked absent.
pub open spec fn usable_prefix<C>(s: Seq<Sample<C>>, k: int) -> bool {
    &&& 0 <= k <= s.len()
    &&& forall|i: int| 0 <= i < k ==> #[trigger] rates_known(s[i])
    &&& k == s.len() || !rates_known(s[k])
}

/// A stored run as a `metrics.history` body.
///
/// With no history the body carries empty arrays, a zero `start_ts` and the
/// ring's native interval: explicitly no data, which the client draws as an
/// empty chart rather than a flat line at zero. The installed-memory scalar
/// then comes from `mem_total_bytes`, and otherwise from the newest sample in
/// the run, because that is the figure that describes the machine now.
pub fn history_body<C: Copy>(sub: u128, history: Option<&History<C>>, mem_total_bytes: Option<u64>)
    -> (b: MetricsHistoryBody<C>)
    ensures
        b.sub == sub,
        b.cpu_percent@.len() == b.mem_used_bytes@.len(),
        b.cpu_percent@.len() == b.net_rx_bytes_per_sec@.len(),
        b.cpu_percent@.len() == b.net_tx_bytes_per_sec@.len(),
        match history {
            None => {
                &&& b.start_ts == 0
                &&& b.interval_ms == RING_INTERVAL_MS
                &&& b.cpu_percent@.len() == 0
                &&& b.mem_total_bytes == mem_total_bytes
            },
            Some(h) => {
                let s = h.samples@;
                let k = b.cpu_percent@.len() as int;
                &&& b.start_ts == h.start_ts
                &&& b.interval_ms == h.interval_ms
                &&& usable_prefix(s, k)
                &&& forall|i: int| 0 <= i < k ==> {
                    &&& #[trigger] b.cpu_percent@[i] == s[i].cpu_percent
                    &&& b.mem_used_bytes@[i] == s[i].mem_used_bytes
                    &&& Some(b.net_rx_bytes_per_sec@[i]) == s[i].net_rx_bytes_per_sec
                    &&& Some(b.net_tx_bytes_per_sec@[i]) == s[i].net_tx_bytes_per_sec
                }
                &&& b.mem_total_bytes == if s.len() > 0 { Some(s.last().mem_total_bytes) } else { mem_total_bytes }
            },
        },
{
    match history {
        None => MetricsHistoryBody {
            sub,
            start_ts: 0,
            interval_ms: RING_INTERVAL_MS,
            cpu_percent: Vec::new(),
            mem_used_bytes: Vec::new(),
            mem_total_bytes,
            net_rx_bytes_per_sec: Vec::new(),
            net_tx_bytes_per_sec: Vec::new(),
        },
        Some(h) => {
            let ghost s = h.samples@;
            let n = h.samples.len();
            let mut cpu_percent: Vec<C> = Vec::new();
            let mut mem_used_bytes: Vec<u64> = Vec::new();
            let mut net_rx_bytes_per_sec: Vec<u64> = Vec::new();
            let mut net_tx_bytes_per_sec: Vec<u64> = Vec::new();
            let mut i: usize = 0;
            loop
                invariant
                    n == s.len(),
                    s == h.samples@,
                    i <= n,
                    cpu_percent@.len() == i,
                    mem_used_bytes@.len() == i,
                    net_rx_bytes_per_sec@.len() == i,
                    net_tx_bytes_per_sec@.len() == i,
                    forall|q: int| 0 <= q < i ==> #[trigger] rates_known(s[q]),
                    forall|q: int| 0 <= q < i ==> {
                        &&& #[trigger] cpu_percent@[q] == s[q].cpu_percent
                        &&& mem_used_bytes@[q] == s[q].mem_used_bytes
                        &&& Some(net_rx_bytes_per_sec@[q]) == s[q].net_rx_bytes_per_sec
                        &&& Some(net_tx_bytes_per_sec@[q]) == s[q].net_tx_bytes_per_sec
                    },
                ensures
                    usable_prefix(s, i as int),
                decreases n - i,
            {
                if i == n {
                    break;
                }
                let sample = &h.samples[i];
                match (sample.net_rx_bytes_per_sec, sample.net_tx_bytes_per_sec) {
                    (Some(rx), Some(tx)) => {
                        cpu_percent.push(sample.cpu_percent);
                        mem_used_bytes.push(sample.mem_used_bytes);
                        net_rx_bytes_per_sec.push(rx);
                        net_tx_bytes_per_sec.push(tx);
                        i = i + 1;
                    },
                    _ => {
                        break;
                    },
                }
            }
            let mem_total = if n > 0 { Some(h.samples[n - 1].mem_total_bytes) } else { mem_total_bytes };
            MetricsHistoryBody {
                sub,
                start_ts: h.start_ts,
                interval_ms: h.interval_ms,
                cpu_percent,
                mem_used_bytes,
                mem_total_bytes: mem_total,
                net_rx_bytes_per_sec,
                net_tx_bytes_per_sec,
            }
        },
    }
}

} // verus!
