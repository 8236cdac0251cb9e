//! What the whole-machine counters mean once they have been read.
//!
//! The service reads the raw figures from the platform (processor times,
//! memory status, the interface table, each fixed volume); this module turns
//! them into the values a sample carries, and decides when a figure is
//! unknown rather than zero.

use vstd::prelude::*;
use crate::metrics::{DiskUsage, MetricsError};

verus! {

/// Cumulative processor time since boot, in 100 ns ticks. The kernel figure
/// includes idle time.
#[derive(Debug, Clone, Copy, PartialEq, Eq)]
pub struct CpuTimes {
    pub idle: u64,
    pub kernel: u64,
    pub user: u64,
}

/// Processor time over one interval: `busy` of `total` ticks, `busy <= total`
/// and `total > 0`. The percentage is `100 * busy / total`.
#[derive(Debug, Clone, Copy, PartialEq, Eq)]
pub struct CpuShare {
    pub busy: u64,
    pub total: u64,
}

/// `a - b`, or zero when `b` is larger.
pub open spec fn monus(a: u64, b: u64) -> u64 {
    if a >= b { (a - b) as u64 } else { 0 }
}

/// The busy share of the interval between two readings, or `None` when no
/// processor time elapsed between them.
///
/// Windows counts idle inside the kernel figure, so elapsed processor time is
/// `kernel + user` and busy is that minus idle. Treating `kernel + user` as
/// busy would report a permanently pegged machine.
pub open spec fn busy_share(previous: CpuTimes, current: CpuTimes) -> Option<CpuShare> {
    let kernel = monus(current.kernel, previous.kernel);
    let user = monus(current.user, previous.user);
    let idle = monus(current.idle, previous.idle);
    let total = if kernel + user > u64::MAX { u64::MAX } else { (kernel + user) as u64 };
    if total == 0 {
        None
    } else {
        Some(CpuShare { busy: monus(total, idle), total })
    }
}

/// The busy share of the interval between two readings.
///
/// `None` when the two readings landed inside one system tick and the counters
/// are identical: there is no utilisation to report, and zero would be a
/// measurement nobody made. Idle briefly exceeding the total (the three
/// counters are read a few ticks apart) reads as nothing busy.
pub fn busy_percent(previous: CpuTimes, current: CpuTimes) -> (r: Option<CpuShare>)
    ensures
        r == busy_share(previous, current),
        r matches Some(s) ==> s.busy <= s.total && s.total > 0,
{
    let kernel = current.kernel.saturating_sub(previous.kernel);
    let user = current.user.saturating_sub(previous.user);
    let idle = current.idle.saturating_sub(previous.idle);
    let total = kernel.saturating_add(user);
    if total == 0 {
        return None;
    }
    Some(CpuShare { busy: total.saturating_sub(idle), total })
}

/// One row of the platform's interface table, as far as the throughput sum
/// cares.
#[derive(Debug, Clone, Copy, PartialEq, Eq)]
pub struct IfRow {
    pub index: u32,
    /// The row's access type is loopback.
    pub loopback: bool,
    /// The row's operational status is up.
    pub up: bool,
    /// The row's interface-and-status flag bits.
    pub flags: u8,
    pub in_octets: u64,
    pub out_octets: u64,
}

/// The flag bit set on the pseudo-rows Windows creates for each bound
/// lightweight filter driver. Each such row mirrors its adapter's octet
/// counters exactly, so summing it with the adapter counts every byte again
/// (measured at four times the real throughput on a stock host). Filtering on
/// this bit rather than requiring the hardware bit keeps genuine virtual
/// adapters, which carry real traffic.
pub const FILTER_INTERFACE_FLAG: u8 = 0x02;

/// One interface that counts toward the machine's throughput.
#[derive(Debug, Clone, Copy, PartialEq, Eq)]
pub struct CountedRow {
    pub index: u32,
    pub in_octets: u64,
    pub out_octets: u64,
}

/// Whether a row counts: up, not loopback, not a filter pseudo-row.
pub open spec fn counts(row: IfRow) -> bool {
    !row.loopback && row.up && (row.flags & FILTER_INTERFACE_FLAG) == 0
}

/// The counted form of a row.
pub open spec fn counted_of(row: IfRow) -> CountedRow {
    CountedRow { index: row.index, in_octets: row.in_octets, out_octets: row.out_octets }
}

/// The rows the throughput sum covers, in table order.
pub fn counted_rows(table: &[IfRow]) -> (rows: Vec<CountedRow>)
    ensures
        rows@ == table@.filter(|r: IfRow| counts(r)).map_values(|r: IfRow| counted_of(r)),
{
    let ghost keep = |r: IfRow| counts(r);
    let ghost conv = |r: IfRow| counted_of(r);
    let mut rows: Vec<CountedRow> = Vec::new();
    let mut i: usize = 0;
    while i < table.len()
        invariant
            i <= table@.len(),
            keep == (|r: IfRow| counts(r)),
            conv == (|r: IfRow| counted_of(r)),
            rows@ == table@.subrange(0, i as int).filter(keep).map_values(conv),
        decreases table@.len() - i,
    {
        let row = table[i];
        proof {
            assert(table@.subrange(0, i + 1) =~= table@.subrange(0, i as int).push(row));
            table@.subrange(0, i as int).lemma_filter_push(row, keep);
        }
        if !row.loopback && row.up && (row.flags & FILTER_INTERFACE_FLAG) == 0 {
            rows.push(CountedRow { index: row.index, in_octets: row.in_octets, out_octets: row.out_octets });
            assert(table@.subrange(0, i as int).filter(keep).push(row).map_values(conv)
                =~= table@.subrange(0, i as int).filter(keep).map_values(conv).push(conv(row)));
        }
        i = i + 1;
    }
    assert(table@.subrange(0, table@.len() as int) =~= table@);
    rows
}

/// Totals in and out over a set of interfaces, read at one moment.
#[derive(Debug, Clone, PartialEq, Eq)]
pub struct NetCounters {
    pub rx_bytes: u64,
    pub tx_bytes: u64,
    /// When the table was read, in nanoseconds on a monotonic clock.
    pub at_ns: u64,
    /// Which interfaces the totals were summed over, ascending.
    ///
    /// The totals are a sum over a varying set, not a monotonic counter: an
    /// adapter that goes down leaves the sum with its accumulated octets and
    /// rejoins still carrying them. Differencing across such a change measures
    /// membership, not traffic, so the membership is recorded and compared.
    pub interfaces: Vec<u32>,
}

/// The saturating sum of the `in` (`rx`) or `out` octets of `rows`.
pub open spec fn octet_sum(rows: Seq<CountedRow>, rx: bool) -> u64
    decreases rows.len(),
{
    if rows.len() == 0 {
        0
    } else {
        let rest = octet_sum(rows.drop_last(), rx);
        let add = if rx { rows.last().in_octets } else { rows.last().out_octets };
        if rest + add > u64::MAX { u64::MAX } else { (rest + add) as u64 }
    }
}

/// Whether `s` is in ascending order.
pub open spec fn ascending(s: Seq<u32>) -> bool {
    forall|i: int, j: int| 0 <= i <= j < s.len() ==> s[i] <= s[j]
}

/// `slice::sort_unstable`: the same elements, in ascending order.
#[verifier::external_body]
fn sort_ascending(v: &mut Vec<u32>)
    ensures
        final(v)@.to_multiset() == old(v)@.to_multiset(),
        ascending(final(v)@),
{
    v.sort_unstable();
}

/// Sum the counted rows read at `at_ns` into the machine's totals.
pub fn net_counters(rows: &[CountedRow], at_ns: u64) -> (c: NetCounters)
    ensures
        c.rx_bytes == octet_sum(rows@, true),
        c.tx_bytes == octet_sum(rows@, false),
        c.at_ns == at_ns,
        c.interfaces@.to_multiset() == rows@.map_values(|r: CountedRow| r.index).to_multiset(),
        ascending(c.interfaces@),
{
    let ghost idx = |r: CountedRow| r.index;
    let mut rx_bytes: u64 = 0;
    let mut tx_bytes: u64 = 0;
    let mut interfaces: Vec<u32> = Vec::new();
    let mut i: usize = 0;
    while i < rows.len()
        invariant
            i <= rows@.len(),
            idx == (|r: CountedRow| r.index),
            rx_bytes == octet_sum(rows@.subrange(0, i as int), true),
            tx_bytes == octet_sum(rows@.subrange(0, i as int), false),
            interfaces@ == rows@.subrange(0, i as int).map_values(idx),
        decreases rows@.len() - i,
    {
        let row = rows[i];
        assert(rows@.subrange(0, i + 1).drop_last() =~= rows@.subrange(0, i as int));
        rx_bytes = rx_bytes.saturating_add(row.in_octets);
        tx_bytes = tx_bytes.saturating_add(row.out_octets);
        interfaces.push(row.index);
        assert(rows@.subrange(0, i + 1).map_values(idx) =~= rows@.subrange(0, i as int).map_values(idx).push(row.index));
        i = i + 1;
    }
    assert(rows@.subrange(0, rows@.len() as int) =~= rows@);
    sort_ascending(&mut interfaces);
    NetCounters { rx_bytes, tx_bytes, at_ns, interfaces }
}

/// `round(delta * 10^9 / elapsed_ns)`, halves rounded up, saturating at
/// `u64::MAX`: bytes per second over an interval of `elapsed_ns`.
pub open spec fn per_second(delta: u64, elapsed_ns: u64) -> u64 {
    let q = (2 * delta * 1_000_000_000 + elapsed_ns) / (2 * elapsed_ns);
    if q > u64::MAX { u64::MAX } else { q as u64 }
}

/// Bytes per second between two readings, or `None` when the pair cannot be
/// differenced into a throughput:
///
/// * no time elapsed between them;
/// * the interface set changed — an adapter rejoining carries its retained
///   counters back into the sum, and the naive difference looks like a
///   multi-gigabyte burst in one second;
/// * a counter went backwards (an adapter was reset).
///
/// Each of these is unknown rather than zero: a zero would put a point on the
/// chart claiming an idle link.
pub open spec fn rates_spec(previous: NetCounters, current: NetCounters) -> Option<(u64, u64)> {
    if current.at_ns <= previous.at_ns {
        None
    } else if previous.interfaces@ != current.interfaces@ {
        None
    } else if current.rx_bytes < previous.rx_bytes || current.tx_bytes < previous.tx_bytes {
        None
    } else {
        let elapsed = (current.at_ns - previous.at_ns) as u64;
        Some((per_second((current.rx_bytes - previous.rx_bytes) as u64, elapsed),
              per_second((current.tx_bytes - previous.tx_bytes) as u64, elapsed)))
    }
}

fn same_interfaces(a: &Vec<u32>, b: &Vec<u32>) -> (r: bool)
    ensures
        r == (a@ == b@),
{
    if a.len() != b.len() {
        return false;
    }
    let mut i: usize = 0;
    while i < a.len()
        invariant
            a@.len() == b@.len(),
            i <= a@.len(),
            forall|k: int| 0 <= k < i ==> a@[k] == b@[k],
        decreases a@.len() - i,
    {
        if a[i] != b[i] {
            return false;
        }
        i = i + 1;
    }
    assert(a@ =~= b@);
    true
}

fn rate(delta: u64, elapsed_ns: u64) -> (r: u64)
    requires
        elapsed_ns > 0,
    ensures
        r == per_second(delta, elapsed_ns),
{
    let num: u128 = 2 * (delta as u128) * 1_000_000_000 + elapsed_ns as u128;
    let den: u128 = 2 * elapsed_ns as u128;
    let q = num / den;
    if q > u64::MAX as u128 { u64::MAX } else { q as u64 }
}

/// Bytes per second in and out between two readings; see [`rates_spec`].
pub fn rates(previous: &NetCounters, current: &NetCounters) -> (r: Option<(u64, u64)>)
    ensures
        r == rates_spec(*previous, *current),
{
    if current.at_ns <= previous.at_ns {
        return None;
    }
    if !same_interfaces(&previous.interfaces, &current.interfaces) {
        return None;
    }
    if current.rx_bytes < previous.rx_bytes || current.tx_bytes < previous.tx_bytes {
        return None;
    }
    let elapsed = current.at_ns - previous.at_ns;
    Some((rate(current.rx_bytes - previous.rx_bytes, elapsed), rate(current.tx_bytes - previous.tx_bytes, elapsed)))
}

/// A throughput is reported exactly when the second reading is later, was
/// summed over the very same interfaces, and neither counter went backwards;
/// and then each rate is the counter's growth per second, rounded to the
/// nearest byte (halves up) unless it exceeds `u64::MAX`: `2 * rate * elapsed`
/// lies within `elapsed` of `2 * growth * 10^9`.
pub proof fn a_rate_needs_the_same_interfaces_and_is_growth_per_second(previous: NetCounters, current: NetCounters)
    ensures
        rates_spec(previous, current) is Some <==> {
            &&& previous.at_ns < current.at_ns
            &&& previous.interfaces@ == current.interfaces@
            &&& previous.rx_bytes <= current.rx_bytes
            &&& previous.tx_bytes <= current.tx_bytes
        },
        rates_spec(previous, current) matches Some((rx, tx)) ==> {
            let e = current.at_ns - previous.at_ns;
            let drx = current.rx_bytes - previous.rx_bytes;
            let dtx = current.tx_bytes - previous.tx_bytes;
            &&& (rx < u64::MAX ==> 2 * rx * e <= 2 * drx * 1_000_000_000 + e < 2 * (rx + 1) * e)
            &&& (rx == u64::MAX ==> 2 * rx * e <= 2 * drx * 1_000_000_000 + e)
            &&& (tx < u64::MAX ==> 2 * tx * e <= 2 * dtx * 1_000_000_000 + e < 2 * (tx + 1) * e)
            &&& (tx == u64::MAX ==> 2 * tx * e <= 2 * dtx * 1_000_000_000 + e)
        },
{
    if let Some((rx, tx)) = rates_spec(previous, current) {
        let e = (current.at_ns - previous.at_ns) as u64;
        lemma_per_second_rounds(((current.rx_bytes - previous.rx_bytes) as u64), e);
        lemma_per_second_rounds(((current.tx_bytes - previous.tx_bytes) as u64), e);
    }
}

/// [`per_second`] is the growth per second rounded to the nearest byte.
proof fn lemma_per_second_rounds(delta: u64, e: u64)
    requires
        e > 0,
    ensures
        per_second(delta, e) < u64::MAX ==> 2 * per_second(delta, e) * e <= 2 * delta * 1_000_000_000 + e
            < 2 * (per_second(delta, e) + 1) * e,
        per_second(delta, e) == u64::MAX ==> 2 * per_second(delta, e) * e <= 2 * delta * 1_000_000_000 + e,
{
    let n = 2 * delta * 1_000_000_000 + e;
    let d = 2 * e;
    let q = n / d;
    assert(d * q <= n < d * (q + 1)) by (nonlinear_arith)
        requires d > 0, q == n / d, n >= 0;
    if q > u64::MAX {
        assert(d * (u64::MAX as int) <= d * q) by (nonlinear_arith)
            requires d > 0, q > u64::MAX;
    }
    assert(2 * q * e == d * q) by (nonlinear_arith) requires d == 2 * e;
    assert(2 * (q + 1) * e == d * (q + 1)) by (nonlinear_arith) requires d == 2 * e;
    assert(2 * (u64::MAX as int) * e == d * (u64::MAX as int)) by (nonlinear_arith) requires d == 2 * e;
    assert(2 * (u64::MAX as int + 1) * e == d * (u64::MAX as int + 1)) by (nonlinear_arith) requires d == 2 * e;
}

/// `(used, total)` physical memory from the total and the available figure.
pub fn memory_usage(total_phys: u64, avail_phys: u64) -> (r: (u64, u64))
    ensures
        r == (monus(total_phys, avail_phys), total_phys),
        r.0 <= r.1,
{
    (total_phys.saturating_sub(avail_phys), total_phys)
}

/// The drive letter for bit `bit` of the logical-drives mask.
pub open spec fn drive_letter(bit: u32) -> char {
    ((65 + bit) as u8) as char
}

/// Whether drive `bit` is present in the logical-drives mask.
pub open spec fn has_drive(mask: u32, bit: u32) -> bool {
    (mask as nat / pow2_32(bit)) % 2 == 1
}

/// `2^bit`.
pub open spec fn pow2_32(bit: u32) -> nat
    decreases bit,
{
    if bit == 0 { 1 } else { 2 * pow2_32((bit - 1) as u32) }
}

/// The drives present in the logical-drives mask, `A` to `Z`, as bit numbers
/// in ascending order.
pub fn drives_in_mask(mask: u32) -> (bits: Vec<u32>)
    ensures
        forall|i: int| 0 <= i < bits@.len() ==> #[trigger] bits@[i] < 26 && has_drive(mask, bits@[i]),
        forall|b: u32| b < 26 && has_drive(mask, b) ==> bits@.contains(b),
        forall|i: int, j: int| 0 <= i < j < bits@.len() ==> bits@[i] < bits@[j],
{
    let mut bits: Vec<u32> = Vec::new();
    let mut rest: u32 = mask;
    let mut bit: u32 = 0;
    assert(pow2_32(0) == 1);
    assert(mask as nat / 1 == mask as nat);
    while bit < 26
        invariant
            bit <= 26,
            rest as nat == mask as nat / pow2_32(bit),
            forall|i: int| 0 <= i < bits@.len() ==> #[trigger] bits@[i] < bit && has_drive(mask, bits@[i]),
            forall|b: u32| b < bit && has_drive(mask, b) ==> bits@.contains(b),
            forall|i: int, j: int| 0 <= i < j < bits@.len() ==> bits@[i] < bits@[j],
        decreases 26 - bit,
    {
        proof {
            lemma_pow2_32_positive(bit);
            assert(pow2_32((bit + 1) as u32) == 2 * pow2_32(bit));
            vstd::arithmetic::div_mod::lemma_div_denominator(mask as int, pow2_32(bit) as int, 2);
        }
        let ghost before = bits@;
        assert(has_drive(mask, bit) == (rest % 2 == 1));
        if rest % 2 == 1 {
            bits.push(bit);
            assert(bits@[bits@.len() - 1] == bit);
        }
        assert forall|b: u32| b < bit + 1 && has_drive(mask, b) implies bits@.contains(b) by {
            if b < bit {
                assert(before.contains(b));
                let k = choose|k: int| 0 <= k < before.len() && before[k] == b;
                assert(bits@[k] == b);
            } else {
                assert(bits@[bits@.len() - 1] == bit);
            }
        }
        rest = rest / 2;
        bit = bit + 1;
    }
    bits
}

proof fn lemma_pow2_32_positive(bit: u32)
    ensures
        pow2_32(bit) >= 1,
    decreases bit,
{
    if bit > 0 {
        lemma_pow2_32_positive((bit - 1) as u32);
    }
}

/// A fixed volume's usage from its total and free bytes: labelled `X:`, used
/// being total less free.
pub fn volume_usage(bit: u32, total: u64, free: u64) -> (d: DiskUsage)
    requires
        bit < 26,
    ensures
        d.label@ == seq![drive_letter(bit), ':'],
        d.used_bytes == monus(total, free),
        d.total_bytes == total,
{
    let letter = ((65 + bit) as u8) as char;
    let mut label = String::new();
    label.push(letter);
    label.push(':');
    assert(label@ =~= seq![drive_letter(bit), ':']);
    DiskUsage { label, used_bytes: total.saturating_sub(free), total_bytes: total }
}

/// The collector's memory of the previous reading, so rates can be
/// differenced.
#[derive(Debug, Clone)]
pub struct Collector {
    pub previous_cpu: Option<CpuTimes>,
    pub previous_net: Option<NetCounters>,
}

impl Collector {
    /// A collector whose baseline is the readings taken at construction (a
    /// reading that failed is `None`), so the first sample already covers a
    /// real interval.
    pub fn new(cpu: Option<CpuTimes>, net: Option<NetCounters>) -> (c: Collector)
        ensures
            c.previous_cpu == cpu,
            c.previous_net == net,
    {
        Collector { previous_cpu: cpu, previous_net: net }
    }

    /// The processor share since the previous reading, which `now` replaces.
    ///
    /// With no baseline (the construction read failed), or when no processor
    /// time elapsed, the answer is [`MetricsError::NoBaseline`] rather than a
    /// fabricated zero; the next sample has a baseline.
    pub fn cpu_share(&mut self, now: CpuTimes) -> (r: Result<CpuShare, MetricsError>)
        ensures
            final(self).previous_cpu == Some(now),
            final(self).previous_net == old(self).previous_net,
            match old(self).previous_cpu {
                None => r matches Err(MetricsError::NoBaseline),
                Some(p) => match busy_share(p, now) {
                    None => r matches Err(MetricsError::NoBaseline),
                    Some(s) => r matches Ok(x) && x == s,
                },
            },
    {
        let previous = self.previous_cpu;
        self.previous_cpu = Some(now);
        match previous {
            None => Err(MetricsError::NoBaseline),
            Some(p) => match busy_percent(p, now) {
                None => Err(MetricsError::NoBaseline),
                Some(s) => Ok(s),
            },
        }
    }

    /// The throughput since the previous reading, which `now` replaces: `Ok`
    /// of a pair of `None`s when the interval cannot be differenced, and
    /// [`MetricsError::NoBaseline`] when there was no previous reading.
    pub fn net_rates(&mut self, now: NetCounters) -> (r: Result<(Option<u64>, Option<u64>), MetricsError>)
        ensures
            final(self).previous_net == Some(now),
            final(self).previous_cpu == old(self).previous_cpu,
            match old(self).previous_net {
                None => r matches Err(MetricsError::NoBaseline),
                Some(p) => match rates_spec(p, now) {
                    None => r matches Ok(x) && x == (None::<u64>, None::<u64>),
                    Some((rx, tx)) => r matches Ok(x) && x == (Some(rx), Some(tx)),
                },
            },
    {
        let previous = self.previous_net.take();
        let result = match &previous {
            None => Err(MetricsError::NoBaseline),
            Some(p) => match rates(p, &now) {
                None => Ok((None, None)),
                Some((rx, tx)) => Ok((Some(rx), Some(tx))),
            },
        };
        self.previous_net = Some(now);
        result
    }
}

} // verus!
