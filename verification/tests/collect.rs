use osprey_svc::collect::{
    busy_percent, counted_rows, drives_in_mask, memory_usage, net_counters, rates, volume_usage,
    Collector, CountedRow, CpuShare, CpuTimes, IfRow, NetCounters,
};
use osprey_svc::metrics::MetricsError;

fn counters(rx: u64, tx: u64, at_ns: u64, interfaces: &[u32]) -> NetCounters {
    NetCounters { rx_bytes: rx, tx_bytes: tx, at_ns, interfaces: interfaces.to_vec() }
}

const SECOND: u64 = 1_000_000_000;

#[test]
fn a_counter_reset_reports_unknown_rather_than_a_wrapped_spike() {
    let previous = counters(1_000_000, 1_000_000, 0, &[9]);
    let current = counters(12, 12, SECOND, &[9]);
    assert_eq!(rates(&previous, &current), None);
}

#[test]
fn an_adapter_rejoining_the_sum_is_not_reported_as_a_burst() {
    let previous = counters(5_000, 5_000, 0, &[9]);
    let current = counters(2_000_005_000, 2_000_005_000, SECOND, &[9, 14]);
    assert_eq!(
        rates(&previous, &current),
        None,
        "a set change must read as unknown, not as throughput"
    );
}

#[test]
fn rates_are_per_second_not_per_interval() {
    let previous = counters(0, 0, 0, &[9]);
    let current = counters(3_000, 6_000, 3 * SECOND, &[9]);
    assert_eq!(rates(&previous, &current), Some((1_000, 2_000)));
}

#[test]
fn no_elapsed_time_is_unknown_throughput() {
    let previous = counters(0, 0, 5, &[9]);
    let current = counters(3_000, 6_000, 5, &[9]);
    assert_eq!(rates(&previous, &current), None);
}

#[test]
fn rates_round_to_the_nearest_byte() {
    let previous = counters(0, 0, 0, &[1]);
    let current = counters(10, 11, 4 * SECOND, &[1]);
    // 2.5 rounds up, 2.75 rounds to 3.
    assert_eq!(rates(&previous, &current), Some((3, 3)));
}

#[test]
fn busy_is_total_minus_idle_not_kernel_plus_user() {
    let previous = CpuTimes { idle: 0, kernel: 0, user: 0 };
    let current = CpuTimes { idle: 7_500_000, kernel: 7_500_000, user: 2_500_000 };
    let share = busy_percent(previous, current).expect("time elapsed");
    assert_eq!(share, CpuShare { busy: 2_500_000, total: 10_000_000 });
    let percent = share.busy as f64 / share.total as f64 * 100.0;
    assert!((percent - 25.0).abs() < 0.001);
}

#[test]
fn a_fully_idle_interval_reports_zero() {
    let previous = CpuTimes { idle: 0, kernel: 0, user: 0 };
    let current = CpuTimes { idle: 10_000_000, kernel: 10_000_000, user: 0 };
    assert_eq!(busy_percent(previous, current), Some(CpuShare { busy: 0, total: 10_000_000 }));
}

#[test]
fn a_fully_busy_interval_reports_one_hundred() {
    let previous = CpuTimes { idle: 0, kernel: 0, user: 0 };
    let current = CpuTimes { idle: 0, kernel: 2_000_000, user: 8_000_000 };
    assert_eq!(busy_percent(previous, current), Some(CpuShare { busy: 10_000_000, total: 10_000_000 }));
}

#[test]
fn two_readings_in_the_same_tick_report_unknown_not_idle() {
    let same = CpuTimes { idle: 5, kernel: 9, user: 3 };
    assert_eq!(busy_percent(same, same), None);
}

#[test]
fn filter_loopback_and_down_rows_are_not_counted() {
    let row = |index, loopback, up, flags, octets| IfRow {
        index,
        loopback,
        up,
        flags,
        in_octets: octets,
        out_octets: octets * 2,
    };
    let table = [
        row(1, true, true, 0x01, 10),
        row(2, false, false, 0x01, 20),
        row(3, false, true, 0x05, 30),
        row(4, false, true, 0x02, 30),
        row(5, false, true, 0x00, 40),
    ];
    let counted = counted_rows(&table);
    assert_eq!(
        counted,
        vec![
            CountedRow { index: 3, in_octets: 30, out_octets: 60 },
            CountedRow { index: 5, in_octets: 40, out_octets: 80 },
        ]
    );
    let totals = net_counters(&counted, 7);
    assert_eq!(totals.rx_bytes, 70);
    assert_eq!(totals.tx_bytes, 140);
    assert_eq!(totals.at_ns, 7);
}

#[test]
fn interface_membership_is_recorded_sorted() {
    let rows = [
        CountedRow { index: 14, in_octets: 1, out_octets: 1 },
        CountedRow { index: 9, in_octets: u64::MAX, out_octets: 1 },
    ];
    let totals = net_counters(&rows, 0);
    assert_eq!(totals.interfaces, vec![9, 14]);
    assert_eq!(totals.rx_bytes, u64::MAX, "the sum saturates");
}

#[test]
fn memory_used_is_total_minus_available() {
    assert_eq!(memory_usage(16, 6), (10, 16));
    assert_eq!(memory_usage(16, 20), (0, 16));
}

#[test]
fn volumes_are_labelled_by_drive_letter() {
    assert_eq!(drives_in_mask(0b1_0100), vec![2, 4]);
    let volume = volume_usage(2, 100, 40);
    assert_eq!(volume.label, "C:");
    assert_eq!(volume.used_bytes, 60);
    assert_eq!(volume.total_bytes, 100);
}

#[test]
fn a_collector_without_a_baseline_reports_no_baseline() {
    let mut collector = Collector::new(None, None);
    let cpu = CpuTimes { idle: 1, kernel: 2, user: 3 };
    assert!(matches!(collector.cpu_share(cpu), Err(MetricsError::NoBaseline)));
    let later = CpuTimes { idle: 2, kernel: 6, user: 5 };
    assert_eq!(collector.cpu_share(later).expect("baseline now"), CpuShare { busy: 5, total: 6 });
    assert!(matches!(collector.net_rates(counters(0, 0, 0, &[1])), Err(MetricsError::NoBaseline)));
    assert_eq!(
        collector.net_rates(counters(2_000, 4_000, 2 * SECOND, &[1])).expect("baseline now"),
        (Some(1_000), Some(2_000))
    );
    assert_eq!(
        collector.net_rates(counters(0, 0, 3 * SECOND, &[1])).expect("baseline"),
        (None, None)
    );
}
