use osprey_svc::metrics::{DiskUsage, Sample};
use osprey_svc::ring::{History, RING_INTERVAL_MS};
use osprey_svc::wire::{history_body, tick_body};

fn sample(ts_ms: i64) -> Sample<f64> {
    Sample {
        ts_ms,
        cpu_percent: 42.5,
        mem_used_bytes: 8,
        mem_total_bytes: 16,
        disks: vec![
            DiskUsage { label: "C:".to_owned(), used_bytes: 1, total_bytes: 2 },
            DiskUsage { label: "D:".to_owned(), used_bytes: 3, total_bytes: 4 },
        ],
        net_rx_bytes_per_sec: Some(5),
        net_tx_bytes_per_sec: Some(6),
    }
}

#[test]
fn the_disk_arrays_stay_parallel_and_ordered() {
    let body = tick_body(0, &sample(1_000));
    assert_eq!(body.disk_labels.len(), body.disk_used_bytes.len());
    assert_eq!(body.disk_labels.len(), body.disk_total_bytes.len());
    assert_eq!(body.disk_labels, ["C:", "D:"]);
    assert_eq!(body.disk_used_bytes, [1, 3]);
    assert_eq!(body.disk_total_bytes, [2, 4]);
}

#[test]
fn a_tick_carries_the_sample_clock_not_the_send_clock() {
    let body = tick_body(0, &sample(1_700_000_000_000));
    assert_eq!(body.ts, 1_700_000_000_000);
}

#[test]
fn an_absent_history_is_empty_rather_than_zero_filled() {
    let body = history_body::<f64>(0, None, Some(16));
    assert!(body.cpu_percent.is_empty());
    assert!(body.mem_used_bytes.is_empty());
    assert!(body.net_rx_bytes_per_sec.is_empty());
    assert!(body.net_tx_bytes_per_sec.is_empty());
    assert_eq!(body.start_ts, 0);
    assert_eq!(body.mem_total_bytes, Some(16), "capacity is known even with no history");
}

#[test]
fn unknown_installed_memory_is_absent_rather_than_zero() {
    let body = history_body::<f64>(0, None, None);
    assert_eq!(body.mem_total_bytes, None, "a zero here would be indistinguishable from a real reading");
}

#[test]
fn an_unknown_rate_is_absent_on_a_tick_rather_than_zero() {
    let mut unknown = sample(1_000);
    unknown.net_rx_bytes_per_sec = None;
    unknown.net_tx_bytes_per_sec = None;
    let body = tick_body(0, &unknown);
    assert_eq!(body.net_rx_bytes_per_sec, None);
    assert_eq!(body.net_tx_bytes_per_sec, None);
    assert_eq!(body.cpu_percent, 42.5);
    assert_eq!(body.mem_total_bytes, 16);
}

#[test]
fn every_history_array_has_one_entry_per_sample() {
    let history = History { start_ts: 1_000, interval_ms: RING_INTERVAL_MS, samples: vec![sample(1_000), sample(31_000), sample(61_000)] };
    let body = history_body(0, Some(&history), None);
    assert_eq!(body.cpu_percent.len(), 3);
    assert_eq!(body.mem_used_bytes.len(), 3);
    assert_eq!(body.net_rx_bytes_per_sec.len(), 3);
    assert_eq!(body.net_tx_bytes_per_sec.len(), 3);
    assert_eq!(body.start_ts, 1_000);
    assert_eq!(body.interval_ms, RING_INTERVAL_MS);
    assert_eq!(body.mem_total_bytes, Some(16), "taken from the newest sample");
}

#[test]
fn a_decimated_interval_is_carried_through_verbatim() {
    let history = History { start_ts: 0, interval_ms: RING_INTERVAL_MS * 6, samples: vec![sample(0), sample(180_000)] };
    let body = history_body(0, Some(&history), None);
    assert_eq!(body.interval_ms, RING_INTERVAL_MS * 6);
}
