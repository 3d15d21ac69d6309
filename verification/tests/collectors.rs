use nubilus_agent::collectors::disk::{DiskSpace, DiskTotals};
use nubilus_agent::collectors::network::{InterfaceCounters, NetworkMetrics};
use nubilus_agent::collectors::report;

#[test]
fn counters_are_reported_as_signed() {
    assert_eq!(report(0), 0);
    assert_eq!(report(1_000_000), 1_000_000);
    assert_eq!(report(i64::MAX as u64), i64::MAX);
    assert_eq!(report(i64::MAX as u64 + 1), i64::MIN);
    assert_eq!(report(u64::MAX), -1);
}

#[test]
fn network_counters_add_up() {
    let interfaces = [
        InterfaceCounters { received: 100, transmitted: 10 },
        InterfaceCounters { received: 2_000, transmitted: 200 },
        InterfaceCounters { received: 30_000, transmitted: 3_000 },
    ];
    assert_eq!(
        nubilus_agent::collectors::network::collect(&interfaces),
        Some(NetworkMetrics { bytes_in: 32_100, bytes_out: 3_210 })
    );
}

#[test]
fn no_interfaces_no_traffic() {
    assert_eq!(
        nubilus_agent::collectors::network::collect(&[]),
        Some(NetworkMetrics { bytes_in: 0, bytes_out: 0 })
    );
}

#[test]
fn network_sum_above_the_signed_range_wraps() {
    let interfaces = [
        InterfaceCounters { received: i64::MAX as u64, transmitted: u64::MAX },
        InterfaceCounters { received: 1, transmitted: 0 },
    ];
    assert_eq!(
        nubilus_agent::collectors::network::collect(&interfaces),
        Some(NetworkMetrics { bytes_in: i64::MIN, bytes_out: -1 })
    );
}

#[test]
fn network_sum_beyond_64_bits_has_no_result() {
    let received = [
        InterfaceCounters { received: u64::MAX, transmitted: 0 },
        InterfaceCounters { received: 1, transmitted: 0 },
    ];
    assert_eq!(nubilus_agent::collectors::network::collect(&received), None);
    let transmitted = [
        InterfaceCounters { received: 0, transmitted: 1 },
        InterfaceCounters { received: 0, transmitted: u64::MAX },
        InterfaceCounters { received: 0, transmitted: 0 },
    ];
    assert_eq!(nubilus_agent::collectors::network::collect(&transmitted), None);
}

#[test]
fn disk_space_adds_up() {
    let disks = [
        DiskSpace { total: 1_000, available: 400 },
        DiskSpace { total: 5_000, available: 1_000 },
    ];
    assert_eq!(
        nubilus_agent::collectors::disk::collect(&disks),
        Some(DiskTotals { total: 6_000, used: 4_600 })
    );
}

#[test]
fn no_disks_no_space() {
    assert_eq!(
        nubilus_agent::collectors::disk::collect(&[]),
        Some(DiskTotals { total: 0, used: 0 })
    );
}

#[test]
fn more_free_than_total_counts_as_nothing_used() {
    let disks = [DiskSpace { total: 100, available: 150 }, DiskSpace { total: 10, available: 0 }];
    assert_eq!(
        nubilus_agent::collectors::disk::collect(&disks),
        Some(DiskTotals { total: 110, used: 0 })
    );
}

#[test]
fn disk_totals_use_all_64_bits() {
    let disks = [DiskSpace { total: u64::MAX - 1, available: 5 }, DiskSpace { total: 1, available: 0 }];
    assert_eq!(
        nubilus_agent::collectors::disk::collect(&disks),
        Some(DiskTotals { total: u64::MAX, used: u64::MAX - 5 })
    );
}

#[test]
fn disk_sum_beyond_64_bits_has_no_result() {
    let disks = [DiskSpace { total: u64::MAX, available: 0 }, DiskSpace { total: 1, available: 0 }];
    assert_eq!(nubilus_agent::collectors::disk::collect(&disks), None);
    let disks = [DiskSpace { total: 0, available: u64::MAX }, DiskSpace { total: 0, available: 1 }];
    assert_eq!(nubilus_agent::collectors::disk::collect(&disks), None);
}
