use portscan::config::{PortRange, ScanConfig, ScanError, Target};
use portscan::config::{DEFAULT_CONCURRENCY, DEFAULT_END_PORT, DEFAULT_START_PORT, DEFAULT_TIMEOUT_MS};
use portscan::coordinator::ScanCoordinator;
use portscan::governor::Governor;
use portscan::report::{PortState, ProbeResult};
use portscan::services::{service_label, service_map};

#[test]
fn range_of_size_one_yields_one_result() {
    let range = PortRange::new(5, 5).unwrap();
    let mut c = ScanCoordinator::new(range);
    assert!(c.record(5, false));
    assert!(c.is_complete());
    let report = c.finalize();
    assert_eq!(report.entries.len(), 1);
    assert_eq!(report.entries[0].port, 5);
    assert_eq!(report.entries[0].state, PortState::ClosedOrFiltered);
}

#[test]
fn zero_start_rejected() {
    assert_eq!(PortRange::new(0, 10), Err(ScanError::InvalidRange));
}

#[test]
fn inverted_range_rejected() {
    assert_eq!(PortRange::new(100, 50), Err(ScanError::InvalidRange));
    let cfg = ScanConfig::new(Target::V4(127, 0, 0, 1), 100, 50, 500, 500);
    assert_eq!(cfg, Err(ScanError::InvalidRange));
}

#[test]
fn config_rejects_zero_concurrency() {
    let cfg = ScanConfig::new(Target::V4(127, 0, 0, 1), 1, 1024, 0, 500);
    assert_eq!(cfg, Err(ScanError::InvalidConcurrency));
}

#[test]
fn config_accepts_defaults() {
    let cfg = ScanConfig::new(
        Target::V4(127, 0, 0, 1),
        DEFAULT_START_PORT,
        DEFAULT_END_PORT,
        DEFAULT_CONCURRENCY,
        DEFAULT_TIMEOUT_MS,
    )
    .unwrap();
    assert_eq!(cfg.range.start, 1);
    assert_eq!(cfg.range.end, 1024);
    assert_eq!(cfg.limit, 500);
    assert_eq!(cfg.timeout_ms, 500);
}

#[test]
fn ports_enumeration_ascending_exactly_once() {
    let range = PortRange::new(1, 10).unwrap();
    let ports = range.ports();
    assert_eq!(ports, vec![1, 2, 3, 4, 5, 6, 7, 8, 9, 10]);
    assert_eq!(range.len(), 10);
}

#[test]
fn service_label_known_and_unknown() {
    assert_eq!(service_label(22), Some("SSH"));
    assert_eq!(service_label(80), Some("HTTP"));
    assert_eq!(service_label(9999), None);
}

#[test]
fn service_map_matches_table() {
    let m = service_map();
    assert_eq!(m.len(), 12);
    assert_eq!(m.get(&21), Some(&"FTP"));
    assert_eq!(m.get(&22), Some(&"SSH"));
    assert_eq!(m.get(&23), Some(&"TELNET"));
    assert_eq!(m.get(&25), Some(&"SMTP"));
    assert_eq!(m.get(&53), Some(&"DNS"));
    assert_eq!(m.get(&80), Some(&"HTTP"));
    assert_eq!(m.get(&110), Some(&"POP3"));
    assert_eq!(m.get(&143), Some(&"IMAP"));
    assert_eq!(m.get(&443), Some(&"HTTPS"));
    assert_eq!(m.get(&3306), Some(&"MySQL"));
    assert_eq!(m.get(&6379), Some(&"Redis"));
    assert_eq!(m.get(&8080), Some(&"HTTP-ALT"));
    assert_eq!(m.get(&9999), None);
}

#[test]
fn sequential_scan_with_limit_one_completes() {
    let range = PortRange::new(1, 10).unwrap();
    let mut governor = Governor::new(1);
    let mut c = ScanCoordinator::new(range);
    for port in range.ports() {
        assert!(governor.try_acquire());
        assert!(!governor.try_acquire());
        assert!(c.record(port, false));
        governor.release();
    }
    assert_eq!(governor.in_flight, 0);
    assert!(c.is_complete());
    let report = c.finalize();
    assert_eq!(report.entries.len(), 10);
    for (i, entry) in report.entries.iter().enumerate() {
        assert_eq!(entry.port as usize, i + 1);
        assert_eq!(entry.state, PortState::ClosedOrFiltered);
    }
}

#[test]
fn loopback_scenario_one_open() {
    let range = PortRange::new(1, 100).unwrap();
    let mut c = ScanCoordinator::new(range);
    // Results arrive in an order unrelated to port order.
    for port in (1..=100u16).rev() {
        assert!(c.record(port, port == 80));
    }
    assert!(c.is_complete());
    let report = c.finalize();
    assert_eq!(report.entries.len(), 100);
    assert_eq!(report.open_count(), 1);
    let open: Vec<&ProbeResult> = report
        .entries
        .iter()
        .filter(|e| e.state == PortState::Open)
        .collect();
    assert_eq!(open.len(), 1);
    assert_eq!(open[0].port, 80);
    assert_eq!(open[0].service, Some("HTTP"));
    let closed = report
        .entries
        .iter()
        .filter(|e| e.state == PortState::ClosedOrFiltered)
        .count();
    assert_eq!(closed, 99);
    for pair in report.entries.windows(2) {
        assert!(pair[0].port < pair[1].port);
    }
}

#[test]
fn duplicate_result_ignored() {
    let range = PortRange::new(1, 10).unwrap();
    let mut c = ScanCoordinator::new(range);
    assert!(c.record(5, true));
    assert!(!c.record(5, false));
    assert_eq!(c.completed_count(), 1);
    for port in 1..=10u16 {
        if port != 5 {
            assert!(c.record(port, false));
        }
    }
    let report = c.finalize();
    assert_eq!(report.entries[4].port, 5);
    assert_eq!(report.entries[4].state, PortState::Open);
}

#[test]
fn out_of_range_result_ignored() {
    let range = PortRange::new(1, 10).unwrap();
    let mut c = ScanCoordinator::new(range);
    assert!(!c.record(200, true));
    assert!(!c.record(0, true));
    assert_eq!(c.completed_count(), 0);
    assert!(!c.is_complete());
}

#[test]
fn governor_bounds_in_flight() {
    let mut g = Governor::new(2);
    assert_eq!(g.available(), 2);
    assert!(g.try_acquire());
    assert!(g.try_acquire());
    assert!(!g.try_acquire());
    assert_eq!(g.in_flight, 2);
    g.release();
    assert_eq!(g.available(), 1);
    assert!(g.try_acquire());
    assert!(!g.try_acquire());
    assert!(g.in_flight <= g.limit);
}

#[test]
fn probe_result_carries_label() {
    let open = ProbeResult::new(443, true);
    assert_eq!(open.port, 443);
    assert_eq!(open.state, PortState::Open);
    assert_eq!(open.service, Some("HTTPS"));
    let closed = ProbeResult::new(9999, false);
    assert_eq!(closed.state, PortState::ClosedOrFiltered);
    assert_eq!(closed.service, None);
}

#[test]
fn aggregation_is_order_independent() {
    let range = PortRange::new(20, 29).unwrap();
    let outcomes: Vec<(u16, bool)> = (20..=29u16).map(|p| (p, p == 22 || p == 25)).collect();
    let mut forward = ScanCoordinator::new(range);
    for &(port, open) in outcomes.iter() {
        forward.record(port, open);
    }
    let mut backward = ScanCoordinator::new(range);
    for &(port, open) in outcomes.iter().rev() {
        backward.record(port, open);
    }
    let a = forward.finalize();
    let b = backward.finalize();
    assert_eq!(a.entries.len(), b.entries.len());
    for (x, y) in a.entries.iter().zip(b.entries.iter()) {
        assert_eq!(x.port, y.port);
        assert_eq!(x.state, y.state);
        assert_eq!(x.service, y.service);
    }
}

#[test]
fn error_messages() {
    assert_eq!(
        ScanError::InvalidRange.describe(),
        "Invalid port range (1-65535)"
    );
    assert_eq!(
        ScanError::InvalidConcurrency.describe(),
        "Concurrency limit must be at least 1"
    );
}

#[test]
fn full_range_upper_bound() {
    let range = PortRange::new(65535, 65535).unwrap();
    let mut c = ScanCoordinator::new(range);
    assert!(c.record(65535, false));
    assert!(c.is_complete());
    let report = c.finalize();
    assert_eq!(report.entries.len(), 1);
    assert_eq!(report.entries[0].port, 65535);
}
