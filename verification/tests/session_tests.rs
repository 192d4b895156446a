use session_core::session::SessionTable;

#[test]
fn acquire_is_first_fit_and_exclusive() {
    let mut table = SessionTable::new(3);
    let a = table.acquire("10.0.0.1:100");
    let b = table.acquire("10.0.0.2:200");
    assert_eq!(a, Some(0));
    assert_eq!(b, Some(1));
    assert_ne!(a, b);
}

#[test]
fn capacity_bound_refuses_and_leaves_slots_unmodified() {
    let mut table = SessionTable::new(3);
    assert_eq!(table.acquire("a"), Some(0));
    assert_eq!(table.acquire("b"), Some(1));
    assert_eq!(table.acquire("c"), Some(2));
    table.record_traffic(1, 11, 13);
    let before = table.snapshot();
    assert_eq!(table.acquire("d"), None);
    let after = table.snapshot();
    assert_eq!(after.active_sessions, 3);
    assert_eq!(after.active_sessions, before.active_sessions);
    assert_eq!(after.total_bytes_read, before.total_bytes_read);
    assert_eq!(after.total_bytes_written, before.total_bytes_written);
    assert_eq!(after.occupants, vec!["a", "b", "c"]);
}

#[test]
fn traffic_accounting_sums_deltas_over_occupied_slots() {
    let mut table = SessionTable::new(4);
    let first = table.acquire("one").unwrap();
    let second = table.acquire("two").unwrap();
    table.record_traffic(first, 5, 7);
    table.record_traffic(first, 6, 8);
    table.record_traffic(second, 100, 200);
    let report = table.snapshot();
    assert_eq!(report.total_bytes_read, 5 + 6 + 100);
    assert_eq!(report.total_bytes_written, 7 + 8 + 200);
    assert_eq!(report.active_sessions, 2);
}

#[test]
fn acquire_resets_stale_counters() {
    let mut table = SessionTable::new(1);
    let slot = table.acquire("first").unwrap();
    table.record_traffic(slot, 40, 50);
    table.release(slot);
    let again = table.acquire("second").unwrap();
    assert_eq!(again, slot);
    let report = table.snapshot();
    assert_eq!(report.total_bytes_read, 0);
    assert_eq!(report.total_bytes_written, 0);
}

#[test]
fn snapshot_ignores_counters_of_free_slots() {
    let mut table = SessionTable::new(2);
    let slot = table.acquire("gone").unwrap();
    table.record_traffic(slot, 40, 50);
    table.release(slot);
    let report = table.snapshot();
    assert_eq!(report.active_sessions, 0);
    assert_eq!(report.total_bytes_read, 0);
    assert_eq!(report.total_bytes_written, 0);
}

#[test]
fn release_is_idempotent_and_local() {
    let mut table = SessionTable::new(3);
    table.acquire("a");
    table.acquire("b");
    table.record_traffic(1, 3, 4);
    table.release(0);
    let once = table.snapshot();
    table.release(0);
    let twice = table.snapshot();
    assert_eq!(once.active_sessions, 1);
    assert_eq!(twice.active_sessions, 1);
    assert_eq!(once.occupants, twice.occupants);
    assert_eq!(twice.occupants, vec!["", "b", ""]);
    assert_eq!(twice.total_bytes_read, 3);
    assert_eq!(twice.total_bytes_written, 4);
}

#[test]
fn end_to_end_admission_scenario() {
    let mut table = SessionTable::new(2);
    assert_eq!(table.acquire("A"), Some(0));
    assert_eq!(table.acquire("B"), Some(1));
    assert_eq!(table.acquire("C"), None);
    table.release(0);
    assert_eq!(table.acquire("C"), Some(0));
    let report = table.snapshot();
    assert_eq!(report.active_sessions, 2);
    assert_eq!(report.occupants, vec!["C", "B"]);
}

#[test]
fn traffic_fits_detects_overflow() {
    let mut table = SessionTable::new(1);
    let slot = table.acquire("x").unwrap();
    assert!(table.traffic_fits(slot, u64::MAX, u64::MAX));
    table.record_traffic(slot, 1, 0);
    assert!(!table.traffic_fits(slot, u64::MAX, 0));
    assert!(table.traffic_fits(slot, u64::MAX - 1, u64::MAX));
}
