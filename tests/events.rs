use ictmon::events::Events;

#[test]
fn new_store_is_empty() {
    let e = Events::new();
    assert_eq!(e.short_count(), 0);
    assert_eq!(e.long_count(), 0);
}

#[test]
fn arrival_goes_to_both_windows() {
    let mut e = Events::new();
    assert!(e.record_arrival(10));
    assert!(e.record_arrival(10));
    assert!(e.record_arrival(25));
    assert_eq!(e.short_arrivals(), vec![10, 10, 25]);
    assert_eq!(e.long_arrivals(), vec![10, 10, 25]);
}

#[test]
fn arrival_before_last_is_refused() {
    let mut e = Events::new();
    assert!(e.record_arrival(100));
    assert!(!e.record_arrival(99));
    assert_eq!(e.short_arrivals(), vec![100]);
    assert_eq!(e.long_arrivals(), vec![100]);
}

#[test]
fn eviction_removes_only_instants_before_cutoff() {
    let mut e = Events::new();
    for t in [0u64, 1_000, 9_999, 10_000, 10_001, 70_000] {
        assert!(e.record_arrival(t));
    }
    // short cutoff 70_000 - 60_000 = 10_000; long cutoff is negative
    e.evict_expired(70_000, 60_000, 600_000);
    assert_eq!(e.short_arrivals(), vec![10_000, 10_001, 70_000]);
    assert_eq!(e.long_arrivals(), vec![0, 1_000, 9_999, 10_000, 10_001, 70_000]);
}

#[test]
fn eviction_can_empty_a_window() {
    let mut e = Events::new();
    assert!(e.record_arrival(5));
    assert!(e.record_arrival(6));
    e.evict_expired(1_000, 10, 2_000);
    assert_eq!(e.short_count(), 0);
    assert_eq!(e.long_arrivals(), vec![5, 6]);
}

#[test]
fn eviction_of_empty_store_is_harmless() {
    let mut e = Events::new();
    e.evict_expired(u64::MAX, 0, 0);
    assert_eq!(e.short_count(), 0);
    assert_eq!(e.long_count(), 0);
}
