use ictmon::metrics::Metrics;
use ictmon::rate::Rate;

fn r(count: u64) -> Rate {
    Rate { count, elapsed_ms: 1_000 }
}

#[test]
fn history_keeps_most_recent_capacity_samples() {
    let mut m = Metrics::with_capacity(3);
    for k in 1..=5u64 {
        m.push_rates(r(k), r(10 * k));
    }
    assert_eq!(m.short_history(), vec![r(3), r(4), r(5)]);
    assert_eq!(m.long_history(), vec![r(30), r(40), r(50)]);
}

#[test]
fn history_below_capacity_keeps_everything() {
    let mut m = Metrics::with_capacity(4);
    m.push_rates(r(1), r(2));
    m.push_rates(r(3), r(4));
    assert_eq!(m.short_history(), vec![r(1), r(3)]);
    assert_eq!(m.long_history(), vec![r(2), r(4)]);
}

#[test]
fn history_of_capacity_one() {
    let mut m = Metrics::with_capacity(1);
    m.push_rates(r(1), r(2));
    m.push_rates(r(3), r(4));
    assert_eq!(m.short_history(), vec![r(3)]);
    assert_eq!(m.latest_long(), Some(r(4)));
}

#[test]
fn latest_of_empty_history_is_none() {
    let m = Metrics::new();
    assert_eq!(m.latest_short(), None);
    assert_eq!(m.latest_long(), None);
    assert!(m.short_history().is_empty());
}
