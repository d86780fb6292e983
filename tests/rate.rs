use ictmon::rate::{push_two_decimals, window_rate, Rate};

fn text(r: &Rate) -> String {
    String::from_utf8(r.to_text()).unwrap()
}

#[test]
fn rate_window_clamped_to_uptime() {
    // five arrivals, two seconds of uptime, one-minute window
    let r = window_rate(5, 60_000, 2_000);
    assert_eq!(r, Rate { count: 5, elapsed_ms: 2_000 });
    assert_eq!(text(&r), "2.50");
}

#[test]
fn rate_window_full_after_horizon() {
    let r = window_rate(120, 60_000, 3_600_000);
    assert_eq!(r, Rate { count: 120, elapsed_ms: 60_000 });
    assert_eq!(text(&r), "2.00");
}

#[test]
fn rate_at_zero_uptime_uses_one_millisecond() {
    let r = window_rate(0, 60_000, 0);
    assert_eq!(r, Rate { count: 0, elapsed_ms: 1 });
    assert_eq!(text(&r), "0.00");
    let r = window_rate(3, 60_000, 0);
    assert_eq!(text(&r), "3000.00");
}

#[test]
fn rate_rounds_half_up() {
    assert_eq!(text(&Rate { count: 1, elapsed_ms: 8_000 }), "0.13");
    assert_eq!(text(&Rate { count: 2, elapsed_ms: 3_000 }), "0.67");
    assert_eq!(text(&Rate { count: 1, elapsed_ms: 3_000 }), "0.33");
    assert_eq!(Rate { count: 1, elapsed_ms: 3_000 }.hundredths(), 33);
}

#[test]
fn rate_largest_count_does_not_overflow() {
    let r = Rate { count: u64::MAX, elapsed_ms: 1 };
    assert_eq!(r.hundredths(), u64::MAX as u128 * 100_000);
    assert_eq!(text(&r), "18446744073709551615000.00");
}

#[test]
fn two_decimals_layout() {
    let mut out = b"x=".to_vec();
    push_two_decimals(&mut out, 1_205);
    assert_eq!(out, b"x=12.05".to_vec());
    let mut out = Vec::new();
    push_two_decimals(&mut out, 7);
    assert_eq!(out, b"0.07".to_vec());
}
