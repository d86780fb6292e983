use ictmon::metrics::Metrics;
use ictmon::query::{graph_reply, parse_request, respond, Action, Request};
use ictmon::rate::Rate;

fn reply(text: &[u8], m: &Metrics) -> String {
    match respond(text, m) {
        Action::Reply(v) => String::from_utf8(v).unwrap(),
        Action::RenderGraph => panic!("unexpected render request"),
    }
}

#[test]
fn verbs_are_recognised_exactly() {
    assert_eq!(parse_request(b"tps"), Request::Tps);
    assert_eq!(parse_request(b"tps10"), Request::Tps10);
    assert_eq!(parse_request(b"graph"), Request::Graph);
    assert_eq!(parse_request(b"TPS"), Request::Unknown);
    assert_eq!(parse_request(b"tps "), Request::Unknown);
    assert_eq!(parse_request(b"tps1"), Request::Unknown);
    assert_eq!(parse_request(b""), Request::Unknown);
}

#[test]
fn tps_on_empty_history_is_zero() {
    let m = Metrics::new();
    assert_eq!(reply(b"tps", &m), "tps;0.00");
    assert_eq!(reply(b"tps10", &m), "tps10;0.00");
}

#[test]
fn tps_reports_latest_sample_of_each_window() {
    let mut m = Metrics::with_capacity(10);
    m.push_rates(Rate { count: 1, elapsed_ms: 1_000 }, Rate { count: 1, elapsed_ms: 1_000 });
    m.push_rates(Rate { count: 5, elapsed_ms: 2_000 }, Rate { count: 30, elapsed_ms: 5_000 });
    assert_eq!(reply(b"tps", &m), "tps;2.50");
    assert_eq!(reply(b"tps10", &m), "tps10;6.00");
}

#[test]
fn repeated_tps_query_gives_same_reply() {
    let mut m = Metrics::with_capacity(10);
    m.push_rates(Rate { count: 7, elapsed_ms: 3_000 }, Rate { count: 7, elapsed_ms: 3_000 });
    let first = reply(b"tps", &m);
    let second = reply(b"tps", &m);
    assert_eq!(first, "tps;2.33");
    assert_eq!(first, second);
}

#[test]
fn unknown_verb_is_echoed() {
    let mut m = Metrics::with_capacity(2);
    m.push_rates(Rate { count: 7, elapsed_ms: 3_000 }, Rate { count: 7, elapsed_ms: 3_000 });
    assert_eq!(reply(b"hello", &m), "unknown;hello");
    assert_eq!(reply(b"", &m), "unknown;");
    assert_eq!(reply("grüß".as_bytes(), &m), "unknown;grüß");
    assert_eq!(m.short_history().len(), 1);
}

#[test]
fn graph_asks_for_rendering() {
    let m = Metrics::new();
    assert_eq!(respond(b"graph", &m), Action::RenderGraph);
}

#[test]
fn graph_reply_success_and_failure() {
    assert_eq!(graph_reply(Some(b"tps-1h.png")), b"graph;tps-1h.png".to_vec());
    assert_eq!(graph_reply(None), b"error;graph".to_vec());
}
