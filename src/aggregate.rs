use vstd::prelude::*;

use crate::events::{expire, Events};
use crate::metrics::{bounded_push, Metrics};
use crate::rate::{effective_elapsed, window_rate, Rate};

verus! {

/// The sample a window yields at `now_ms` from the arrivals it kept.
pub open spec fn window_sample(kept: Seq<u64>, horizon_ms: u64, now_ms: u64) -> Rate {
    Rate { count: kept.len() as u64, elapsed_ms: effective_elapsed(horizon_ms, now_ms) as u64 }
}

/// One aggregation tick for one node at `now_ms` of uptime: each window
/// drops its expired arrivals, and the rate of what it kept, over the window
/// clamped to the uptime, is appended to that window's history.
pub fn update_tps(
    events: &mut Events,
    metrics: &mut Metrics,
    now_ms: u64,
    short_horizon_ms: u64,
    long_horizon_ms: u64,
)
    requires
        old(events).wf(),
        old(metrics).wf(),
    ensures
        final(events).wf(),
        final(metrics).wf(),
        final(metrics).cap() == old(metrics).cap(),
        final(events).short() == expire(old(events).short(), now_ms - short_horizon_ms),
        final(events).long() == expire(old(events).long(), now_ms - long_horizon_ms),
        final(metrics).short() == bounded_push(
            old(metrics).short(),
            old(metrics).cap(),
            window_sample(final(events).short(), short_horizon_ms, now_ms),
        ),
        final(metrics).long() == bounded_push(
            old(metrics).long(),
            old(metrics).cap(),
            window_sample(final(events).long(), long_horizon_ms, now_ms),
        ),
{
    events.evict_expired(now_ms, short_horizon_ms, long_horizon_ms);
    let short = window_rate(events.short_count(), short_horizon_ms, now_ms);
    let long = window_rate(events.long_count(), long_horizon_ms, now_ms);
    metrics.push_rates(short, long);
}

} // verus!
