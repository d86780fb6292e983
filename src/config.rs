use vstd::prelude::*;

verus! {

pub const APP_NAME: &'static str = "ictmon";

pub const APP_VERSION: &'static str = "v0.2.0-alpha";

/// Pause between the first connections and the first aggregation.
pub const INITIAL_SLEEP_MS: u64 = 1000;

pub const STDOUT_UPDATE_INTERVAL_MS: u64 = 1000;

pub const SUB_POLLER_INTERVAL_MS: u64 = 10;

pub const TPS_UPDATE_INTERVAL_MS: u64 = 1000;

pub const MOVING_AVG_INTERVAL1_MS: u64 = 60_000;

pub const MOVING_AVG_INTERVAL2_MS: u64 = 600_000;

/// Samples kept per window: one hour of one-second samples.
pub const METRICS_HISTORY: usize = 3600;

pub const DEFAULT_NAME: &'static str = "ict-0";

pub const DEFAULT_HOST: &'static str = "localhost";

pub const DEFAULT_IXI_PORT: u16 = 5561;

pub const DEFAULT_API_PORT: u16 = 5562;

pub const DEFAULT_TOPIC: &'static str = "in";

pub const ICT_LIST_FILE: &'static str = "icts.txt";

/// Process-wide intervals, horizons and capacity, fixed once at startup.
#[derive(Clone, Copy, Debug, PartialEq, Eq, Structural)]
pub struct Config {
    pub initial_sleep_ms: u64,
    pub stdout_interval_ms: u64,
    pub poll_interval_ms: u64,
    pub tps_interval_ms: u64,
    pub short_horizon_ms: u64,
    pub long_horizon_ms: u64,
}

impl Config {
    /// The standard setting: one-minute and ten-minute windows recomputed
    /// every second, arrivals polled every ten milliseconds.
    pub fn standard() -> (c: Self)
        ensures
            c.initial_sleep_ms == INITIAL_SLEEP_MS,
            c.stdout_interval_ms == STDOUT_UPDATE_INTERVAL_MS,
            c.poll_interval_ms == SUB_POLLER_INTERVAL_MS,
            c.tps_interval_ms == TPS_UPDATE_INTERVAL_MS,
            c.short_horizon_ms == MOVING_AVG_INTERVAL1_MS,
            c.long_horizon_ms == MOVING_AVG_INTERVAL2_MS,
    {
        Config {
            initial_sleep_ms: INITIAL_SLEEP_MS,
            stdout_interval_ms: STDOUT_UPDATE_INTERVAL_MS,
            poll_interval_ms: SUB_POLLER_INTERVAL_MS,
            tps_interval_ms: TPS_UPDATE_INTERVAL_MS,
            short_horizon_ms: MOVING_AVG_INTERVAL1_MS,
            long_horizon_ms: MOVING_AVG_INTERVAL2_MS,
        }
    }
}

} // verus!
