use vstd::prelude::*;

verus! {

/// A throughput sample: `count` arrivals over `elapsed_ms` milliseconds,
/// kept as the exact ratio rather than a rounded number.
#[derive(Clone, Copy, Debug, PartialEq, Eq, Structural)]
pub struct Rate {
    pub count: u64,
    pub elapsed_ms: u64,
}

impl Rate {
    /// Every sample the aggregator produces has a positive denominator.
    pub open spec fn wf(&self) -> bool {
        self.elapsed_ms > 0
    }

    /// The rate in hundredths of an arrival per second, rounded half up:
    /// `round(100 * 1000 * count / elapsed_ms)`.
    pub open spec fn hundredths_spec(&self) -> int {
        (200_000 * self.count + self.elapsed_ms) / (2 * self.elapsed_ms as int)
    }

    /// The rate written with two decimals, as in `2.50`.
    pub fn to_text(&self) -> (t: Vec<u8>)
        requires
            self.wf(),
        ensures
            t@ == two_decimals(self.hundredths_spec() as nat),
    {
        let mut t: Vec<u8> = Vec::new();
        push_two_decimals(&mut t, self.hundredths());
        t
    }

    pub fn hundredths(&self) -> (h: u128)
        requires
            self.wf(),
        ensures
            h == self.hundredths_spec(),
    {
        let num: u128 = 200_000u128 * (self.count as u128) + (self.elapsed_ms as u128);
        num / (2u128 * (self.elapsed_ms as u128))
    }
}

/// The span a window's count is averaged over at `now_ms` of uptime: the
/// horizon, clamped to the uptime, and never below one millisecond.
pub open spec fn effective_elapsed(horizon_ms: u64, now_ms: u64) -> int {
    let e = if now_ms < horizon_ms { now_ms } else { horizon_ms };
    if e == 0 { 1 } else { e as int }
}

/// The rate of `count` arrivals kept in a window of `horizon_ms`, with the
/// window clamped to the process uptime `now_ms`.
pub fn window_rate(count: usize, horizon_ms: u64, now_ms: u64) -> (r: Rate)
    ensures
        r.wf(),
        r.count == count,
        r.elapsed_ms == effective_elapsed(horizon_ms, now_ms),
{
    let e = if now_ms < horizon_ms { now_ms } else { horizon_ms };
    Rate { count: count as u64, elapsed_ms: if e == 0 { 1 } else { e } }
}

/// During the first horizon of uptime a window's rate is averaged over the
/// uptime itself, not over the horizon; afterwards over the horizon.
pub proof fn lemma_window_clamp(horizon_ms: u64, now_ms: u64)
    requires
        0 < now_ms,
    ensures
        now_ms < horizon_ms ==> effective_elapsed(horizon_ms, now_ms) == now_ms,
        now_ms >= horizon_ms && horizon_ms > 0 ==> effective_elapsed(horizon_ms, now_ms)
            == horizon_ms,
        effective_elapsed(horizon_ms, now_ms) <= now_ms,
{
}

/// ASCII digit for `d < 10`.
pub open spec fn digit(d: int) -> u8 {
    (48 + d) as u8
}

/// Decimal notation of `n`, without leading zeros.
pub open spec fn decimal(n: nat) -> Seq<u8>
    decreases n,
{
    if n < 10 {
        seq![digit(n as int)]
    } else {
        decimal(n / 10).push(digit((n % 10) as int))
    }
}

/// `v` hundredths written with two decimals: `decimal(v / 100) "." d d`.
pub open spec fn two_decimals(v: nat) -> Seq<u8> {
    decimal(v / 100) + seq![46u8, digit(((v / 10) % 10) as int), digit((v % 10) as int)]
}

fn push_decimal(out: &mut Vec<u8>, n: u128)
    ensures
        final(out)@ == old(out)@ + decimal(n as nat),
    decreases n,
{
    if n >= 10 {
        push_decimal(out, n / 10);
    }
    out.push(48u8 + (n % 10) as u8);
    proof {
        assert(out@ =~= old(out)@ + decimal(n as nat));
    }
}

/// Appends `v` hundredths written with two decimals, as in `12.50`.
pub fn push_two_decimals(out: &mut Vec<u8>, v: u128)
    ensures
        final(out)@ == old(out)@ + two_decimals(v as nat),
{
    push_decimal(out, v / 100);
    out.push(46u8);
    out.push(48u8 + ((v / 10) % 10) as u8);
    out.push(48u8 + (v % 10) as u8);
    proof {
        assert(out@ =~= old(out)@ + two_decimals(v as nat));
    }
}

} // verus!
