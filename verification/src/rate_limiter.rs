//! Pacing gate that spaces upstream calls by a minimum interval.
//!
//! The upstream provider enforces a transactions-per-second ceiling. One
//! shared `RateLimiter` value keeps the last dispatch time; before each call
//! the caller asks the limiter for a dispatch time, sleeps until then, and the
//! limiter keeps that time as the newest dispatch. The gap between any two
//! successive dispatches granted by one gate is at least the interval.
//!
//! The limiter itself is pure state over millisecond timestamps. Waiting (the
//! actual sleep) is performed by the caller that owns the clock.

use vstd::prelude::*;

verus! {

/// Shared pacing state for one upstream endpoint class.
pub struct RateLimiter {
    /// Dispatch time granted to the latest admitted call, if any.
    pub last_request: Option<u64>,
    /// Minimum gap between successive dispatches, in milliseconds.
    pub interval_ms: u64,
}

/// The dispatch time the limiter assigns to a call arriving at `now`: the later
/// of the arrival time and one interval past the previous dispatch. A
/// previous dispatch so late that one more interval exceeds the clock's range
/// saturates at `u64::MAX`.
pub open spec fn spec_next_dispatch(last: Option<u64>, interval: u64, now: u64) -> u64 {
    match last {
        None => now,
        Some(t) => {
            let earliest = if t + interval <= u64::MAX { (t + interval) as u64 } else { u64::MAX };
            if earliest > now {
                earliest
            } else {
                now
            }
        }
    }
}

impl RateLimiter {
    /// Create a pacing gate for the given transactions-per-second ceiling.
    /// The interval between dispatches is `1000 / tps` milliseconds.
    pub fn new(tps: u32) -> (limiter: RateLimiter)
        requires
            tps >= 1,
        ensures
            limiter.interval_ms == 1000int / (tps as int),
            limiter.last_request is None,
    {
        let interval_ms: u64 = 1000 / (tps as u64);
        RateLimiter { last_request: None, interval_ms }
    }

    /// The configured interval in milliseconds.
    pub fn interval_ms(&self) -> (ms: u64)
        ensures
            ms == self.interval_ms,
    {
        self.interval_ms
    }

    /// Admit one call: given the current clock, return the time at which the
    /// call may dispatch and record that time as the new last dispatch. The
    /// returned time is never before `now`, and never less than one interval
    /// after the previously recorded dispatch; the caller sleeps until it.
    pub fn reserve(&mut self, now_ms: u64) -> (dispatch_at: u64)
        ensures
            final(self).interval_ms == old(self).interval_ms,
            final(self).last_request == Some(dispatch_at),
            dispatch_at == spec_next_dispatch(
                old(self).last_request,
                old(self).interval_ms,
                now_ms,
            ),
            dispatch_at >= now_ms,
            old(self).last_request matches Some(last)
                ==> (last + old(self).interval_ms <= u64::MAX
                    ==> dispatch_at >= last + old(self).interval_ms),
    {
        let dispatch_at: u64 = match self.last_request {
            Some(last) => {
                let earliest = match last.checked_add(self.interval_ms) {
                    Some(e) => e,
                    None => u64::MAX,
                };
                if earliest > now_ms {
                    earliest
                } else {
                    now_ms
                }
            }
            None => now_ms,
        };
        self.last_request = Some(dispatch_at);
        dispatch_at
    }
}

/// Dispatch times produced by a gate that admits calls at the given arrival
/// times, starting from a fresh gate, in ideal (unbounded) arithmetic: each
/// dispatch is the later of the arrival and one interval past the previous
/// dispatch.
pub open spec fn spec_dispatch_times(arrivals: Seq<u64>, interval: u64) -> Seq<int>
    decreases arrivals.len(),
{
    if arrivals.len() == 0 {
        Seq::empty()
    } else {
        let prefix = spec_dispatch_times(arrivals.drop_last(), interval);
        let arrival = arrivals.last() as int;
        if prefix.len() == 0 {
            prefix.push(arrival)
        } else if prefix.last() + interval > arrival {
            prefix.push(prefix.last() + interval)
        } else {
            prefix.push(arrival)
        }
    }
}

/// There is one dispatch time per arrival.
pub proof fn lemma_dispatch_times_len(arrivals: Seq<u64>, interval: u64)
    ensures
        spec_dispatch_times(arrivals, interval).len() == arrivals.len(),
    decreases arrivals.len(),
{
    if arrivals.len() > 0 {
        lemma_dispatch_times_len(arrivals.drop_last(), interval);
    }
}

/// Successive dispatches are spaced by at least one interval.
proof fn lemma_dispatch_spacing(arrivals: Seq<u64>, interval: u64, i: int)
    requires
        0 <= i < arrivals.len() - 1,
    ensures
        spec_dispatch_times(arrivals, interval)[i] + interval
            <= spec_dispatch_times(arrivals, interval)[i + 1],
    decreases arrivals.len(),
{
    lemma_dispatch_times_len(arrivals, interval);
    lemma_dispatch_times_len(arrivals.drop_last(), interval);
    if i + 2 == arrivals.len() {
        assert(spec_dispatch_times(arrivals, interval)[i]
            == spec_dispatch_times(arrivals.drop_last(), interval).last());
    } else {
        lemma_dispatch_spacing(arrivals.drop_last(), interval, i);
        assert(spec_dispatch_times(arrivals, interval)[i]
            == spec_dispatch_times(arrivals.drop_last(), interval)[i]);
        assert(spec_dispatch_times(arrivals, interval)[i + 1]
            == spec_dispatch_times(arrivals.drop_last(), interval)[i + 1]);
    }
}

/// Law: calls admitted through one pacing gate are spaced by at least the
/// interval, so of any two calls the later one dispatches at least
/// `(j - i) * interval` milliseconds after the earlier. With interval
/// `1000 / tps`, `n` sequential calls therefore take at least
/// `(n - 1) * 1000 / tps` milliseconds of wall time.
pub proof fn lemma_rate_limit_spacing(arrivals: Seq<u64>, interval: u64, i: int, j: int)
    requires
        0 <= i <= j < arrivals.len(),
    ensures
        spec_dispatch_times(arrivals, interval)[j]
            >= spec_dispatch_times(arrivals, interval)[i] + (j - i) * interval,
    decreases j - i,
{
    lemma_dispatch_times_len(arrivals, interval);
    let times = spec_dispatch_times(arrivals, interval);
    if i < j {
        lemma_rate_limit_spacing(arrivals, interval, i, j - 1);
        lemma_dispatch_spacing(arrivals, interval, j - 1);
        assert(times[j - 1] >= times[i] + (j - 1 - i) * interval);
        assert(times[j] >= times[j - 1] + interval);
        assert((j - i) * interval == (j - 1 - i) * interval + interval) by (nonlinear_arith);
    } else {
        assert((j - i) * interval == 0) by (nonlinear_arith)
            requires i == j;
    }
}

/// Within the clock's range, one `reserve` computes exactly the model's
/// step: the later of the arrival time and one interval past the previous
/// dispatch.
pub proof fn lemma_reserve_follows_model(last: u64, interval: u64, now: u64)
    requires
        last + interval <= u64::MAX,
    ensures
        spec_next_dispatch(Some(last), interval, now) as int == if last + interval > now {
            last + interval
        } else {
            now as int
        },
{
}

} // verus!
