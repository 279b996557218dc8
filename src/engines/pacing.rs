use vstd::prelude::*;

verus! {

/// Shortest gap, in milliseconds, kept between two requests.
pub const MIN_REQUEST_GAP_MS: u64 = 2000;

/// Gap, in milliseconds, after which a request may go out at once.
pub const MAX_REQUEST_GAP_MS: u64 = 5000;

/// Least extra wait, in milliseconds, added when the last request was too recent.
pub const MIN_EXTRA_MS: u64 = 100;

/// Bound (excluded), in milliseconds, of the extra wait added when the last request was too
/// recent.
pub const MAX_EXTRA_MS: u64 = 500;

/// Relies on rand: `random_range` over a non-empty half-open range returns a value in it.
#[verifier::external_body]
fn random_in(low: u64, high: u64) -> (r: u64)
    requires
        low < high,
    ensures
        low <= r < high,
{
    rand::random_range(low..high)
}

/// Milliseconds from `last` to `now`; zero where the clock reads earlier than `last`.
pub open spec fn elapsed_ms(last: u64, now: u64) -> int {
    if now >= last {
        now - last
    } else {
        0
    }
}

/// `delay` is a wait that may come before a request sent at `now`, after one sent at `last`:
/// none after a first request or a long pause, the rest of the shortest gap plus a jitter
/// after a recent one, else a jitter below the rest of the long gap.
pub open spec fn delay_allowed(last: Option<u64>, now: u64, delay: u64) -> bool {
    match last {
        None => delay == 0,
        Some(t) => {
            let e = elapsed_ms(t, now);
            if e >= MAX_REQUEST_GAP_MS {
                delay == 0
            } else if e < MIN_REQUEST_GAP_MS {
                MIN_REQUEST_GAP_MS - e + MIN_EXTRA_MS <= delay < MIN_REQUEST_GAP_MS - e
                    + MAX_EXTRA_MS
            } else {
                delay < MAX_REQUEST_GAP_MS - e
            }
        },
    }
}

/// Spaces out the requests of one engine by randomised waits.
pub struct RateLimiter {
    last_request_ms: Option<u64>,
}

impl RateLimiter {
    /// When the last request went out, in milliseconds of the caller's clock.
    pub closed spec fn last_request(&self) -> Option<u64> {
        self.last_request_ms
    }

    /// A limiter before any request.
    pub fn new() -> (r: RateLimiter)
        ensures
            r.last_request() is None,
    {
        RateLimiter { last_request_ms: None }
    }

    /// The wait, in milliseconds, before a request that would go out at `now_ms`; records
    /// the moment after that wait as the last request.
    pub fn delay_before_next(&mut self, now_ms: u64) -> (delay: u64)
        requires
            now_ms <= u64::MAX - MAX_REQUEST_GAP_MS,
        ensures
            delay_allowed(old(self).last_request(), now_ms, delay),
            final(self).last_request() == Some((now_ms + delay) as u64),
    {
        let delay = match self.last_request_ms {
            None => 0,
            Some(t) => {
                let e = if now_ms >= t {
                    now_ms - t
                } else {
                    0
                };
                if e >= MAX_REQUEST_GAP_MS {
                    0
                } else if e < MIN_REQUEST_GAP_MS {
                    MIN_REQUEST_GAP_MS - e + random_in(MIN_EXTRA_MS, MAX_EXTRA_MS)
                } else {
                    random_in(0, MAX_REQUEST_GAP_MS - e)
                }
            },
        };
        self.last_request_ms = Some(now_ms + delay);
        delay
    }
}

/// Two requests paced by the limiter go out at least the shortest gap apart: where the last
/// request went out at `last`, and the next one is planned at `now` (not earlier) with a
/// wait that the limiter allows, it leaves at least `MIN_REQUEST_GAP_MS` after `last`.
pub proof fn lemma_request_gap(last: u64, now: u64, delay: u64)
    requires
        last <= now,
        delay_allowed(Some(last), now, delay),
    ensures
        now + delay >= last + MIN_REQUEST_GAP_MS,
{
}

} // verus!
