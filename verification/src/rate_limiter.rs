//! A fixed-window request counter: at most `max_requests` admissions per
//! window of `window` seconds.
//!
//! The window boundary is strict: a request at exactly
//! `start_time + window` still belongs to the old window; only a request
//! strictly later resets it.

use vstd::prelude::*;

verus! {

/// Fixed-window rate limiter state.
#[derive(Debug, Clone)]
pub struct RateLimiter {
    pub max_requests: u32,
    pub window: u64,
    pub requests: u32,
    pub start_time: u64,
}

impl RateLimiter {
    /// The counter is never past its budget.
    pub open spec fn spec_wf(self) -> bool {
        self.requests <= self.max_requests
    }

    /// A request at `now` opens a new window iff `now` lies strictly after
    /// the current window's end.
    pub open spec fn spec_resets(self, now: u64) -> bool {
        now - self.start_time > self.window
    }

    /// The count a request at `now` is judged against: zero if the request
    /// opens a new window, the running count otherwise.
    pub open spec fn spec_count_before(self, now: u64) -> u32 {
        if self.spec_resets(now) {
            0
        } else {
            self.requests
        }
    }

    /// A request at `now` is admitted iff the count it is judged against is
    /// still below the budget.
    pub open spec fn spec_admits(self, now: u64) -> bool {
        self.spec_count_before(now) < self.max_requests
    }

    /// The limiter state after a request at `now`: the window start is
    /// advanced on a reset, and the count is incremented exactly when the
    /// request is admitted.
    pub open spec fn spec_stepped(self, now: u64) -> RateLimiter {
        RateLimiter {
            max_requests: self.max_requests,
            window: self.window,
            requests: if self.spec_admits(now) {
                (self.spec_count_before(now) + 1) as u32
            } else {
                self.spec_count_before(now)
            },
            start_time: if self.spec_resets(now) {
                now
            } else {
                self.start_time
            },
        }
    }

    /// A limiter whose window opens at `now`, with no requests counted yet.
    pub fn new_at(max_requests: u32, window: u64, now: u64) -> (r: RateLimiter)
        ensures
            r.max_requests == max_requests,
            r.window == window,
            r.requests == 0,
            r.start_time == now,
            r.spec_wf(),
    {
        RateLimiter { max_requests, window, requests: 0, start_time: now }
    }

    /// A limiter whose window opens at the current system time.
    pub fn new(max_requests: u32, window: u64) -> (r: RateLimiter)
        ensures
            r.max_requests == max_requests,
            r.window == window,
            r.requests == 0,
            r.spec_wf(),
    {
        let now = crate::clock::now_seconds();
        RateLimiter::new_at(max_requests, window, now)
    }

    /// Judges one request arriving at `now`: resets the window if `now`
    /// lies strictly past it, then admits the request iff the count is
    /// below the budget, counting it when admitted. The budget is never
    /// exceeded, and the window start never moves backwards.
    pub fn is_within_limit_at(&mut self, now: u64) -> (r: bool)
        ensures
            r == old(self).spec_admits(now),
            *final(self) == old(self).spec_stepped(now),
            old(self).spec_wf() ==> final(self).spec_wf(),
            final(self).start_time >= old(self).start_time,
    {
        if now > self.start_time && now - self.start_time > self.window {
            self.start_time = now;
            self.requests = 0;
        }
        if self.requests < self.max_requests {
            self.requests = self.requests + 1;
            true
        } else {
            false
        }
    }

    /// Judges one request against the current system time. Whatever the
    /// clock read, the step is one the limiter can take at some instant,
    /// the budget is never exceeded and the window start never moves
    /// backwards.
    pub fn is_within_limit(&mut self) -> (r: bool)
        ensures
            exists|now: u64|
                r == old(self).spec_admits(now) && *final(self) == old(self).spec_stepped(now),
            final(self).max_requests == old(self).max_requests,
            final(self).window == old(self).window,
            old(self).spec_wf() ==> final(self).spec_wf(),
            final(self).start_time >= old(self).start_time,
    {
        let now = crate::clock::now_seconds();
        self.is_within_limit_at(now)
    }
}

} // verus!
