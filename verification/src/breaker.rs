//! Sliding-window error-rate guard for the watch loop.
//!
//! The breaker has two observable states, normal and tripped; tripped is
//! terminal: the caller aborts the watch loop with a fatal error as soon as
//! `evaluate` reports it. Errors accumulate in a counter; once per loop
//! iteration the counter is held against the window. If the count reaches the
//! limit while the window is still open the breaker trips; if the window has
//! elapsed (and the breaker did not trip) the counter is reset and the window
//! restarts at the current time.

use vstd::prelude::*;

verus! {

/// Number of errors that trips the breaker while the window is open.
pub const ERROR_LIMIT: u64 = 20;

/// Length of the error window, in seconds.
pub const ERROR_TIME_LIMIT: u64 = 5;

/// Running error count together with the window it is counted in.
///
/// Time is carried by the caller as seconds of elapsed wall clock, measured
/// from any fixed origin; the breaker only ever compares differences.
pub struct ErrorBreaker {
    /// Errors recorded since the window started.
    pub error_count: u64,
    /// Time, in seconds, at which the current window started.
    pub window_start: u64,
    /// Count at which the breaker trips.
    pub error_limit: u64,
    /// Length of the window, in seconds.
    pub window_secs: u64,
}

impl ErrorBreaker {
    /// A fresh breaker: no errors yet, window starting now.
    pub fn new(error_limit: u64, window_secs: u64, now: u64) -> (r: ErrorBreaker)
        ensures
            r.error_count == 0,
            r.window_start == now,
            r.error_limit == error_limit,
            r.window_secs == window_secs,
    {
        ErrorBreaker { error_count: 0, window_start: now, error_limit, window_secs }
    }

    /// Record one more error against the current window.
    pub fn record_error(&mut self)
        requires
            old(self).error_count < u64::MAX,
        ensures
            final(self).error_count == old(self).error_count + 1,
            final(self).window_start == old(self).window_start,
            final(self).error_limit == old(self).error_limit,
            final(self).window_secs == old(self).window_secs,
    {
        self.error_count = self.error_count + 1;
    }

    /// Hold the counter against the window, once per loop iteration.
    ///
    /// Returns true exactly when the breaker trips: the count has reached the
    /// limit while the elapsed time is still within the window. Otherwise, if
    /// the window has elapsed, the count resets to zero and the window
    /// restarts at `now`; within a live window nothing changes. A true result
    /// is terminal: the caller must abort the loop.
    pub fn evaluate(&mut self, now: u64) -> (tripped: bool)
        requires
            now >= old(self).window_start,
        ensures
            tripped == (old(self).error_count >= old(self).error_limit
                && now - old(self).window_start <= old(self).window_secs),
            final(self).error_limit == old(self).error_limit,
            final(self).window_secs == old(self).window_secs,
            tripped ==> *final(self) == *old(self),
            (!tripped && now - old(self).window_start > old(self).window_secs) ==> {
                &&& final(self).error_count == 0
                &&& final(self).window_start == now
            },
            (!tripped && now - old(self).window_start <= old(self).window_secs)
                ==> *final(self) == *old(self),
    {
        let elapsed = now - self.window_start;
        if self.error_count >= self.error_limit && elapsed <= self.window_secs {
            true
        } else {
            if elapsed > self.window_secs {
                self.error_count = 0;
                self.window_start = now;
            }
            false
        }
    }
}

} // verus!
