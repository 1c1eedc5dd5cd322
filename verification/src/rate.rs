//! The console rate limiter: at most `limit` lines in each one-second window.
//!
//! The limiter never drops a line. It answers each attempt with `Emit` or
//! `Wait`; a caller that is told to wait pauses and asks again with a later
//! reading of its clock.

use vstd::prelude::*;
use crate::timestamp::NANOS_PER_SEC;

verus! {

/// The answer to one emission attempt.
#[derive(Clone, Copy, Debug, PartialEq, Eq, Structural)]
pub enum Throttle {
    /// The line may be written now; it has been counted.
    Emit,
    /// The window is full: pause briefly and ask again.
    Wait,
}

/// The pause, in milliseconds, between two attempts while the window is full.
pub const THROTTLE_PAUSE_MS: u64 = 10;

/// A counter of the lines emitted in the current window, and the window's start.
///
/// Times are readings of a monotonic clock in nanoseconds.
#[derive(Clone, Copy, Debug, PartialEq, Eq, Structural)]
pub struct RateLimiter {
    /// The most lines that one window admits.
    pub limit: usize,
    /// The lines admitted since the window started.
    pub count: usize,
    /// The clock reading at which the window started.
    pub window_start_ns: u64,
}

impl RateLimiter {
    /// The counter never passes the limit.
    pub open spec fn wf(self) -> bool {
        self.count <= self.limit
    }

    /// The time since the window started; zero for a reading before the start.
    pub open spec fn elapsed_ns(self, now_ns: u64) -> nat {
        if now_ns >= self.window_start_ns {
            (now_ns - self.window_start_ns) as nat
        } else {
            0
        }
    }

    /// Whether the window that started at `window_start_ns` is over at `now_ns`.
    pub open spec fn window_over(self, now_ns: u64) -> bool {
        self.elapsed_ns(now_ns) >= NANOS_PER_SEC
    }

    /// Whether an attempt at `now_ns` is admitted: there is room in the window,
    /// or the window is over and a new one can take the line.
    pub open spec fn admits(self, now_ns: u64) -> bool {
        self.count < self.limit || (self.window_over(now_ns) && self.limit > 0)
    }

    /// The limiter after an attempt at `now_ns`.
    pub open spec fn after(self, now_ns: u64) -> RateLimiter {
        if self.count < self.limit {
            RateLimiter { count: (self.count + 1) as usize, ..self }
        } else if self.window_over(now_ns) {
            RateLimiter {
                limit: self.limit,
                count: if self.limit > 0 { 1 } else { 0 },
                window_start_ns: now_ns,
            }
        } else {
            self
        }
    }

    /// A limiter with an empty window that starts at `now_ns`.
    pub fn new(limit: usize, now_ns: u64) -> (r: RateLimiter)
        ensures
            r == (RateLimiter { limit, count: 0, window_start_ns: now_ns }),
            r.wf(),
    {
        RateLimiter { limit, count: 0, window_start_ns: now_ns }
    }

    /// One emission attempt at clock reading `now_ns`.
    ///
    /// While the window has room the line is admitted and counted. When it is
    /// full and a second has passed since it started, a new window starts at
    /// `now_ns` and takes the line. Otherwise the answer is `Wait` and nothing
    /// changes.
    pub fn poll(&mut self, now_ns: u64) -> (r: Throttle)
        requires
            old(self).wf(),
        ensures
            r == Throttle::Emit <==> old(self).admits(now_ns),
            *final(self) == old(self).after(now_ns),
            r == Throttle::Wait && !old(self).window_over(now_ns) ==> *final(self) == *old(self),
            final(self).wf(),
            final(self).limit == old(self).limit,
    {
        if self.count >= self.limit {
            let over = now_ns >= self.window_start_ns && now_ns - self.window_start_ns
                >= NANOS_PER_SEC;
            if !over {
                return Throttle::Wait;
            }
            self.count = 0;
            self.window_start_ns = now_ns;
            if self.limit == 0 {
                return Throttle::Wait;
            }
        }
        self.count = self.count + 1;
        Throttle::Emit
    }
}

/// The number of attempts admitted when the limiter is asked once at each of
/// `times`, in order.
pub open spec fn admitted(limiter: RateLimiter, times: Seq<u64>) -> nat
    decreases times.len(),
{
    if times.len() == 0 {
        0
    } else {
        let here: nat = if limiter.admits(times[0]) { 1 } else { 0 };
        here + admitted(limiter.after(times[0]), times.subrange(1, times.len() as int))
    }
}

/// A burst inside one window: however many attempts are made before the
/// window is over, those admitted, together with what the window already held,
/// never pass the limit.
pub proof fn lemma_burst_within_limit(limiter: RateLimiter, times: Seq<u64>)
    requires
        limiter.wf(),
        forall|i: int| 0 <= i < times.len() ==> !limiter.window_over(#[trigger] times[i]),
    ensures
        limiter.count + admitted(limiter, times) <= limiter.limit,
        admitted(limiter, times) == if times.len() <= limiter.limit - limiter.count {
            times.len()
        } else {
            (limiter.limit - limiter.count) as nat
        },
    decreases times.len(),
{
    if times.len() > 0 {
        let rest = times.subrange(1, times.len() as int);
        let next = limiter.after(times[0]);
        assert(!limiter.window_over(times[0]));
        assert(next.window_start_ns == limiter.window_start_ns);
        assert forall|i: int| 0 <= i < rest.len() implies !next.window_over(#[trigger] rest[i]) by {
            assert(rest[i] == times[i + 1]);
        }
        lemma_burst_within_limit(next, rest);
    }
}

/// No line is dropped: an attempt that is told to wait leaves the limiter as
/// it was, and an attempt made once the window is over is admitted, whatever
/// the window held, as long as the limit is positive.
pub proof fn lemma_wait_then_emit(limiter: RateLimiter, early_ns: u64, late_ns: u64)
    requires
        limiter.wf(),
        limiter.limit > 0,
        !limiter.admits(early_ns),
        limiter.window_over(late_ns),
    ensures
        limiter.after(early_ns) == limiter,
        limiter.admits(late_ns),
        limiter.after(late_ns).count == 1,
        limiter.after(late_ns).window_start_ns == late_ns,
{
}

} // verus!
