//! Bounded waits: a deadline polled at a fixed interval, so that no wait on
//! the relay service blocks for ever.
use vstd::prelude::*;

verus! {

/// Time between two polls of a pending condition, in milliseconds.
pub const POLL_INTERVAL_MS: u64 = 100;

/// How long a caller waits for the relay connection, in milliseconds.
pub const CONNECT_WAIT_MS: u64 = 5000;

/// How long an abbreviation query collects answers, in milliseconds.
pub const QUERY_WAIT_MS: u64 = 10000;

/// What to do after a poll that found the condition still pending.
#[derive(Debug, Clone, Copy, PartialEq, Eq, Structural)]
pub enum WaitStep {
    /// Sleep this many milliseconds, then poll again.
    Sleep(u64),
    /// The deadline has passed: give up.
    Expired,
}

/// A wait with a deadline, counted in the time spent sleeping.
#[derive(Debug, Clone, Copy, PartialEq, Eq, Structural)]
pub struct Deadline {
    pub elapsed_ms: u64,
    pub limit_ms: u64,
    pub interval_ms: u64,
}

impl Deadline {
    /// A positive interval, and no more time spent than the limit.
    pub open spec fn wf(self) -> bool {
        self.interval_ms > 0 && self.elapsed_ms <= self.limit_ms
    }

    /// The time still left before the deadline.
    pub open spec fn remaining(self) -> nat {
        (self.limit_ms - self.elapsed_ms) as nat
    }

    /// The deadline after one more empty poll.
    pub open spec fn after_empty_poll(self) -> Deadline {
        if self.elapsed_ms >= self.limit_ms {
            self
        } else if self.limit_ms - self.elapsed_ms < self.interval_ms {
            Deadline { elapsed_ms: self.limit_ms, ..self }
        } else {
            Deadline { elapsed_ms: (self.elapsed_ms + self.interval_ms) as u64, ..self }
        }
    }

    /// The wait for a relay connection, before any poll.
    pub open spec fn connect_spec() -> Deadline {
        Deadline { elapsed_ms: 0, limit_ms: CONNECT_WAIT_MS, interval_ms: POLL_INTERVAL_MS }
    }

    /// The wait for answers to an abbreviation query, before any poll.
    pub open spec fn query_spec() -> Deadline {
        Deadline { elapsed_ms: 0, limit_ms: QUERY_WAIT_MS, interval_ms: POLL_INTERVAL_MS }
    }

    /// A fresh wait of `limit_ms`, polled every `interval_ms`.
    pub fn new(limit_ms: u64, interval_ms: u64) -> (d: Deadline)
        requires
            interval_ms > 0,
        ensures
            d.wf(),
            d == (Deadline { elapsed_ms: 0, limit_ms, interval_ms }),
    {
        Deadline { elapsed_ms: 0, limit_ms, interval_ms }
    }

    /// The wait for a relay connection.
    pub fn connect() -> (d: Deadline)
        ensures
            d.wf(),
            d == Deadline::connect_spec(),
    {
        Deadline::new(CONNECT_WAIT_MS, POLL_INTERVAL_MS)
    }

    /// The wait for answers to an abbreviation query.
    pub fn query() -> (d: Deadline)
        ensures
            d.wf(),
            d == Deadline::query_spec(),
    {
        Deadline::new(QUERY_WAIT_MS, POLL_INTERVAL_MS)
    }

    /// Whether the deadline has passed.
    pub fn is_expired(&self) -> (r: bool)
        ensures
            r == (self.elapsed_ms >= self.limit_ms),
    {
        self.elapsed_ms >= self.limit_ms
    }

    /// Accounts for a poll that found the condition still pending: once the
    /// limit is reached the wait expires; before that the caller sleeps one
    /// interval (less, where the limit comes sooner), and the time left
    /// shrinks, so the wait always ends.
    pub fn on_empty_poll(&mut self) -> (r: WaitStep)
        requires
            old(self).wf(),
        ensures
            final(self).wf(),
            *final(self) == old(self).after_empty_poll(),
            old(self).elapsed_ms >= old(self).limit_ms <==> r == WaitStep::Expired,
            r matches WaitStep::Sleep(ms) ==> ms == final(self).elapsed_ms - old(self).elapsed_ms
                && 0 < ms <= old(self).interval_ms && final(self).remaining() < old(self).remaining(),
    {
        if self.elapsed_ms >= self.limit_ms {
            WaitStep::Expired
        } else if self.limit_ms - self.elapsed_ms < self.interval_ms {
            let ms = self.limit_ms - self.elapsed_ms;
            self.elapsed_ms = self.limit_ms;
            WaitStep::Sleep(ms)
        } else {
            self.elapsed_ms = self.elapsed_ms + self.interval_ms;
            WaitStep::Sleep(self.interval_ms)
        }
    }
}

/// The deadline after `k` empty polls.
pub open spec fn after_polls(d: Deadline, k: nat) -> Deadline
    decreases k,
{
    if k == 0 {
        d
    } else {
        after_polls(d, (k - 1) as nat).after_empty_poll()
    }
}

/// A wait never outlasts its limit: after as many empty polls as the limit
/// holds intervals, rounded up, the deadline has passed, so the next empty
/// poll expires instead of sleeping.
pub proof fn lemma_wait_is_bounded(d: Deadline, k: nat)
    requires
        d.wf(),
        d.elapsed_ms == 0,
        k * d.interval_ms >= d.limit_ms,
    ensures
        after_polls(d, k).wf(),
        after_polls(d, k).elapsed_ms == d.limit_ms,
{
    lemma_polls_progress(d, k);
}

/// After `k` empty polls from the start, the time spent is `k` intervals,
/// or the whole limit once that is less.
proof fn lemma_polls_progress(d: Deadline, k: nat)
    requires
        d.wf(),
        d.elapsed_ms == 0,
    ensures
        after_polls(d, k).wf(),
        after_polls(d, k).limit_ms == d.limit_ms,
        after_polls(d, k).interval_ms == d.interval_ms,
        after_polls(d, k).elapsed_ms == if k * d.interval_ms >= d.limit_ms {
            d.limit_ms as int
        } else {
            k * d.interval_ms
        },
    decreases k,
{
    if k > 0 {
        lemma_polls_progress(d, (k - 1) as nat);
        assert((k - 1) * d.interval_ms + d.interval_ms == k * d.interval_ms) by (nonlinear_arith);
        assert((k - 1) * d.interval_ms <= k * d.interval_ms) by (nonlinear_arith)
            requires d.interval_ms > 0, k > 0;
    }
}

} // verus!
