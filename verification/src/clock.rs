//! Spans of time as the caller's clock measures them.

use vstd::prelude::*;

verus! {

/// A span of time: whole seconds and the nanoseconds beyond them.
#[derive(Clone, Copy, Debug, PartialEq, Eq, Structural)]
pub struct TimeSpan {
    pub secs: u64,
    pub nanos: u32,
}

impl TimeSpan {
    /// The nanoseconds stay below one second.
    pub open spec fn wf(self) -> bool {
        self.nanos < 1_000_000_000
    }

    /// The span in nanoseconds.
    pub open spec fn total_nanos(self) -> nat {
        (self.secs * 1_000_000_000 + self.nanos) as nat
    }

    /// Whether this span is at least as long as `limit`.
    pub open spec fn reached(self, limit: TimeSpan) -> bool {
        self.total_nanos() >= limit.total_nanos()
    }

    /// A span of `secs` seconds and `nanos` nanoseconds; `None` where
    /// `nanos` amounts to a second or more.
    pub fn new(secs: u64, nanos: u32) -> (r: Option<TimeSpan>)
        ensures
            r is Some <==> nanos < 1_000_000_000,
            r is Some ==> r == Some((TimeSpan { secs, nanos })) && r->0.wf(),
    {
        if nanos < 1_000_000_000 {
            Some(TimeSpan { secs, nanos })
        } else {
            None
        }
    }

    /// A span of whole seconds.
    pub fn from_secs(secs: u64) -> (r: TimeSpan)
        ensures
            r == (TimeSpan { secs, nanos: 0 }),
            r.wf(),
            r.total_nanos() == secs * 1_000_000_000,
    {
        TimeSpan { secs, nanos: 0 }
    }

    /// Tells whether this span is at least as long as `limit`.
    pub fn has_reached(&self, limit: &TimeSpan) -> (r: bool)
        requires
            self.wf(),
            limit.wf(),
        ensures
            r == self.reached(*limit),
    {
        self.secs > limit.secs || (self.secs == limit.secs && self.nanos >= limit.nanos)
    }

    /// The whole seconds of this span, the rest dropped.
    pub fn whole_seconds(&self) -> (r: u64)
        requires
            self.wf(),
        ensures
            r == self.total_nanos() / 1_000_000_000,
    {
        self.secs
    }
}

} // verus!
