//! Concurrency gate: bounds the number of dispatches in flight at once so a
//! slow endpoint cannot cause unbounded resource growth. `Gate` only limits
//! parallelism; it never reorders requests.

use vstd::prelude::*;

verus! {

/// The hard upper cap on any gate's bound.
pub const GATE_CAP: u32 = 1024;

/// The default in-flight bound for a scenario: enough to absorb about two
/// seconds of latency at the target rate, capped at `GATE_CAP`, never zero.
pub open spec fn spec_default_limit(rate: u32) -> int {
    if 2 * rate < 1 {
        1
    } else if 2 * rate > GATE_CAP {
        GATE_CAP as int
    } else {
        2 * rate
    }
}

pub fn default_limit(rate: u32) -> (r: u32)
    ensures
        r == spec_default_limit(rate),
        1 <= r <= GATE_CAP,
{
    if rate == 0 {
        1
    } else if rate > GATE_CAP / 2 {
        GATE_CAP
    } else {
        2 * rate
    }
}

/// Counts acquired-but-not-released permits against a fixed bound.
pub struct Gate {
    pub limit: u32,
    pub in_flight: u32,
}

impl Gate {
    /// `Gate`'s invariant: the count of acquired-but-not-released permits
    /// never exceeds the configured bound.
    pub open spec fn wf(self) -> bool {
        &&& self.limit >= 1
        &&& self.in_flight <= self.limit
    }

    pub fn new(limit: u32) -> (g: Gate)
        requires
            limit >= 1,
        ensures
            g.wf(),
            g.limit == limit,
            g.in_flight == 0,
    {
        Gate { limit, in_flight: 0 }
    }

    /// Admits one dispatch if and only if the bound is not saturated.
    pub fn try_acquire(&mut self) -> (admitted: bool)
        requires
            old(self).wf(),
        ensures
            final(self).wf(),
            final(self).limit == old(self).limit,
            admitted == (old(self).in_flight < old(self).limit),
            admitted ==> final(self).in_flight == old(self).in_flight + 1,
            !admitted ==> final(self).in_flight == old(self).in_flight,
    {
        if self.in_flight < self.limit {
            self.in_flight = self.in_flight + 1;
            true
        } else {
            false
        }
    }

    /// Returns one permit; always succeeds and never blocks.
    pub fn release(&mut self)
        requires
            old(self).wf(),
            old(self).in_flight >= 1,
        ensures
            final(self).wf(),
            final(self).limit == old(self).limit,
            final(self).in_flight == old(self).in_flight - 1,
    {
        self.in_flight = self.in_flight - 1;
    }
}

/// `Gate` never admits more than its configured bound of simultaneous
/// in-flight dispatches: in any well-formed state the in-flight count is at
/// most the bound, and `try_acquire` admits only strictly below it.
pub proof fn lemma_gate_bound(g: Gate)
    requires
        g.wf(),
    ensures
        g.in_flight <= g.limit,
{
}

} // verus!
