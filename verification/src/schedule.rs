//! Rate scheduler: for one scenario, the finite sequence of issue slots that
//! realizes the target rate over the target duration. Pacing is open-loop:
//! slot `i` is due at `i / rate` seconds after the scenario's start,
//! regardless of how long earlier requests take to complete.

use vstd::arithmetic::div_mod::lemma_div_is_ordered;
use vstd::arithmetic::div_mod::lemma_fundamental_div_mod;
use vstd::arithmetic::div_mod::lemma_fundamental_div_mod_converse_div;
use vstd::arithmetic::mul::lemma_mul_inequality;
use vstd::arithmetic::mul::lemma_mul_is_distributive_add;
use vstd::arithmetic::mul::lemma_mul_is_distributive_add_other_way;
use vstd::prelude::*;

verus! {

/// Slot timestamps are in microseconds after the scenario's start.
pub const MICROS_PER_SEC: u64 = 1000000;

/// The target issue offset of slot `i`: slot `i` is due `i / rate` seconds
/// after the scenario's start, rounded down to whole microseconds.
pub open spec fn slot_offset_micros(i: int, rate: u32) -> int
    recommends
        rate >= 1,
{
    (i * MICROS_PER_SEC) / (rate as int)
}

/// Issue-slot timestamps never decrease as the slot index grows.
pub proof fn lemma_slot_monotone(i: int, j: int, rate: u32)
    requires
        rate >= 1,
        0 <= i <= j,
    ensures
        slot_offset_micros(i, rate) <= slot_offset_micros(j, rate),
{
    lemma_mul_inequality(i, j, MICROS_PER_SEC as int);
    lemma_div_is_ordered(i * (MICROS_PER_SEC as int), j * (MICROS_PER_SEC as int), rate as int);
}

/// Consecutive issue slots are spaced by `1 / rate` seconds: the gap between
/// slot `i` and slot `i + 1` is the microsecond floor of `1 / rate`, give or
/// take the one microsecond the rounding can move.
pub proof fn lemma_slot_spacing(i: int, rate: u32)
    requires
        rate >= 1,
        0 <= i,
    ensures
        slot_offset_micros(i + 1, rate) - slot_offset_micros(i, rate) >= (MICROS_PER_SEC as int)
            / (rate as int),
        slot_offset_micros(i + 1, rate) - slot_offset_micros(i, rate) <= (MICROS_PER_SEC as int)
            / (rate as int) + 1,
{
    let k: int = MICROS_PER_SEC as int;
    let d: int = rate as int;
    let a: int = i * k;
    lemma_mul_is_distributive_add_other_way(k, i, 1);
    assert((i + 1) * k == a + k);
    lemma_fundamental_div_mod(a, d);
    lemma_fundamental_div_mod(k, d);
    let q1: int = a / d;
    let m1: int = a % d;
    let qk: int = k / d;
    let mk: int = k % d;
    lemma_mul_is_distributive_add(d, q1, qk);
    assert(a + k == d * (q1 + qk) + (m1 + mk));
    if m1 + mk < d {
        lemma_fundamental_div_mod_converse_div(a + k, d, q1 + qk, m1 + mk);
        assert((a + k) / d == q1 + qk);
    } else {
        lemma_mul_is_distributive_add(d, q1 + qk, 1);
        assert(a + k == d * (q1 + qk + 1) + (m1 + mk - d));
        lemma_fundamental_div_mod_converse_div(a + k, d, q1 + qk + 1, m1 + mk - d);
        assert((a + k) / d == q1 + qk + 1);
    }
}

/// Emits the issue slots of one scenario in order: exactly
/// `total == rate * duration` of them, then end-of-schedule.
pub struct Schedule {
    pub rate: u32,
    pub total: u32,
    pub emitted: u32,
}

impl Schedule {
    pub open spec fn wf(self) -> bool {
        &&& self.rate >= 1
        &&& self.emitted <= self.total
    }

    /// A schedule for a validated scenario: `rate * duration` slots in all.
    pub fn new(rate: u32, duration: u32) -> (s: Schedule)
        requires
            rate >= 1,
            duration >= 1,
            rate * duration <= u32::MAX,
        ensures
            s.wf(),
            s.rate == rate,
            s.total == rate * duration,
            s.emitted == 0,
    {
        Schedule { rate, total: rate * duration, emitted: 0 }
    }

    /// Releases the next issue slot: its target timestamp in microseconds
    /// after the scenario's start, or `None` once all `total` slots are out.
    /// The scheduler never waits on completions, so emitting a slot depends
    /// only on how many were emitted before it.
    pub fn next_slot(&mut self) -> (r: Option<u64>)
        requires
            old(self).wf(),
        ensures
            final(self).wf(),
            final(self).rate == old(self).rate,
            final(self).total == old(self).total,
            old(self).emitted < old(self).total ==> {
                &&& final(self).emitted == old(self).emitted + 1
                &&& r == Some(
                    slot_offset_micros(old(self).emitted as int, old(self).rate) as u64,
                )
            },
            old(self).emitted >= old(self).total ==> {
                &&& r is None
                &&& final(self).emitted == old(self).emitted
            },
    {
        if self.emitted < self.total {
            let i: u64 = self.emitted as u64;
            let t: u64 = (i * MICROS_PER_SEC) / (self.rate as u64);
            self.emitted = self.emitted + 1;
            Some(t)
        } else {
            None
        }
    }
}

} // verus!
