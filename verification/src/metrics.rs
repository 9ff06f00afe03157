//! Metrics aggregator: the per-scenario accumulator of counts and latency
//! statistics, finalized into an immutable `ScenarioResult` once the
//! scenario's run completes and drains.

use vstd::arithmetic::div_mod::lemma_div_is_ordered;
use vstd::arithmetic::div_mod::lemma_div_multiples_vanish;
use vstd::prelude::*;

verus! {

/// The finalized, immutable statistics of one scenario's run. Latencies are
/// in milliseconds; the average is the floor of mean successful latency.
#[derive(Clone, Debug)]
pub struct ScenarioResult {
    pub name: String,
    pub requests_sent: u32,
    pub successful_requests: u32,
    pub failed_requests: u32,
    pub avg_response_time: u32,
    pub max_response_time: u32,
    pub min_response_time: u32,
}

impl ScenarioResult {
    /// Every outcome is counted exactly once, and a run with no successful
    /// request reports zero latency statistics rather than an undefined value.
    pub open spec fn wf(self) -> bool {
        &&& self.requests_sent == self.successful_requests + self.failed_requests
        &&& self.successful_requests == 0 ==> self.avg_response_time == 0
            && self.min_response_time == 0 && self.max_response_time == 0
        &&& self.successful_requests > 0 ==> self.min_response_time <= self.max_response_time
            && self.avg_response_time <= self.max_response_time
            && self.min_response_time <= self.avg_response_time
    }
}

/// Folds request outcomes into running counts and latency statistics.
/// The fold is a sum/min/max/count, so outcomes may arrive in any order.
pub struct Aggregator {
    pub requests_sent: u32,
    pub successful_requests: u32,
    pub failed_requests: u32,
    pub total_latency_ms: u64,
    pub min_latency_ms: u32,
    pub max_latency_ms: u32,
}

impl Aggregator {
    /// The accumulator's invariant: counts balance, the latency sum is
    /// bounded by the success count, and zero successes means all latency
    /// accumulators are still zero (the documented special case, not an
    /// artifact of uninitialized state).
    pub open spec fn wf(self) -> bool {
        &&& self.requests_sent == self.successful_requests + self.failed_requests
        &&& self.successful_requests == 0 ==> self.total_latency_ms == 0
            && self.min_latency_ms == 0 && self.max_latency_ms == 0
        &&& self.successful_requests > 0 ==> self.min_latency_ms <= self.max_latency_ms
        &&& self.total_latency_ms <= self.successful_requests * u32::MAX
        &&& self.successful_requests > 0 ==> {
            &&& self.total_latency_ms >= self.successful_requests * self.min_latency_ms
            &&& self.total_latency_ms <= self.successful_requests * self.max_latency_ms
        }
    }

    pub fn new() -> (a: Aggregator)
        ensures
            a.wf(),
            a.requests_sent == 0,
            a.successful_requests == 0,
            a.failed_requests == 0,
    {
        Aggregator {
            requests_sent: 0,
            successful_requests: 0,
            failed_requests: 0,
            total_latency_ms: 0,
            min_latency_ms: 0,
            max_latency_ms: 0,
        }
    }

    /// The fold, as a value: what one recorded outcome does to the
    /// accumulator. `record` realizes exactly this function.
    pub open spec fn spec_record(a: Aggregator, success: bool, latency_ms: u32) -> Aggregator
        recommends
            a.wf(),
            a.requests_sent < u32::MAX,
    {
        if success {
            Aggregator {
                requests_sent: (a.requests_sent + 1) as u32,
                successful_requests: (a.successful_requests + 1) as u32,
                failed_requests: a.failed_requests,
                total_latency_ms: (a.total_latency_ms + latency_ms) as u64,
                min_latency_ms: if a.successful_requests == 0 {
                    latency_ms
                } else if latency_ms < a.min_latency_ms {
                    latency_ms
                } else {
                    a.min_latency_ms
                },
                max_latency_ms: if latency_ms > a.max_latency_ms {
                    latency_ms
                } else {
                    a.max_latency_ms
                },
            }
        } else {
            Aggregator {
                requests_sent: (a.requests_sent + 1) as u32,
                successful_requests: a.successful_requests,
                failed_requests: (a.failed_requests + 1) as u32,
                total_latency_ms: a.total_latency_ms,
                min_latency_ms: a.min_latency_ms,
                max_latency_ms: a.max_latency_ms,
            }
        }
    }

    /// Folds one request outcome in: counts it as sent, as successful or
    /// failed, and on success folds its latency into the sum, min and max.
    pub fn record(&mut self, success: bool, latency_ms: u32)
        requires
            old(self).wf(),
            old(self).requests_sent < u32::MAX,
        ensures
            *final(self) == Aggregator::spec_record(*old(self), success, latency_ms),
            final(self).wf(),
            final(self).requests_sent == old(self).requests_sent + 1,
            success ==> {
                &&& final(self).successful_requests == old(self).successful_requests + 1
                &&& final(self).failed_requests == old(self).failed_requests
                &&& final(self).total_latency_ms == old(self).total_latency_ms + latency_ms
                &&& final(self).min_latency_ms == (if old(self).successful_requests == 0 {
                    latency_ms
                } else if latency_ms < old(self).min_latency_ms {
                    latency_ms
                } else {
                    old(self).min_latency_ms
                })
                &&& final(self).max_latency_ms == (if latency_ms > old(self).max_latency_ms {
                    latency_ms
                } else {
                    old(self).max_latency_ms
                })
            },
            !success ==> {
                &&& final(self).failed_requests == old(self).failed_requests + 1
                &&& final(self).successful_requests == old(self).successful_requests
                &&& final(self).total_latency_ms == old(self).total_latency_ms
                &&& final(self).min_latency_ms == old(self).min_latency_ms
                &&& final(self).max_latency_ms == old(self).max_latency_ms
            },
    {
        self.requests_sent = self.requests_sent + 1;
        if success {
            let ghost ok0: int = self.successful_requests as int;
            let ghost min0: int = self.min_latency_ms as int;
            let ghost max0: int = self.max_latency_ms as int;
            let ghost sum0: int = self.total_latency_ms as int;
            proof {
                assert(sum0 + latency_ms <= (ok0 + 1) * (u32::MAX as int)) by (nonlinear_arith)
                    requires
                        sum0 <= ok0 * (u32::MAX as int),
                        latency_ms <= u32::MAX,
                        ok0 >= 0,
                ;
            }
            self.successful_requests = self.successful_requests + 1;
            self.total_latency_ms = self.total_latency_ms + latency_ms as u64;
            if self.successful_requests == 1 {
                self.min_latency_ms = latency_ms;
                self.max_latency_ms = latency_ms;
            } else {
                if latency_ms < self.min_latency_ms {
                    self.min_latency_ms = latency_ms;
                }
                if latency_ms > self.max_latency_ms {
                    self.max_latency_ms = latency_ms;
                }
            }
            proof {
                let ok1: int = ok0 + 1;
                let min1: int = self.min_latency_ms as int;
                let max1: int = self.max_latency_ms as int;
                let sum1: int = self.total_latency_ms as int;
                assert(sum1 >= ok1 * min1 && sum1 <= ok1 * max1) by (nonlinear_arith)
                    requires
                        sum1 == sum0 + latency_ms,
                        ok1 == ok0 + 1,
                        ok0 >= 0,
                        min1 <= latency_ms <= max1,
                        min1 >= 0,
                        ok0 > 0 ==> sum0 >= ok0 * min0 && sum0 <= ok0 * max0,
                        ok0 == 0 ==> sum0 == 0,
                        ok0 > 0 ==> min1 <= min0 && max1 >= max0,
                ;
                assert(sum1 <= ok1 * (u32::MAX as int)) by (nonlinear_arith)
                    requires
                        sum1 <= ok1 * max1,
                        max1 <= u32::MAX,
                        ok1 >= 1,
                ;
            }
        } else {
            self.failed_requests = self.failed_requests + 1;
        }
    }

    /// Finalizes the run into an immutable `ScenarioResult`. With zero
    /// successful requests the average, min and max are all reported as
    /// zero — an explicit special case, never a division by zero.
    pub fn finish(&self, name: String) -> (r: ScenarioResult)
        requires
            self.wf(),
        ensures
            r.wf(),
            r.name == name,
            r.requests_sent == self.requests_sent,
            r.successful_requests == self.successful_requests,
            r.failed_requests == self.failed_requests,
            r.min_response_time == self.min_latency_ms,
            r.max_response_time == self.max_latency_ms,
            self.successful_requests == 0 ==> r.avg_response_time == 0
                && r.min_response_time == 0 && r.max_response_time == 0,
            self.successful_requests > 0 ==> r.avg_response_time == self.total_latency_ms as int
                / self.successful_requests as int,
    {
        let avg: u32 = if self.successful_requests == 0 {
            0
        } else {
            let ok64: u64 = self.successful_requests as u64;
            proof {
                let sum: int = self.total_latency_ms as int;
                let ok: int = self.successful_requests as int;
                lemma_div_is_ordered(sum, ok * (u32::MAX as int), ok);
                lemma_div_multiples_vanish(u32::MAX as int, ok);
                assert(sum / ok <= u32::MAX as int);
                lemma_div_multiples_vanish(self.min_latency_ms as int, ok);
                lemma_div_is_ordered(ok * (self.min_latency_ms as int), sum, ok);
                lemma_div_multiples_vanish(self.max_latency_ms as int, ok);
                lemma_div_is_ordered(sum, ok * (self.max_latency_ms as int), ok);
            }
            (self.total_latency_ms / ok64) as u32
        };
        ScenarioResult {
            name,
            requests_sent: self.requests_sent,
            successful_requests: self.successful_requests,
            failed_requests: self.failed_requests,
            avg_response_time: avg,
            min_response_time: self.min_latency_ms,
            max_response_time: self.max_latency_ms,
        }
    }
}

/// The fold is order-independent: outcomes may arrive and be folded in any
/// order, because counting, summing, min and max all commute. Folding two
/// outcomes in either order leaves the accumulator in the same state.
pub proof fn lemma_fold_commutes(a: Aggregator, s1: bool, l1: u32, s2: bool, l2: u32)
    requires
        a.wf(),
        a.requests_sent + 2 <= u32::MAX,
    ensures
        Aggregator::spec_record(Aggregator::spec_record(a, s1, l1), s2, l2)
            == Aggregator::spec_record(Aggregator::spec_record(a, s2, l2), s1, l1),
{
    let sum: int = a.total_latency_ms as int;
    let ok: int = a.successful_requests as int;
    assert(sum + l1 + l2 <= (ok + 2) * (u32::MAX as int)) by (nonlinear_arith)
        requires
            sum <= ok * (u32::MAX as int),
            l1 <= u32::MAX,
            l2 <= u32::MAX,
            ok >= 0,
    ;
    assert((ok + 2) * (u32::MAX as int) <= (u32::MAX as int) * (u32::MAX as int))
        by (nonlinear_arith)
        requires
            ok + 2 <= u32::MAX,
    ;
}

/// Every outcome is counted exactly once: in any well-formed accumulator or
/// finalized result, successful plus failed equals sent.
pub proof fn lemma_counts_balance(a: Aggregator, r: ScenarioResult)
    requires
        a.wf(),
        r.wf(),
    ensures
        a.requests_sent == a.successful_requests + a.failed_requests,
        r.requests_sent == r.successful_requests + r.failed_requests,
{
}

} // verus!
