//! Load engine: wires Scheduler, Gate, Dispatcher and Aggregator for one
//! scenario, runs a campaign's scenarios strictly in order, and evaluates
//! the success criteria post hoc. The run of one scenario is a state
//! machine: a driver emits slots, admits dispatches against the in-flight
//! bound, and
//! folds every completion back in; finalization is only possible once all
//! slots are out and every admitted dispatch has drained.

use crate::campaign::Campaign;
use crate::campaign::ConfigError;
use crate::campaign::Scenario;
use crate::campaign::SuccessCriteria;
use crate::campaign::campaign_error;
use crate::campaign::campaign_valid;
use crate::campaign::lemma_scenarios_all_valid;
use crate::campaign::scenario_error;
use crate::campaign::scenario_valid;
use crate::campaign::validate_campaign;
use crate::campaign::validate_scenario;
use crate::dispatch::MOCK_MAX_LATENCY_MS;
use crate::dispatch::MOCK_MIN_LATENCY_MS;
use crate::dispatch::RequestOutcome;
use crate::dispatch::mock_outcome;
use crate::gate::Gate;
use crate::gate::default_limit;
use crate::metrics::Aggregator;
use crate::metrics::ScenarioResult;
use crate::schedule::Schedule;
use vstd::prelude::*;

verus! {

/// The live state of one scenario's run: the slot schedule, the in-flight
/// bound, and the statistics accumulator.
pub struct ScenarioRun {
    pub schedule: Schedule,
    pub gate: Gate,
    pub stats: Aggregator,
}

impl ScenarioRun {
    /// Every admitted dispatch traces back to an emitted slot: completions
    /// plus in-flight dispatches never exceed the slots released so far.
    pub open spec fn wf(self) -> bool {
        &&& self.schedule.wf()
        &&& self.gate.wf()
        &&& self.stats.wf()
        &&& self.stats.requests_sent + self.gate.in_flight <= self.schedule.emitted
    }

    /// All slots are out and every admitted dispatch has completed and been
    /// folded in; only then may the result be finalized.
    pub open spec fn drained(self) -> bool {
        &&& self.schedule.emitted == self.schedule.total
        &&& self.gate.in_flight == 0
        &&& self.stats.requests_sent == self.schedule.total
    }

    /// Sets up the run for a scenario, rejecting an invalid one before any
    /// request is dispatched.
    pub fn new(s: &Scenario) -> (r: Result<ScenarioRun, ConfigError>)
        ensures
            match r {
                Ok(run) => {
                    &&& scenario_valid(*s)
                    &&& run.wf()
                    &&& run.schedule.total == s.rate * s.duration
                    &&& run.schedule.rate == s.rate
                    &&& run.schedule.emitted == 0
                    &&& run.gate.in_flight == 0
                    &&& run.stats.requests_sent == 0
                    &&& run.stats.successful_requests == 0
                    &&& run.stats.failed_requests == 0
                },
                Err(e) => Some(e) == scenario_error(*s),
            },
    {
        match validate_scenario(s) {
            Ok(()) => Ok(
                ScenarioRun {
                    schedule: Schedule::new(s.rate, s.duration),
                    gate: Gate::new(default_limit(s.rate)),
                    stats: Aggregator::new(),
                },
            ),
            Err(e) => Err(e),
        }
    }

    /// Releases the next issue slot's target timestamp, or `None` at
    /// end-of-schedule.
    pub fn next_slot(&mut self) -> (r: Option<u64>)
        requires
            old(self).wf(),
        ensures
            final(self).wf(),
            final(self).schedule.rate == old(self).schedule.rate,
            final(self).schedule.total == old(self).schedule.total,
            final(self).gate == old(self).gate,
            final(self).stats == old(self).stats,
            old(self).schedule.emitted < old(self).schedule.total ==> {
                &&& final(self).schedule.emitted == old(self).schedule.emitted + 1
                &&& r == Some(
                    crate::schedule::slot_offset_micros(
                        old(self).schedule.emitted as int,
                        old(self).schedule.rate,
                    ) as u64,
                )
            },
            old(self).schedule.emitted >= old(self).schedule.total ==> {
                &&& r is None
                &&& final(self).schedule.emitted == old(self).schedule.emitted
            },
    {
        self.schedule.next_slot()
    }

    /// Admits one emitted slot's dispatch if and only if the in-flight bound
    /// is not saturated.
    pub fn acquire(&mut self) -> (admitted: bool)
        requires
            old(self).wf(),
            old(self).stats.requests_sent + old(self).gate.in_flight < old(
                self,
            ).schedule.emitted,
        ensures
            final(self).wf(),
            final(self).schedule == old(self).schedule,
            final(self).stats == old(self).stats,
            final(self).gate.limit == old(self).gate.limit,
            admitted == (old(self).gate.in_flight < old(self).gate.limit),
            admitted ==> final(self).gate.in_flight == old(self).gate.in_flight + 1,
            !admitted ==> final(self).gate.in_flight == old(self).gate.in_flight,
    {
        self.gate.try_acquire()
    }

    /// One admitted dispatch completed: releases its permit and folds the
    /// outcome into the statistics, in either order of arrival.
    pub fn complete(&mut self, success: bool, latency_ms: u32)
        requires
            old(self).wf(),
            old(self).gate.in_flight >= 1,
        ensures
            final(self).wf(),
            final(self).schedule == old(self).schedule,
            final(self).gate.limit == old(self).gate.limit,
            final(self).gate.in_flight == old(self).gate.in_flight - 1,
            final(self).stats == Aggregator::spec_record(old(self).stats, success, latency_ms),
            final(self).stats.requests_sent == old(self).stats.requests_sent + 1,
            success ==> final(self).stats.successful_requests == old(
                self,
            ).stats.successful_requests + 1 && final(self).stats.failed_requests == old(
                self,
            ).stats.failed_requests,
            !success ==> final(self).stats.failed_requests == old(self).stats.failed_requests + 1
                && final(self).stats.successful_requests == old(self).stats.successful_requests,
    {
        self.gate.release();
        self.stats.record(success, latency_ms);
    }

    /// Finalizes the immutable result. Requiring a drained run rules out the
    /// naive bug of finalizing after the last slot is issued rather than
    /// completed: every admitted dispatch is already counted.
    pub fn finalize(&self, name: String) -> (r: ScenarioResult)
        requires
            self.wf(),
            self.drained(),
        ensures
            r.wf(),
            r.name == name,
            r.requests_sent == self.schedule.total,
            r.successful_requests == self.stats.successful_requests,
            r.failed_requests == self.stats.failed_requests,
            r.min_response_time == self.stats.min_latency_ms,
            r.max_response_time == self.stats.max_latency_ms,
            r.successful_requests + r.failed_requests == r.requests_sent,
            r.successful_requests == 0 ==> r.avg_response_time == 0 && r.min_response_time == 0
                && r.max_response_time == 0,
    {
        self.stats.finish(name)
    }

    /// Finalizes a partial result after a shutdown request: issuing stopped
    /// early, but every admitted dispatch has still drained and been
    /// counted. The counts cover exactly the slots that were issued.
    pub fn finalize_interrupted(&self, name: String) -> (r: ScenarioResult)
        requires
            self.wf(),
            self.gate.in_flight == 0,
            self.stats.requests_sent == self.schedule.emitted,
        ensures
            r.wf(),
            r.name == name,
            r.requests_sent == self.schedule.emitted,
            r.successful_requests == self.stats.successful_requests,
            r.failed_requests == self.stats.failed_requests,
            r.min_response_time == self.stats.min_latency_ms,
            r.max_response_time == self.stats.max_latency_ms,
            r.successful_requests + r.failed_requests == r.requests_sent,
            r.successful_requests == 0 ==> r.avg_response_time == 0 && r.min_response_time == 0
                && r.max_response_time == 0,
    {
        self.stats.finish(name)
    }
}

/// A scenario passes its criteria when its error rate (failed / sent) is at
/// most the threshold and its maximum observed latency is at most the
/// configured maximum. The rate comparison is exact:
/// `failed * 1_000_000 <= threshold_ppm * sent`.
pub open spec fn spec_passes(c: SuccessCriteria, r: ScenarioResult) -> bool {
    &&& r.failed_requests * 1000000 <= c.error_rate_threshold_ppm * r.requests_sent
    &&& r.max_response_time <= c.max_response_time
}

/// Post-hoc evaluation of one scenario's result against the criteria.
pub fn scenario_passes(c: &SuccessCriteria, r: &ScenarioResult) -> (b: bool)
    ensures
        b == spec_passes(*c, *r),
{
    proof {
        assert((c.error_rate_threshold_ppm as int) * (r.requests_sent as int) <= (u32::MAX as int)
            * (u32::MAX as int)) by (nonlinear_arith)
            requires
                c.error_rate_threshold_ppm <= u32::MAX,
                r.requests_sent <= u32::MAX,
        ;
    }
    let failed_scaled: u64 = (r.failed_requests as u64) * 1000000u64;
    let threshold_scaled: u64 = (c.error_rate_threshold_ppm as u64) * (r.requests_sent as u64);
    failed_scaled <= threshold_scaled && r.max_response_time <= c.max_response_time
}

/// Runs one scenario with synthesized outcomes: the full pipeline of
/// scheduler, gate, dispatcher and aggregator, driven in-process. Exactly
/// `rate * duration` slots are emitted and every one of them completes and
/// is counted before the result is finalized; every successful latency came
/// from the synthesizer, so the reported extremes stay in its bounds.
pub fn run_scenario_simulated(s: &Scenario) -> (r: Result<ScenarioResult, ConfigError>)
    ensures
        match r {
            Ok(res) => {
                &&& scenario_valid(*s)
                &&& res.wf()
                &&& res.name == s.name
                &&& res.requests_sent == s.rate * s.duration
                &&& res.successful_requests + res.failed_requests == res.requests_sent
                &&& res.successful_requests == 0 ==> res.avg_response_time == 0
                    && res.min_response_time == 0 && res.max_response_time == 0
                &&& res.successful_requests > 0 ==> MOCK_MIN_LATENCY_MS <= res.min_response_time
                    && res.max_response_time < MOCK_MAX_LATENCY_MS
            },
            Err(e) => Some(e) == scenario_error(*s),
        },
{
    let mut run: ScenarioRun = match ScenarioRun::new(s) {
        Ok(run) => run,
        Err(e) => {
            return Err(e);
        },
    };
    while run.schedule.emitted < run.schedule.total
        invariant
            run.wf(),
            run.gate.in_flight == 0,
            run.stats.requests_sent == run.schedule.emitted,
            run.schedule.total == s.rate * s.duration,
            run.stats.successful_requests > 0 ==> MOCK_MIN_LATENCY_MS
                <= run.stats.min_latency_ms && run.stats.max_latency_ms < MOCK_MAX_LATENCY_MS,
        decreases run.schedule.total - run.schedule.emitted,
    {
        let slot = run.next_slot();
        let admitted = run.acquire();
        let outcome: RequestOutcome = mock_outcome();
        run.complete(outcome.success, outcome.latency_ms);
    }
    Ok(run.finalize(s.name.clone()))
}

/// The unified engine: one campaign, run scenario by scenario. In dry-run
/// mode the dispatcher synthesizes outcomes instead of calling the
/// transport; `run` performs that in-process execution, and a network-backed
/// driver outside the core steps the same `ScenarioRun` machine per event.
pub struct LoadEngine {
    pub campaign: Campaign,
    pub dry_run: bool,
}

impl LoadEngine {
    pub fn new(campaign: Campaign, dry_run: bool) -> (e: LoadEngine)
        ensures
            e.campaign == campaign,
            e.dry_run == dry_run,
    {
        LoadEngine { campaign, dry_run }
    }

    /// Runs every scenario of the campaign in declared order, each one fully
    /// drained before the next starts, with synthesized outcomes. A
    /// configuration fault aborts before any scenario runs; otherwise every
    /// scenario yields a complete result, whatever its outcomes were.
    pub fn run(&self) -> (r: Result<Vec<ScenarioResult>, ConfigError>)
        ensures
            match r {
                Ok(results) => {
                    &&& campaign_valid(self.campaign)
                    &&& results@.len() == self.campaign.scenarios@.len()
                    &&& forall|i: int|
                        0 <= i < results@.len() ==> {
                            let s = self.campaign.scenarios@[i];
                            let res = #[trigger] results@[i];
                            &&& res.wf()
                            &&& res.name == s.name
                            &&& res.requests_sent == s.rate * s.duration
                            &&& res.successful_requests + res.failed_requests
                                == res.requests_sent
                            &&& res.successful_requests > 0 ==> MOCK_MIN_LATENCY_MS
                                <= res.min_response_time && res.max_response_time
                                < MOCK_MAX_LATENCY_MS
                        }
                },
                Err(e) => Some(e) == campaign_error(self.campaign),
            },
    {
        match validate_campaign(&self.campaign) {
            Ok(()) => {},
            Err(e) => {
                return Err(e);
            },
        }
        proof {
            lemma_scenarios_all_valid(self.campaign.scenarios@);
        }
        let mut results: Vec<ScenarioResult> = Vec::new();
        let n: usize = self.campaign.scenarios.len();
        for i in 0..n
            invariant
                n == self.campaign.scenarios@.len(),
                campaign_valid(self.campaign),
                forall|k: int|
                    0 <= k < self.campaign.scenarios@.len() ==> scenario_valid(
                        #[trigger] self.campaign.scenarios@[k],
                    ),
                results@.len() == i,
                forall|k: int|
                    0 <= k < i ==> {
                        let s = self.campaign.scenarios@[k];
                        let res = #[trigger] results@[k];
                        &&& res.wf()
                        &&& res.name == s.name
                        &&& res.requests_sent == s.rate * s.duration
                        &&& res.successful_requests + res.failed_requests == res.requests_sent
                        &&& res.successful_requests > 0 ==> MOCK_MIN_LATENCY_MS
                            <= res.min_response_time && res.max_response_time
                            < MOCK_MAX_LATENCY_MS
                    },
        {
            match run_scenario_simulated(&self.campaign.scenarios[i]) {
                Ok(res) => {
                    results.push(res);
                },
                Err(_) => {
                    // A validated campaign has no faulty scenario, so a
                    // configuration error cannot arise here.
                    proof {
                        assert(scenario_valid(self.campaign.scenarios@[i as int]));
                        assert(false);
                    }
                },
            }
        }
        Ok(results)
    }

    /// Evaluates every result against the campaign's criteria, in order:
    /// pass or fail per scenario, purely post hoc.
    pub fn evaluate(&self, results: &Vec<ScenarioResult>) -> (verdicts: Vec<bool>)
        ensures
            verdicts@.len() == results@.len(),
            forall|i: int|
                0 <= i < results@.len() ==> #[trigger] verdicts@[i] == spec_passes(
                    self.campaign.success_criteria,
                    results@[i],
                ),
    {
        let mut verdicts: Vec<bool> = Vec::new();
        let n: usize = results.len();
        for i in 0..n
            invariant
                n == results@.len(),
                verdicts@.len() == i,
                forall|k: int|
                    0 <= k < i ==> #[trigger] verdicts@[k] == spec_passes(
                        self.campaign.success_criteria,
                        results@[k],
                    ),
        {
            verdicts.push(scenario_passes(&self.campaign.success_criteria, &results[i]));
        }
        verdicts
    }
}

} // verus!
