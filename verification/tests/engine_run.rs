use tempest::Campaign;
use tempest::ConfigError;
use tempest::HttpMethod;
use tempest::LoadEngine;
use tempest::Scenario;
use tempest::ScenarioRun;
use tempest::SuccessCriteria;
use tempest::engine::run_scenario_simulated;
use tempest::engine::scenario_passes;

fn scenario(name: &str, rate: u32, duration: u32) -> Scenario {
    Scenario {
        name: name.to_string(),
        endpoint: "/work".to_string(),
        method: HttpMethod::GET,
        rate,
        duration,
        query_params: Vec::new(),
        json_content: None,
        raw_content: None,
        response: None,
    }
}

/// Drives one scenario's run the way a transport driver would, completing
/// every admitted dispatch with the given outcome.
fn drive(s: &Scenario, success: bool, latency_ms: u32) -> tempest::ScenarioResult {
    let mut run = ScenarioRun::new(s).expect("scenario should be valid");
    while let Some(_slot) = run.next_slot() {
        assert!(run.acquire(), "a sequential driver never saturates the in-flight bound");
        run.complete(success, latency_ms);
    }
    run.finalize(s.name.clone())
}

#[test]
fn always_successful_mock_transport_yields_exact_counts() {
    // rate=10, duration=2 against a transport that always returns 200 with
    // 0 ms latency, classified by the dispatcher like any real reply.
    let s = scenario("steady", 10, 2);
    let mut run = ScenarioRun::new(&s).expect("valid");
    while let Some(_slot) = run.next_slot() {
        assert!(run.acquire());
        let reply = tempest::TransportReply::Response {
            status: 200,
            elapsed_ms: 0,
            body: String::new(),
        };
        let outcome = tempest::dispatch::outcome_of_reply(&s.response, reply);
        run.complete(outcome.success, outcome.latency_ms);
    }
    let res = run.finalize(s.name.clone());
    assert_eq!(res.requests_sent, 20);
    assert_eq!(res.successful_requests, 20);
    assert_eq!(res.failed_requests, 0);
    assert_eq!(res.avg_response_time, 0);
    assert_eq!(res.min_response_time, 0);
    assert_eq!(res.max_response_time, 0);
}

#[test]
fn requests_sent_is_exactly_rate_times_duration() {
    let s = scenario("paced", 7, 3);
    let res = drive(&s, true, 12);
    assert_eq!(res.requests_sent, 21);
    assert_eq!(res.successful_requests + res.failed_requests, res.requests_sent);
    assert_eq!(res.avg_response_time, 12);
    assert_eq!(res.min_response_time, 12);
    assert_eq!(res.max_response_time, 12);
}

#[test]
fn zero_successes_report_zero_latency_statistics() {
    let s = scenario("down", 4, 2);
    let res = drive(&s, false, 0);
    assert_eq!(res.requests_sent, 8);
    assert_eq!(res.successful_requests, 0);
    assert_eq!(res.failed_requests, 8);
    assert_eq!(res.avg_response_time, 0);
    assert_eq!(res.min_response_time, 0);
    assert_eq!(res.max_response_time, 0);
}

#[test]
fn mixed_outcomes_fold_into_sum_min_max() {
    let s = scenario("mixed", 2, 2);
    let mut run = ScenarioRun::new(&s).expect("valid");
    let outcomes = [(true, 30u32), (false, 0u32), (true, 10u32), (true, 20u32)];
    for (success, latency) in outcomes {
        assert!(run.next_slot().is_some());
        assert!(run.acquire());
        run.complete(success, latency);
    }
    assert!(run.next_slot().is_none());
    let res = run.finalize("mixed".to_string());
    assert_eq!(res.requests_sent, 4);
    assert_eq!(res.successful_requests, 3);
    assert_eq!(res.failed_requests, 1);
    assert_eq!(res.avg_response_time, 20);
    assert_eq!(res.min_response_time, 10);
    assert_eq!(res.max_response_time, 30);
}

#[test]
fn simulated_run_balances_its_counts() {
    let s = scenario("dry", 10, 2);
    let res = run_scenario_simulated(&s).expect("valid scenario");
    assert_eq!(res.requests_sent, 20);
    assert_eq!(res.successful_requests + res.failed_requests, 20);
    assert_eq!(res.name, "dry");
    if res.successful_requests > 0 {
        // Every successful latency came from the synthesizer's range.
        assert!(res.min_response_time >= 10);
        assert!(res.max_response_time < 500);
        assert!(res.min_response_time <= res.avg_response_time);
        assert!(res.avg_response_time <= res.max_response_time);
    }
}

#[test]
fn invalid_scenario_fails_before_any_dispatch() {
    // rate=0 must surface as a configuration error with zero transport
    // activity: the run state machine cannot even be constructed.
    let s = scenario("halted", 0, 2);
    let mut transport_calls = 0u32;
    match ScenarioRun::new(&s) {
        Err(ConfigError::ZeroRate { scenario }) => assert_eq!(scenario, "halted"),
        other => panic!("expected ZeroRate, got {:?}", other.map(|_| ())),
    }
    match run_scenario_simulated(&s) {
        Err(ConfigError::ZeroRate { .. }) => {}
        _ => {
            transport_calls += 1;
            panic!("expected a configuration error")
        }
    }
    assert_eq!(transport_calls, 0);
}

#[test]
fn engine_runs_every_scenario_in_order() {
    let c = Campaign {
        name: "campaign".to_string(),
        version: "1".to_string(),
        description: "two scenarios".to_string(),
        base_url: "http://localhost".to_string(),
        scenarios: vec![scenario("a", 3, 2), scenario("b", 5, 1)],
        success_criteria: SuccessCriteria { max_response_time: 1000, error_rate_threshold_ppm: 1_000_000 },
    };
    let engine = LoadEngine::new(c, true);
    let results = engine.run().expect("valid campaign");
    assert_eq!(results.len(), 2);
    assert_eq!(results[0].name, "a");
    assert_eq!(results[0].requests_sent, 6);
    assert_eq!(results[1].name, "b");
    assert_eq!(results[1].requests_sent, 5);
    for res in &results {
        assert_eq!(res.successful_requests + res.failed_requests, res.requests_sent);
    }
    let verdicts = engine.evaluate(&results);
    assert_eq!(verdicts.len(), 2);
}

#[test]
fn engine_rejects_invalid_campaign_before_running() {
    let c = Campaign {
        name: "broken".to_string(),
        version: "1".to_string(),
        description: String::new(),
        base_url: "http://localhost".to_string(),
        scenarios: vec![scenario("bad", 0, 1)],
        success_criteria: SuccessCriteria { max_response_time: 1000, error_rate_threshold_ppm: 0 },
    };
    let engine = LoadEngine::new(c, true);
    assert!(matches!(engine.run(), Err(ConfigError::ZeroRate { .. })));
}

#[test]
fn fold_order_does_not_change_the_statistics() {
    let outcomes = [(true, 30u32), (false, 0u32), (true, 10u32), (true, 20u32), (false, 5u32)];
    let mut forward = tempest::Aggregator::new();
    for &(success, latency) in &outcomes {
        forward.record(success, latency);
    }
    let mut backward = tempest::Aggregator::new();
    for &(success, latency) in outcomes.iter().rev() {
        backward.record(success, latency);
    }
    assert_eq!(forward.requests_sent, backward.requests_sent);
    assert_eq!(forward.successful_requests, backward.successful_requests);
    assert_eq!(forward.failed_requests, backward.failed_requests);
    assert_eq!(forward.total_latency_ms, backward.total_latency_ms);
    assert_eq!(forward.min_latency_ms, backward.min_latency_ms);
    assert_eq!(forward.max_latency_ms, backward.max_latency_ms);
}

#[test]
fn interrupted_run_still_drains_and_reports_a_partial_result() {
    // A shutdown stops issuing new slots but still counts every admitted
    // dispatch before reporting.
    let s = scenario("interrupted", 5, 2);
    let mut run = ScenarioRun::new(&s).expect("valid");
    for _ in 0..4 {
        assert!(run.next_slot().is_some());
        assert!(run.acquire());
        run.complete(true, 25);
    }
    let res = run.finalize_interrupted("interrupted".to_string());
    assert_eq!(res.requests_sent, 4);
    assert_eq!(res.successful_requests, 4);
    assert_eq!(res.failed_requests, 0);
    assert_eq!(res.avg_response_time, 25);
}

fn result(sent: u32, failed: u32, max_ms: u32) -> tempest::ScenarioResult {
    tempest::ScenarioResult {
        name: "r".to_string(),
        requests_sent: sent,
        successful_requests: sent - failed,
        failed_requests: failed,
        avg_response_time: 0,
        max_response_time: max_ms,
        min_response_time: 0,
    }
}

#[test]
fn error_rate_above_threshold_fails_criteria() {
    // threshold 0.05; observed error rate 0.10 fails, 0.03 passes.
    let criteria = SuccessCriteria { max_response_time: 1000, error_rate_threshold_ppm: 50_000 };
    assert!(!scenario_passes(&criteria, &result(100, 10, 0)));
    assert!(scenario_passes(&criteria, &result(100, 3, 0)));
}

#[test]
fn max_latency_above_threshold_fails_criteria() {
    let criteria = SuccessCriteria { max_response_time: 200, error_rate_threshold_ppm: 1_000_000 };
    assert!(!scenario_passes(&criteria, &result(10, 0, 201)));
    assert!(scenario_passes(&criteria, &result(10, 0, 200)));
}
