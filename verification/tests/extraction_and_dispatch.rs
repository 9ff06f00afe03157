use tempest::HttpMethod;
use tempest::FailureReason;
use tempest::RequestBody;
use tempest::ResponseExtraction;
use tempest::Scenario;
use tempest::TransportReply;
use tempest::dispatch::build_url;
use tempest::dispatch::mock_outcome;
use tempest::dispatch::mock_outcome_of_draws;
use tempest::dispatch::outcome_of_reply;
use tempest::dispatch::plan_request;
use tempest::extract::extract_fields;
use tempest::extract::extract_from_response;

fn rules(pairs: &[(&str, &str)]) -> Vec<(String, String)> {
    pairs.iter().map(|(k, v)| (k.to_string(), v.to_string())).collect()
}

#[test]
fn capture_group_yields_the_field() {
    // {"token": "id=(\d+)"} applied to body "id=42" yields token -> "42".
    let fields = extract_fields(&rules(&[("token", r"id=(\d+)")]), "id=42");
    assert_eq!(fields, vec![("token".to_string(), "42".to_string())]);
}

#[test]
fn no_match_yields_no_field_and_no_error() {
    let fields = extract_fields(&rules(&[("token", r"id=(\d+)")]), "no match");
    assert!(fields.is_empty());
}

#[test]
fn non_compiling_pattern_yields_no_field() {
    let fields = extract_fields(&rules(&[("broken", "id=(")]), "id=42");
    assert!(fields.is_empty());
}

#[test]
fn pattern_without_capture_group_yields_no_field() {
    let fields = extract_fields(&rules(&[("whole", r"id=\d+")]), "id=42");
    assert!(fields.is_empty());
}

#[test]
fn rules_are_independent() {
    let fields = extract_fields(
        &rules(&[("user", r"user=(\w+)"), ("missing", r"ghost=(\w+)"), ("id", r"id=(\d+)")]),
        "user=ada id=7",
    );
    assert_eq!(
        fields,
        vec![("user".to_string(), "ada".to_string()), ("id".to_string(), "7".to_string())]
    );
}

#[test]
fn absent_ruleset_yields_no_mapping() {
    assert!(extract_from_response(&None, "anything").is_none());
    let ex = ResponseExtraction { extract: rules(&[("id", r"id=(\d+)")]) };
    let fields = extract_from_response(&Some(ex), "id=9").expect("ruleset present");
    assert_eq!(fields, vec![("id".to_string(), "9".to_string())]);
}

fn scenario_with(method: HttpMethod, json: Option<&str>, raw: Option<&str>) -> Scenario {
    Scenario {
        name: "s".to_string(),
        endpoint: "/items".to_string(),
        method,
        rate: 1,
        duration: 1,
        query_params: Vec::new(),
        json_content: json.map(|s| s.to_string()),
        raw_content: raw.map(|s| s.to_string()),
        response: None,
    }
}

#[test]
fn url_joins_base_and_endpoint() {
    let url = build_url("http://host:1234", "/items", &Vec::new());
    assert_eq!(url, "http://host:1234/items");
}

#[test]
fn query_parameters_append_in_order() {
    let params = vec![
        ("page".to_string(), "2".to_string()),
        ("limit".to_string(), "50".to_string()),
    ];
    let url = build_url("http://host", "/items", &params);
    assert_eq!(url, "http://host/items?page=2&limit=50");
}

#[test]
fn json_body_takes_precedence_over_raw() {
    let s = scenario_with(HttpMethod::POST, Some("{\"a\":1}"), Some("ignored"));
    let plan = plan_request("http://host", &s).expect("supported method");
    assert!(matches!(plan.body, RequestBody::Json(ref j) if j == "{\"a\":1}"));
    assert!(plan.raw_ignored, "the raw body is flagged as ignored");
}

#[test]
fn raw_body_is_used_when_no_json_is_given() {
    let s = scenario_with(HttpMethod::POST, None, Some("payload"));
    let plan = plan_request("http://host", &s).expect("supported method");
    assert!(matches!(plan.body, RequestBody::Raw(ref rawb) if rawb == "payload"));
    assert!(!plan.raw_ignored);
}

#[test]
fn unsupported_method_becomes_a_failed_outcome_not_a_crash() {
    let s = scenario_with(HttpMethod::PATCH, None, None);
    let out = match plan_request("http://host", &s) {
        Err(out) => out,
        Ok(_) => panic!("PATCH is outside the capability table"),
    };
    assert!(!out.success);
    assert!(matches!(out.failure, Some(FailureReason::UnsupportedMethod)));
    assert!(out.extracted.is_empty());
}

#[test]
fn two_hundred_range_is_success_and_extracts() {
    let ex = ResponseExtraction { extract: rules(&[("id", r"id=(\d+)")]) };
    let reply = TransportReply::Response {
        status: 201,
        elapsed_ms: 17,
        body: "id=5".to_string(),
    };
    let out = outcome_of_reply(&Some(ex), reply);
    assert!(out.success);
    assert_eq!(out.latency_ms, 17);
    assert!(out.failure.is_none());
    assert_eq!(out.extracted, vec![("id".to_string(), "5".to_string())]);
}

#[test]
fn non_success_status_is_a_failure_without_extraction() {
    let ex = ResponseExtraction { extract: rules(&[("id", r"id=(\d+)")]) };
    let reply = TransportReply::Response {
        status: 404,
        elapsed_ms: 9,
        body: "id=5".to_string(),
    };
    let out = outcome_of_reply(&Some(ex), reply);
    assert!(!out.success);
    assert_eq!(out.latency_ms, 9);
    assert!(matches!(out.failure, Some(FailureReason::HttpStatus(404))));
    assert!(out.extracted.is_empty(), "no extraction on failure");
}

#[test]
fn transport_error_is_recorded_never_propagated() {
    let reply = TransportReply::Failure { message: "connection refused".to_string() };
    let out = outcome_of_reply(&None, reply);
    assert!(!out.success);
    match out.failure {
        Some(FailureReason::Transport(msg)) => assert_eq!(msg, "connection refused"),
        other => panic!("expected a transport failure, got {:?}", other),
    }
}

#[test]
fn success_classification_covers_exactly_the_two_hundreds() {
    for (status, expect_success) in [(199u16, false), (200, true), (299, true), (300, false)] {
        let reply = TransportReply::Response {
            status,
            elapsed_ms: 1,
            body: String::new(),
        };
        let out = outcome_of_reply(&None, reply);
        assert_eq!(out.success, expect_success, "status {}", status);
        if expect_success {
            assert!(out.failure.is_none());
        } else {
            assert!(matches!(out.failure, Some(FailureReason::HttpStatus(s)) if s == status));
        }
    }
}

#[test]
fn mock_draws_decide_the_outcome_exactly() {
    // Rolls under the fixed per-mille probability fail; all others succeed
    // and carry the drawn latency through unchanged.
    let failed = mock_outcome_of_draws(9, 123);
    assert!(!failed.success);
    assert_eq!(failed.latency_ms, 0);
    assert!(matches!(failed.failure, Some(FailureReason::Transport(_))));
    assert!(failed.extracted.is_empty());

    let ok_edge = mock_outcome_of_draws(10, 123);
    assert!(ok_edge.success);
    assert_eq!(ok_edge.latency_ms, 123);
    assert!(ok_edge.failure.is_none());

    let ok_top = mock_outcome_of_draws(999, 77);
    assert!(ok_top.success);
    assert_eq!(ok_top.latency_ms, 77);
}

#[test]
fn mock_outcomes_stay_within_the_documented_bounds() {
    for _ in 0..200 {
        let out = mock_outcome();
        assert!(out.extracted.is_empty());
        if out.success {
            assert!(out.failure.is_none());
            assert!((10..500).contains(&out.latency_ms));
        } else {
            assert!(matches!(out.failure, Some(FailureReason::Transport(_))));
        }
    }
}
