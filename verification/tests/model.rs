use tempest::Campaign;
use tempest::ConfigError;
use tempest::HttpMethod;
use tempest::Scenario;
use tempest::SuccessCriteria;
use tempest::campaign::validate_campaign;
use tempest::campaign::validate_scenario;

fn scenario(name: &str, rate: u32, duration: u32) -> Scenario {
    Scenario {
        name: name.to_string(),
        endpoint: "/health".to_string(),
        method: HttpMethod::GET,
        rate,
        duration,
        query_params: Vec::new(),
        json_content: None,
        raw_content: None,
        response: None,
    }
}

fn campaign(scenarios: Vec<Scenario>) -> Campaign {
    Campaign {
        name: "smoke".to_string(),
        version: "1".to_string(),
        description: "basic checks".to_string(),
        base_url: "http://localhost:8080".to_string(),
        scenarios,
        success_criteria: SuccessCriteria { max_response_time: 500, error_rate_threshold_ppm: 50_000 },
    }
}

#[test]
fn valid_campaign_passes_validation() {
    let c = campaign(vec![scenario("a", 10, 2), scenario("b", 1, 1)]);
    assert!(validate_campaign(&c).is_ok());
}

#[test]
fn zero_rate_is_a_configuration_error() {
    let c = campaign(vec![scenario("bad", 0, 2)]);
    match validate_campaign(&c) {
        Err(ConfigError::ZeroRate { scenario }) => assert_eq!(scenario, "bad"),
        other => panic!("expected ZeroRate, got {:?}", other),
    }
}

#[test]
fn zero_duration_is_a_configuration_error() {
    let c = campaign(vec![scenario("ok", 5, 1), scenario("bad", 5, 0)]);
    match validate_campaign(&c) {
        Err(ConfigError::ZeroDuration { scenario }) => assert_eq!(scenario, "bad"),
        other => panic!("expected ZeroDuration, got {:?}", other),
    }
}

#[test]
fn overflowing_total_is_a_configuration_error() {
    let c = campaign(vec![scenario("huge", u32::MAX, 2)]);
    match validate_campaign(&c) {
        Err(ConfigError::TotalOverflow { scenario }) => assert_eq!(scenario, "huge"),
        other => panic!("expected TotalOverflow, got {:?}", other),
    }
}

#[test]
fn largest_total_that_fits_is_accepted() {
    assert!(validate_scenario(&scenario("edge", u32::MAX, 1)).is_ok());
}

#[test]
fn empty_scenario_list_is_rejected() {
    let c = campaign(Vec::new());
    assert!(matches!(validate_campaign(&c), Err(ConfigError::EmptyScenarioList)));
}

#[test]
fn empty_base_url_is_rejected() {
    let mut c = campaign(vec![scenario("a", 1, 1)]);
    c.base_url = String::new();
    assert!(matches!(validate_campaign(&c), Err(ConfigError::EmptyBaseUrl)));
}

#[test]
fn threshold_above_one_is_rejected() {
    let mut c = campaign(vec![scenario("a", 1, 1)]);
    c.success_criteria.error_rate_threshold_ppm = 1_000_001;
    assert!(matches!(validate_campaign(&c), Err(ConfigError::ThresholdOutOfRange)));
}

#[test]
fn first_fault_wins_in_declared_order() {
    let c = campaign(vec![scenario("first", 0, 1), scenario("second", 1, 0)]);
    match validate_campaign(&c) {
        Err(ConfigError::ZeroRate { scenario }) => assert_eq!(scenario, "first"),
        other => panic!("expected ZeroRate for the first scenario, got {:?}", other),
    }
}

#[test]
fn capability_table_supports_get_and_post_only() {
    assert!(HttpMethod::GET.supported());
    assert!(HttpMethod::POST.supported());
    assert!(!HttpMethod::PUT.supported());
    assert!(!HttpMethod::DELETE.supported());
    assert!(!HttpMethod::PATCH.supported());
}
