//! Campaign model: the immutable, validated description of a load-test
//! campaign, plus the validation that guards every run.

use vstd::prelude::*;

verus! {

/// The HTTP methods a scenario may declare.
#[derive(Clone, Copy, Debug, PartialEq, Eq, Structural)]
pub enum HttpMethod {
    GET,
    POST,
    PUT,
    DELETE,
    PATCH,
}

impl HttpMethod {
    /// Capability table: which methods the transport collaborator supports.
    /// An unsupported method fails per request, never as an unhandled case.
    pub open spec fn spec_supported(self) -> bool {
        self == HttpMethod::GET || self == HttpMethod::POST
    }

    pub fn supported(self) -> (r: bool)
        ensures
            r == self.spec_supported(),
    {
        match self {
            HttpMethod::GET => true,
            HttpMethod::POST => true,
            HttpMethod::PUT => false,
            HttpMethod::DELETE => false,
            HttpMethod::PATCH => false,
        }
    }
}

/// A list of pairs is a mapping: no two pairs share a key.
pub open spec fn keys_unique(pairs: Seq<(String, String)>) -> bool {
    forall|i: int, j: int|
        #![trigger pairs[i], pairs[j]]
        0 <= i < j < pairs.len() ==> pairs[i].0@ != pairs[j].0@
}

/// Rules mapping a field name to a pattern whose first capture group
/// yields that field's value when applied to a response body.
#[derive(Clone, Debug)]
pub struct ResponseExtraction {
    pub extract: Vec<(String, String)>,
}

impl ResponseExtraction {
    /// The ruleset is a mapping: field names are unique.
    pub open spec fn wf(self) -> bool {
        keys_unique(self.extract@)
    }
}

/// Post-hoc pass/fail thresholds for a scenario's observed results.
/// The error-rate threshold is a fraction expressed in parts per million,
/// so a threshold of 5% is 50_000.
#[derive(Clone, Copy, Debug)]
pub struct SuccessCriteria {
    pub max_response_time: u32,
    pub error_rate_threshold_ppm: u32,
}

pub const PPM_SCALE: u32 = 1000000;

impl SuccessCriteria {
    /// The threshold is a fraction in [0, 1].
    pub open spec fn wf(self) -> bool {
        self.error_rate_threshold_ppm <= PPM_SCALE
    }
}

/// One named unit of load-test work: a target endpoint driven at a fixed
/// rate for a fixed duration.
#[derive(Clone, Debug)]
pub struct Scenario {
    pub name: String,
    pub endpoint: String,
    pub method: HttpMethod,
    pub rate: u32,
    pub duration: u32,
    pub query_params: Vec<(String, String)>,
    pub json_content: Option<String>,
    pub raw_content: Option<String>,
    pub response: Option<ResponseExtraction>,
}

impl Scenario {
    /// The scenario's two optional mappings keep their map nature: query
    /// parameter keys are unique, and so are the extraction rule names.
    pub open spec fn wf(self) -> bool {
        &&& keys_unique(self.query_params@)
        &&& match self.response {
            Some(ex) => ex.wf(),
            None => true,
        }
    }
}

/// An ordered collection of scenarios sharing a base URL and success
/// criteria, run sequentially.
#[derive(Clone, Debug)]
pub struct Campaign {
    pub name: String,
    pub version: String,
    pub description: String,
    pub base_url: String,
    pub scenarios: Vec<Scenario>,
    pub success_criteria: SuccessCriteria,
}

/// A malformed or semantically invalid campaign; fatal, raised before any
/// scenario runs. Each variant names the offending scenario where one exists.
#[derive(Clone, Debug)]
pub enum ConfigError {
    EmptyScenarioList,
    EmptyBaseUrl,
    ThresholdOutOfRange,
    ZeroRate { scenario: String },
    ZeroDuration { scenario: String },
    TotalOverflow { scenario: String },
}

/// The first configuration fault of one scenario, in check order:
/// zero rate, zero duration, then a total request count that would
/// not fit the counter width.
pub open spec fn scenario_error(s: Scenario) -> Option<ConfigError> {
    if s.rate == 0 {
        Some(ConfigError::ZeroRate { scenario: s.name })
    } else if s.duration == 0 {
        Some(ConfigError::ZeroDuration { scenario: s.name })
    } else if s.rate * s.duration > u32::MAX {
        Some(ConfigError::TotalOverflow { scenario: s.name })
    } else {
        None
    }
}

pub open spec fn scenario_valid(s: Scenario) -> bool {
    scenario_error(s) is None
}

/// The first configuration fault over an ordered scenario list.
pub open spec fn scenarios_error(ss: Seq<Scenario>) -> Option<ConfigError>
    decreases ss.len(),
{
    if ss.len() == 0 {
        None
    } else if scenario_error(ss[0]) is Some {
        scenario_error(ss[0])
    } else {
        scenarios_error(ss.skip(1))
    }
}

/// The first configuration fault of a whole campaign, in check order:
/// empty scenario list, empty base URL, threshold out of range, then the
/// scenarios in declared order.
pub open spec fn campaign_error(c: Campaign) -> Option<ConfigError> {
    if c.scenarios@.len() == 0 {
        Some(ConfigError::EmptyScenarioList)
    } else if c.base_url@.len() == 0 {
        Some(ConfigError::EmptyBaseUrl)
    } else if !c.success_criteria.wf() {
        Some(ConfigError::ThresholdOutOfRange)
    } else {
        scenarios_error(c.scenarios@)
    }
}

pub open spec fn campaign_valid(c: Campaign) -> bool {
    campaign_error(c) is None
}

/// A valid list has no faulty scenario; conversely the first fault found is
/// the fault of the first faulty scenario.
proof fn lemma_scenarios_error_prefix(ss: Seq<Scenario>, i: int)
    requires
        0 <= i <= ss.len(),
        forall|k: int| 0 <= k < i ==> scenario_error(#[trigger] ss[k]) is None,
    ensures
        scenarios_error(ss) == scenarios_error(ss.skip(i)),
    decreases i,
{
    if i > 0 {
        assert(scenario_error(ss[0]) is None);
        assert(scenarios_error(ss) == scenarios_error(ss.skip(1)));
        assert forall|k: int| 0 <= k < i - 1 implies scenario_error(
            #[trigger] ss.skip(1)[k],
        ) is None by {
            assert(ss.skip(1)[k] == ss[k + 1]);
        }
        lemma_scenarios_error_prefix(ss.skip(1), i - 1);
        assert(ss.skip(1).skip(i - 1) =~= ss.skip(i));
    } else {
        assert(ss.skip(0) =~= ss);
    }
}

/// A scenario list with no fault has every scenario valid.
pub proof fn lemma_scenarios_all_valid(ss: Seq<Scenario>)
    requires
        scenarios_error(ss) is None,
    ensures
        forall|k: int| 0 <= k < ss.len() ==> scenario_valid(#[trigger] ss[k]),
    decreases ss.len(),
{
    if ss.len() > 0 {
        lemma_scenarios_all_valid(ss.skip(1));
        assert forall|k: int| 0 <= k < ss.len() implies scenario_valid(#[trigger] ss[k]) by {
            if k > 0 {
                assert(ss.skip(1)[k - 1] == ss[k]);
            }
        }
    }
}

/// Validates one scenario, returning its first fault in check order, if any.
pub fn validate_scenario(s: &Scenario) -> (r: Result<(), ConfigError>)
    ensures
        match r {
            Ok(()) => scenario_error(*s) is None,
            Err(e) => Some(e) == scenario_error(*s),
        },
{
    if s.rate == 0 {
        return Err(ConfigError::ZeroRate { scenario: s.name.clone() });
    }
    if s.duration == 0 {
        return Err(ConfigError::ZeroDuration { scenario: s.name.clone() });
    }
    let r64: u64 = s.rate as u64;
    let d64: u64 = s.duration as u64;
    proof {
        assert(r64 * d64 <= 0xFFFF_FFFFu64 * 0xFFFF_FFFFu64) by (nonlinear_arith)
            requires
                r64 <= 0xFFFF_FFFFu64,
                d64 <= 0xFFFF_FFFFu64,
        ;
    }
    if r64 * d64 > u32::MAX as u64 {
        return Err(ConfigError::TotalOverflow { scenario: s.name.clone() });
    }
    Ok(())
}

/// Validates a whole campaign before any request is dispatched, returning
/// its first fault in check order, if any.
pub fn validate_campaign(c: &Campaign) -> (r: Result<(), ConfigError>)
    ensures
        match r {
            Ok(()) => campaign_valid(*c),
            Err(e) => Some(e) == campaign_error(*c),
        },
{
    if c.scenarios.len() == 0 {
        return Err(ConfigError::EmptyScenarioList);
    }
    if c.base_url.as_str().is_empty() {
        return Err(ConfigError::EmptyBaseUrl);
    }
    if c.success_criteria.error_rate_threshold_ppm > PPM_SCALE {
        return Err(ConfigError::ThresholdOutOfRange);
    }
    let n: usize = c.scenarios.len();
    for i in 0..n
        invariant
            n == c.scenarios@.len(),
            c.scenarios@.len() > 0,
            c.base_url@.len() > 0,
            c.success_criteria.wf(),
            forall|k: int| 0 <= k < i ==> scenario_error(#[trigger] c.scenarios@[k]) is None,
    {
        match validate_scenario(&c.scenarios[i]) {
            Ok(()) => {},
            Err(e) => {
                proof {
                    lemma_scenarios_error_prefix(c.scenarios@, i as int);
                    assert(c.scenarios@.skip(i as int)[0] == c.scenarios@[i as int]);
                }
                return Err(e);
            },
        }
    }
    proof {
        lemma_scenarios_error_prefix(c.scenarios@, n as int);
        assert(c.scenarios@.skip(n as int).len() == 0);
    }
    Ok(())
}

} // verus!
