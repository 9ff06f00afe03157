//! Request dispatcher logic: building the target URL, resolving the body,
//! classifying the transport's reply into a `RequestOutcome`, and the
//! dry-run synthesizer. The network call itself lives outside the core; a
//! transport reply always becomes an outcome, never an uncaught fault.

use crate::campaign::HttpMethod;
use crate::campaign::ResponseExtraction;
use crate::campaign::Scenario;
use crate::extract::extract_fields;
use crate::extract::extracted_views;
use crate::extract::pairs_view;
use rand::Rng;
use vstd::prelude::*;
use vstd::string::StrSliceExecFns;
use vstd::string::StringExecFns;

verus! {

/// Why a request counted as failed.
#[derive(Clone, Debug)]
pub enum FailureReason {
    /// The transport answered with a non-2xx status.
    HttpStatus(u16),
    /// The transport itself failed: connection, timeout, DNS.
    Transport(String),
    /// The scenario's method is outside the transport's capability table.
    UnsupportedMethod,
}

/// The ephemeral, per-request outcome the aggregator consumes.
#[derive(Clone, Debug)]
pub struct RequestOutcome {
    pub latency_ms: u32,
    pub success: bool,
    pub failure: Option<FailureReason>,
    pub extracted: Vec<(String, String)>,
}

impl RequestOutcome {
    /// Success and failure reason are two views of one flag, and extraction
    /// is only ever attempted on success.
    pub open spec fn wf(self) -> bool {
        &&& self.success <==> self.failure is None
        &&& !self.success ==> self.extracted@.len() == 0
    }
}

/// What the transport collaborator hands back for one request.
#[derive(Clone, Debug)]
pub enum TransportReply {
    /// A response arrived: status, body text, and measured elapsed time.
    Response { status: u16, elapsed_ms: u32, body: String },
    /// A transport-level error: connection refused, timeout, DNS failure.
    Failure { message: String },
}

/// Success is "status code indicates success": the 2xx range.
pub open spec fn is_success_status(status: u16) -> bool {
    200 <= status <= 299
}

pub fn status_is_success(status: u16) -> (r: bool)
    ensures
        r == is_success_status(status),
{
    200 <= status && status <= 299
}

/// The body the dispatcher attaches: the JSON body when one is given (raw
/// content, if also given, is ignored), else the raw body, else none.
#[derive(Clone, Debug)]
pub enum RequestBody {
    Empty,
    Json(String),
    Raw(String),
}

pub open spec fn spec_request_body(s: Scenario) -> RequestBody {
    match s.json_content {
        Some(j) => RequestBody::Json(j),
        None => match s.raw_content {
            Some(raw) => RequestBody::Raw(raw),
            None => RequestBody::Empty,
        },
    }
}

/// True when the scenario gives both bodies, so the raw one is ignored in
/// favour of the JSON one and worth a warning.
pub open spec fn spec_raw_ignored(s: Scenario) -> bool {
    s.json_content is Some && s.raw_content is Some
}

/// The query string appended to a URL: `k=v` pairs joined by `&`, in the
/// mapping's iteration order (the order carries no meaning).
pub open spec fn query_pairs(params: Seq<(Seq<char>, Seq<char>)>) -> Seq<char>
    decreases params.len(),
{
    if params.len() == 0 {
        Seq::empty()
    } else {
        let last = params.last();
        let item = last.0 + "="@ + last.1;
        if params.len() == 1 {
            item
        } else {
            query_pairs(params.drop_last()) + "&"@ + item
        }
    }
}

pub open spec fn spec_query_string(params: Seq<(Seq<char>, Seq<char>)>) -> Seq<char> {
    if params.len() == 0 {
        Seq::empty()
    } else {
        "?"@ + query_pairs(params)
    }
}

/// The target URL: base joined with endpoint, then the query string.
pub open spec fn spec_url(
    base: Seq<char>,
    endpoint: Seq<char>,
    params: Seq<(Seq<char>, Seq<char>)>,
) -> Seq<char> {
    base + endpoint + spec_query_string(params)
}

/// Joins base URL and endpoint and appends the query parameters in their
/// mapping's iteration order.
pub fn build_url(base_url: &str, endpoint: &str, query_params: &Vec<(String, String)>) -> (r:
    String)
    ensures
        r@ == spec_url(base_url@, endpoint@, pairs_view(query_params@)),
{
    let mut url: String = base_url.to_owned();
    url.append(endpoint);
    let n: usize = query_params.len();
    proof {
        assert(pairs_view(query_params@.take(0)) =~= Seq::<(Seq<char>, Seq<char>)>::empty());
        assert(url@ =~= spec_url(base_url@, endpoint@, pairs_view(query_params@.take(0))));
    }
    for i in 0..n
        invariant
            n == query_params@.len(),
            url@ == spec_url(base_url@, endpoint@, pairs_view(query_params@.take(i as int))),
    {
        if i == 0 {
            url.append("?");
        } else {
            url.append("&");
        }
        url.append(query_params[i].0.as_str());
        url.append("=");
        url.append(query_params[i].1.as_str());
        proof {
            let qv1 = pairs_view(query_params@.take(i + 1));
            assert(qv1.drop_last() =~= pairs_view(query_params@.take(i as int)));
            assert(qv1.last() == (query_params@[i as int].0@, query_params@[i as int].1@));
            assert(url@ =~= spec_url(base_url@, endpoint@, qv1));
        }
    }
    proof {
        assert(query_params@.take(n as int) =~= query_params@);
    }
    url
}

/// Everything the transport needs for one request of a scenario.
#[derive(Clone, Debug)]
pub struct RequestPlan {
    pub method: HttpMethod,
    pub url: String,
    pub body: RequestBody,
    pub raw_ignored: bool,
}

/// Plans one request: the built URL, the resolved body, and whether the raw
/// body was ignored. A method outside the transport's capability table
/// yields a ready failure outcome instead — permissively, before any send.
pub fn plan_request(base_url: &str, s: &Scenario) -> (r: Result<RequestPlan, RequestOutcome>)
    ensures
        match r {
            Ok(plan) => {
                &&& s.method.spec_supported()
                &&& plan.method == s.method
                &&& plan.url@ == spec_url(base_url@, s.endpoint@, pairs_view(s.query_params@))
                &&& plan.body == spec_request_body(*s)
                &&& plan.raw_ignored == spec_raw_ignored(*s)
            },
            Err(out) => {
                &&& !s.method.spec_supported()
                &&& out.wf()
                &&& !out.success
                &&& out.failure == Some(FailureReason::UnsupportedMethod)
                &&& out.latency_ms == 0
            },
        },
{
    if !s.method.supported() {
        return Err(
            RequestOutcome {
                latency_ms: 0,
                success: false,
                failure: Some(FailureReason::UnsupportedMethod),
                extracted: Vec::new(),
            },
        );
    }
    let body: RequestBody = match &s.json_content {
        Some(j) => RequestBody::Json(j.clone()),
        None => match &s.raw_content {
            Some(raw) => RequestBody::Raw(raw.clone()),
            None => RequestBody::Empty,
        },
    };
    let raw_ignored: bool = s.json_content.is_some() && s.raw_content.is_some();
    Ok(
        RequestPlan {
            method: s.method,
            url: build_url(base_url, s.endpoint.as_str(), &s.query_params),
            body,
            raw_ignored,
        },
    )
}

/// Classifies one transport reply into the outcome the aggregator consumes:
/// a 2xx response is a success and gets extraction; any other status is a
/// failure carrying that status; a transport error is a failure carrying its
/// message. Extraction is never attempted on a failure.
pub fn outcome_of_reply(rules: &Option<ResponseExtraction>, reply: TransportReply) -> (r:
    RequestOutcome)
    ensures
        r.wf(),
        match reply {
            TransportReply::Response { status, elapsed_ms, body } => {
                &&& r.latency_ms == elapsed_ms
                &&& r.success == is_success_status(status)
                &&& if is_success_status(status) {
                    &&& r.failure is None
                    &&& match *rules {
                        Some(ex) => pairs_view(r.extracted@) == extracted_views(
                            pairs_view(ex.extract@),
                            body@,
                        ),
                        None => r.extracted@.len() == 0,
                    }
                } else {
                    r.failure == Some(FailureReason::HttpStatus(status))
                }
            },
            TransportReply::Failure { message } => {
                &&& !r.success
                &&& r.latency_ms == 0
                &&& r.failure == Some(FailureReason::Transport(message))
            },
        },
{
    match reply {
        TransportReply::Response { status, elapsed_ms, body } => {
            if status_is_success(status) {
                let extracted: Vec<(String, String)> = match rules {
                    Some(ex) => extract_fields(&ex.extract, body.as_str()),
                    None => Vec::new(),
                };
                RequestOutcome { latency_ms: elapsed_ms, success: true, failure: None, extracted }
            } else {
                RequestOutcome {
                    latency_ms: elapsed_ms,
                    success: false,
                    failure: Some(FailureReason::HttpStatus(status)),
                    extracted: Vec::new(),
                }
            }
        },
        TransportReply::Failure { message } => {
            RequestOutcome {
                latency_ms: 0,
                success: false,
                failure: Some(FailureReason::Transport(message)),
                extracted: Vec::new(),
            }
        },
    }
}

/// Relies on rand::thread_rng and rand::Rng::gen_range: a uniform draw in
/// `[lo, hi)`, which panics on an empty range (ruled out here).
#[verifier::external_body]
fn rand_range_u32(lo: u32, hi: u32) -> (r: u32)
    requires
        lo < hi,
    ensures
        lo <= r < hi,
{
    rand::thread_rng().gen_range(lo..hi)
}

/// Dry-run failure probability, per mille.
pub const MOCK_FAIL_PER_MILLE: u32 = 10;

pub const MOCK_MIN_LATENCY_MS: u32 = 10;

pub const MOCK_MAX_LATENCY_MS: u32 = 500;

/// Builds the dry-run outcome from the two draws: the roll decides failure
/// against the fixed probability, and the drawn latency stands as the
/// measured one exactly when the request counts as successful.
pub fn mock_outcome_of_draws(roll: u32, latency_ms: u32) -> (r: RequestOutcome)
    ensures
        r.wf(),
        r.extracted@.len() == 0,
        r.success == (roll >= MOCK_FAIL_PER_MILLE),
        r.success ==> r.latency_ms == latency_ms,
        !r.success ==> r.latency_ms == 0 && (r.failure matches Some(
            FailureReason::Transport(_),
        )),
{
    if roll < MOCK_FAIL_PER_MILLE {
        RequestOutcome {
            latency_ms: 0,
            success: false,
            failure: Some(FailureReason::Transport(String::from_str("simulated failure"))),
            extracted: Vec::new(),
        }
    } else {
        RequestOutcome {
            latency_ms,
            success: true,
            failure: None,
            extracted: Vec::new(),
        }
    }
}

/// Synthesizes one dry-run outcome in place of a transport call: a fixed
/// small failure probability and a randomized plausible latency. The draws
/// are random; everything after them is `mock_outcome_of_draws`.
pub fn mock_outcome() -> (r: RequestOutcome)
    ensures
        r.wf(),
        r.extracted@.len() == 0,
        r.success ==> MOCK_MIN_LATENCY_MS <= r.latency_ms < MOCK_MAX_LATENCY_MS,
        !r.success ==> r.latency_ms == 0 && (r.failure matches Some(
            FailureReason::Transport(_),
        )),
{
    let roll: u32 = rand_range_u32(0, 1000);
    let latency_ms: u32 = rand_range_u32(MOCK_MIN_LATENCY_MS, MOCK_MAX_LATENCY_MS);
    mock_outcome_of_draws(roll, latency_ms)
}

} // verus!
