//! The listener for probes and metrics.
use crate::config::AppConfig;
use crate::metrics;
use crate::metrics::{Metrics, MetricsSnapshot};
use crate::text;
use std::sync::Arc;
use vstd::prelude::*;

verus! {

/// A healthcheck listener. `M` shares the metrics and `R` the readiness with other
/// listeners.
pub struct HealthcheckServer<M, R> {
    pub config: Arc<AppConfig>,
    pub metrics: M,
    pub ready: R,
}

impl<M, R> HealthcheckServer<M, R> {
    /// A listener that tells of the given metrics and readiness.
    pub fn with_metrics_and_readiness(config: Arc<AppConfig>, metrics: M, ready: R) -> (r: Self)
        ensures
            r.config == config,
            r.metrics == metrics,
            r.ready == ready,
    {
        HealthcheckServer { config, metrics, ready }
    }
}

/// The body of an answer.
#[derive(Debug, Clone)]
pub enum HealthBody {
    Text(String),
    /// The counters, as a JSON object.
    Counters(MetricsSnapshot),
}

/// An answer.
#[derive(Debug, Clone)]
pub struct HealthResponse {
    pub status: u16,
    pub content_type: Option<String>,
    pub body: HealthBody,
}

/// What a probe asks for.
pub enum Probe {
    /// The method is not GET.
    WrongMethod,
    Live,
    Ready,
    Metrics,
    MetricsJson,
    Health,
    Unknown,
}

/// What a probe asks for. The configured path counts only where it is none of the fixed
/// ones.
pub open spec fn probe(
    method: Seq<char>,
    path: Seq<char>,
    healthcheck_path: Seq<char>,
) -> Probe {
    if method != "GET"@ {
        Probe::WrongMethod
    } else if path == "/live"@ {
        Probe::Live
    } else if path == "/ready"@ {
        Probe::Ready
    } else if path == "/metrics"@ || path == "/stats"@ {
        Probe::Metrics
    } else if path == "/metrics/json"@ {
        Probe::MetricsJson
    } else if path == healthcheck_path {
        Probe::Health
    } else {
        Probe::Unknown
    }
}

/// Whether a text stands for itself in JSON: it has neither quotation marks nor
/// backslashes nor control characters.
pub open spec fn is_json_text(s: Seq<char>) -> bool {
    forall|i: int|
        0 <= i < s.len() ==> ((#[trigger] s[i]) as u32) >= 32 && s[i] != '"' && s[i] != '\\'
}

/// Whether a text stands before another in the order of their characters.
pub open spec fn comes_before(a: Seq<char>, b: Seq<char>) -> bool
    decreases a.len(),
{
    if b.len() == 0 {
        false
    } else if a.len() == 0 {
        true
    } else if a[0] != b[0] {
        a[0] < b[0]
    } else {
        comes_before(a.skip(1), b.skip(1))
    }
}

/// A JSON object with two texts.
pub open spec fn json_object(
    first_key: Seq<char>,
    first: Seq<char>,
    second_key: Seq<char>,
    second: Seq<char>,
) -> Seq<char> {
    "{\""@ + first_key + "\":\""@ + first + "\",\""@ + second_key + "\":\""@ + second + "\"}"@
}

/// Calls `to_string` on an object `Value` of the `serde_json` crate: an object of two
/// texts that stand for themselves is written without spaces, in the order of its keys,
/// each key and value in quotation marks.
#[verifier::external_body]
fn write_json(first_key: &str, first: &str, second_key: &str, second: &str) -> (r: String)
    requires
        is_json_text(first_key@),
        is_json_text(first@),
        is_json_text(second_key@),
        is_json_text(second@),
        comes_before(first_key@, second_key@),
    ensures
        r@ == json_object(first_key@, first@, second_key@, second@),
{
    let mut object = serde_json::Map::new();
    object.insert(first_key.to_string(), serde_json::Value::String(first.to_string()));
    object.insert(second_key.to_string(), serde_json::Value::String(second.to_string()));
    serde_json::Value::Object(object).to_string()
}

/// The status for a readiness.
pub open spec fn ready_status(ready: bool) -> u16 {
    if ready {
        200
    } else {
        503
    }
}

/// The word for a readiness.
pub open spec fn ready_word(ready: bool) -> Seq<char> {
    if ready {
        "ready"@
    } else {
        "not_ready"@
    }
}

impl HealthResponse {
    /// Whether an answer is the given text.
    pub open spec fn says(&self, status: u16, content_type: Option<Seq<char>>, body: Seq<char>)
        -> bool {
        &&& self.status == status
        &&& match content_type {
            Some(wanted) => self.content_type matches Some(found) && found@ == wanted,
            None => self.content_type is None,
        }
        &&& self.body matches HealthBody::Text(found) && found@ == body
    }

    /// Whether this is the answer to a probe.
    pub open spec fn answers(
        &self,
        probe: Probe,
        ready: bool,
        counters: MetricsSnapshot,
        duration_seconds: Seq<char>,
    ) -> bool {
        let json = Some("application/json"@);
        match probe {
            Probe::WrongMethod => self.says(405, None, "Method not allowed"@),
            Probe::Live => self.says(200, json, "{\"status\":\"live\"}"@),
            Probe::Ready => self.says(
                ready_status(ready),
                json,
                if ready {
                    "{\"status\":\"ready\"}"@
                } else {
                    "{\"status\":\"not_ready\"}"@
                },
            ),
            Probe::Metrics => self.says(
                200,
                Some("text/plain; version=0.0.4"@),
                metrics::prometheus_text(counters, duration_seconds),
            ),
            Probe::MetricsJson => {
                &&& self.status == 200
                &&& self.content_type matches Some(found) && found@ == "application/json"@
                &&& self.body == HealthBody::Counters(counters)
            },
            Probe::Unknown => self.says(404, None, "Not found"@),
            Probe::Health => self.says(
                ready_status(ready),
                json,
                json_object("service"@, "dns-proxy"@, "status"@, ready_word(ready)),
            ),
        }
    }
}

fn text_response(status: u16, content_type: Option<&str>, body: &str) -> (r: HealthResponse)
    ensures
        r.says(
            status,
            match content_type {
                Some(named) => Some(named@),
                None => None,
            },
            body@,
        ),
{
    HealthResponse {
        status,
        content_type: match content_type {
            Some(named) => Some(named.to_owned()),
            None => None,
        },
        body: HealthBody::Text(body.to_owned()),
    }
}

/// The answer to a probe. `duration_seconds` is the time spent on requests, as it is
/// written for the metrics.
pub fn handle_healthcheck(
    method: &str,
    path: &str,
    healthcheck_path: &str,
    metrics: &Metrics,
    duration_seconds: &str,
    ready: bool,
) -> (r: HealthResponse)
    ensures
        r.answers(
            probe(method@, path@, healthcheck_path@),
            ready,
            metrics@,
            duration_seconds@,
        ),
{
    if !text::same(method, "GET") {
        return text_response(405, None, "Method not allowed");
    }
    let status: u16 = if ready {
        200
    } else {
        503
    };
    if text::same(path, "/live") {
        return text_response(200, Some("application/json"), "{\"status\":\"live\"}");
    }
    if text::same(path, "/ready") {
        let body = if ready {
            "{\"status\":\"ready\"}"
        } else {
            "{\"status\":\"not_ready\"}"
        };
        return text_response(status, Some("application/json"), body);
    }
    if text::same(path, "/metrics") || text::same(path, "/stats") {
        let body = metrics.prometheus(duration_seconds);
        return text_response(200, Some("text/plain; version=0.0.4"), body.as_str());
    }
    if text::same(path, "/metrics/json") {
        return HealthResponse {
            status: 200,
            content_type: Some("application/json".to_owned()),
            body: HealthBody::Counters(metrics.snapshot()),
        };
    }
    if !text::same(path, healthcheck_path) {
        return text_response(404, None, "Not found");
    }
    let word = if ready {
        "ready"
    } else {
        "not_ready"
    };
    proof {
        reveal_strlit("service");
        reveal_strlit("dns-proxy");
        reveal_strlit("status");
        reveal_strlit("ready");
        reveal_strlit("not_ready");
        reveal_with_fuel(comes_before, 2);
    }
    let body = write_json("service", "dns-proxy", "status", word);
    text_response(status, Some("application/json"), body.as_str())
}

/// The readiness probe and the health probe succeed exactly while the proxy is ready;
/// the liveness probe always does.
pub proof fn probes_tell_readiness(
    response: HealthResponse,
    probe: Probe,
    ready: bool,
    counters: MetricsSnapshot,
    duration_seconds: Seq<char>,
)
    requires
        response.answers(probe, ready, counters, duration_seconds),
    ensures
        probe is Ready || probe is Health ==> (response.status == 200 <==> ready),
        probe is Live ==> response.status == 200,
{
}

/// Which probe a request is, by its method and path: only GET counts, `/live`, `/ready`,
/// `/metrics`, `/stats` and `/metrics/json` are fixed, and any other path is the health probe
/// exactly where it is the configured one.
pub proof fn probes_by_path(path: Seq<char>, healthcheck_path: Seq<char>, method: Seq<char>)
    ensures
        method != "GET"@ ==> probe(method, path, healthcheck_path) is WrongMethod,
        probe("GET"@, "/live"@, healthcheck_path) is Live,
        probe("GET"@, "/ready"@, healthcheck_path) is Ready,
        probe("GET"@, "/metrics"@, healthcheck_path) is Metrics,
        probe("GET"@, "/stats"@, healthcheck_path) is Metrics,
        probe("GET"@, "/metrics/json"@, healthcheck_path) is MetricsJson,
        path != "/live"@ && path != "/ready"@ && path != "/metrics"@ && path != "/stats"@ && path
            != "/metrics/json"@ ==> {
            &&& path == healthcheck_path ==> probe("GET"@, path, healthcheck_path) is Health
            &&& path != healthcheck_path ==> probe("GET"@, path, healthcheck_path) is Unknown
        },
{
    reveal_strlit("/live");
    reveal_strlit("/ready");
    reveal_strlit("/metrics");
    reveal_strlit("/stats");
    reveal_strlit("/metrics/json");
    assert("/live"@.len() == 5 && "/ready"@.len() == 6 && "/metrics"@.len() == 8 && "/stats"@.len()
        == 6 && "/metrics/json"@.len() == 13);
    assert("/ready"@[1] != "/stats"@[1]);
}

/// What each probe is answered: the readiness probes 200 while the proxy is ready and 503
/// otherwise, with a word for it; the metrics their text or the counters themselves; another
/// method 405 and another path 404.
pub proof fn probes_are_answered_by_kind(
    response: HealthResponse,
    probe: Probe,
    ready: bool,
    counters: MetricsSnapshot,
    duration_seconds: Seq<char>,
)
    requires
        response.answers(probe, ready, counters, duration_seconds),
    ensures
        probe is WrongMethod ==> response.status == 405,
        probe is Unknown ==> response.status == 404,
        probe is Live || probe is Metrics || probe is MetricsJson ==> response.status == 200,
        probe is Ready || probe is Health ==> response.status == if ready {
            200u16
        } else {
            503
        },
        probe is Metrics ==> (response.body matches HealthBody::Text(shown) && shown@
            == metrics::prometheus_text(counters, duration_seconds)),
        probe is MetricsJson ==> response.body == HealthBody::Counters(counters),
        probe is Ready ==> (response.body matches HealthBody::Text(shown) && text::has_text(
            shown@,
            if ready {
                "\"ready\""@
            } else {
                "\"not_ready\""@
            },
        )),
        probe is Health ==> (response.body matches HealthBody::Text(shown) && text::has_text(
            shown@,
            if ready {
                "\"ready\""@
            } else {
                "\"not_ready\""@
            },
        )),
{
    reveal_strlit("\"ready\"");
    reveal_strlit("\"not_ready\"");
    reveal_strlit("{\"status\":\"ready\"}");
    reveal_strlit("{\"status\":\"not_ready\"}");
    reveal_strlit("{\"status\":");
    reveal_strlit("}");
    reveal_strlit("ready");
    reveal_strlit("not_ready");
    reveal_strlit("\":\"");
    reveal_strlit("\"}");
    reveal_strlit("\":");
    let end = "}"@;
    if probe is Ready {
        let shown = response.body->Text_0@;
        let word = if ready {
            "\"ready\""@
        } else {
            "\"not_ready\""@
        };
        assert(shown == "{\"status\":"@ + word + end);
        text::texts_are_found_where_they_stand("{\"status\":"@, word, end, shown);
    }
    if probe is Health {
        let shown = response.body->Text_0@;
        let word = if ready {
            "\"ready\""@
        } else {
            "\"not_ready\""@
        };
        let front = "{\""@ + "service"@ + "\":\""@ + "dns-proxy"@ + "\",\""@ + "status"@ + "\":"@;
        assert("\":\""@ + ready_word(ready) + "\"}"@ == "\":"@ + word + end);
        assert(shown == front + word + end);
        text::texts_are_found_where_they_stand(front, word, end, shown);
    }
}

/// Probes are answered in JSON, the metrics in their text format, and what is refused without
/// a type.
pub proof fn answers_have_their_types(
    response: HealthResponse,
    probe: Probe,
    ready: bool,
    counters: MetricsSnapshot,
    duration_seconds: Seq<char>,
)
    requires
        response.answers(probe, ready, counters, duration_seconds),
    ensures
        probe is Live || probe is Ready || probe is Health || probe is MetricsJson ==> (
        response.content_type matches Some(named) && named@ == "application/json"@),
        probe is Metrics ==> (response.content_type matches Some(named) && named@
            == "text/plain; version=0.0.4"@),
        probe is Unknown || probe is WrongMethod ==> response.content_type is None,
{
}

} // verus!
