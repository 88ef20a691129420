use dns_ingress::config::{HttpUpstreamConfig, RewriteConfig};
use dns_ingress::metrics::Metrics;
use dns_ingress::proxy::http::{
    doh_error_response, error_status, start_request, DohForward, DohPlan, DohStart,
};
use dns_ingress::proxy::request::{
    dns_parameter, is_dns_message_content_type, judge_parameter, judge_query, upstream_uri,
    validate_dns_message, validate_doh_get_query, QueryError, RequestHead,
};
use dns_ingress::rewriters::base::BaseSniRewriter;
use dns_ingress::sni::RewriteResult;
use dns_ingress::utils::normalize_hostname;

#[test]
fn get_dns_parameter_requires_decodable_dns_wire_message() {
    let valid = hyper::Uri::from_static("/dns-query?dns=AAAAAAAAAAAAAAAA");
    assert!(validate_doh_get_query(valid.query(), "DoH").is_ok());

    let malformed = hyper::Uri::from_static("/dns-query?dns=not%2Bbase64");
    assert!(validate_doh_get_query(malformed.query(), "DoH").is_err());
    assert!(validate_dns_message(&[0; 11], "test").is_err());
}

#[test]
fn dns_messages_have_a_header_and_fit_in_sixteen_bits() {
    assert_eq!(validate_dns_message(&[0; 12], "test"), Ok(()));
    assert_eq!(validate_dns_message(&vec![0; 65535], "test"), Ok(()));
    assert_eq!(
        validate_dns_message(&vec![0; 65536], "test"),
        Err("test must contain one DNS message between 12 and 65535 bytes".to_string())
    );
}

#[test]
fn queries_are_judged_by_their_dns_parameter() {
    assert_eq!(judge_query(None), Some(QueryError::Missing));
    assert_eq!(judge_query(Some("name=dns")), Some(QueryError::Missing));
    assert_eq!(judge_query(Some("dns")), Some(QueryError::Missing));
    assert_eq!(judge_query(Some("dns=")), Some(QueryError::NotBase64));
    assert_eq!(judge_query(Some("dns=AAAAAAAAAAAAAAAA==")), Some(QueryError::NotBase64));
    assert_eq!(judge_query(Some("dns=AAAA")), Some(QueryError::BadLength));
    assert_eq!(judge_query(Some("a=b&dns=AAAAAAAAAAAAAAAA&dns=")), None);
    assert_eq!(judge_query(Some("dns=-_-_AAAAAAAAAAAA")), None);
    assert_eq!(judge_query(Some("dns=+/+/AAAAAAAAAAAA")), Some(QueryError::NotBase64));
    assert_eq!(
        validate_doh_get_query(Some("x=1"), "DoH3"),
        Err("DoH3 GET requests require a non-empty dns query parameter".to_string())
    );
    assert_eq!(
        validate_doh_get_query(Some("dns=?"), "DoH"),
        Err("DoH dns query parameter must be unpadded base64url".to_string())
    );
    assert_eq!(
        validate_doh_get_query(Some("dns=AAAA"), "DoH"),
        Err("DoH GET dns query parameter must contain one DNS message between 12 and 65535 bytes"
            .to_string())
    );
}

#[test]
fn parameters_are_judged_by_what_they_decode_to() {
    assert_eq!(judge_parameter(None, None), Some(QueryError::Missing));
    assert_eq!(judge_parameter(Some(""), Some(&vec![0; 12])), Some(QueryError::NotBase64));
    assert_eq!(judge_parameter(Some("x"), None), Some(QueryError::NotBase64));
    assert_eq!(judge_parameter(Some("x"), Some(&vec![0; 11])), Some(QueryError::BadLength));
    assert_eq!(judge_parameter(Some("x"), Some(&vec![0; 12])), None);
    assert_eq!(dns_parameter(Some("a=1&dns=x=y&dns=z")), Some("x=y".to_string()));
    assert_eq!(dns_parameter(Some("")), None);
}

#[test]
fn content_types_are_compared_without_parameters_and_case() {
    assert!(is_dns_message_content_type(Some("application/dns-message")));
    assert!(is_dns_message_content_type(Some(" Application/DNS-Message ; charset=utf-8")));
    assert!(!is_dns_message_content_type(Some("application/dns-json")));
    assert!(!is_dns_message_content_type(Some("")));
    assert!(!is_dns_message_content_type(None));
}

#[test]
fn hosts_are_brought_into_canonical_form() {
    assert_eq!(normalize_hostname("WWW.Example.com.:443"), Some("www.example.com".to_string()));
    assert_eq!(normalize_hostname("www.example.com"), Some("www.example.com".to_string()));
    assert_eq!(normalize_hostname("user@example.com"), Some("example.com".to_string()));
    assert_eq!(normalize_hostname("a_b.example.com"), None);
    assert_eq!(normalize_hostname("[::1]:443"), None);
    assert_eq!(normalize_hostname(""), None);
    assert_eq!(normalize_hostname("two words"), None);
}

#[test]
fn upstream_uris_keep_the_query() {
    assert_eq!(
        upstream_uri("www.example.cn", 443, "/dns-query", Some("dns=AAAA")),
        "https://www.example.cn:443/dns-query?dns=AAAA"
    );
    assert_eq!(upstream_uri("a.b", 8443, "/q", None), "https://a.b:8443/q");
}

fn rewriter() -> BaseSniRewriter {
    BaseSniRewriter::new(RewriteConfig {
        base_domains: vec!["example.com".to_string()],
        target_suffix: ".example.cn".to_string(),
    })
}

fn endpoint() -> HttpUpstreamConfig {
    HttpUpstreamConfig { port: 443, path: "/dns-query".to_string() }
}

fn get() -> RequestHead {
    RequestHead {
        method: "GET".to_string(),
        uri: "/dns-query?dns=AAAAAAAAAAAAAAAA".to_string(),
        path: "/dns-query".to_string(),
        query: Some("dns=AAAAAAAAAAAAAAAA".to_string()),
        authority: None,
        host: Some("www.example.com".to_string()),
        content_type: None,
    }
}

fn post() -> RequestHead {
    RequestHead {
        method: "POST".to_string(),
        uri: "/dns-query".to_string(),
        path: "/dns-query".to_string(),
        query: None,
        authority: Some("www.example.com:443".to_string()),
        host: None,
        content_type: Some("application/dns-message".to_string()),
    }
}

fn start(head: &RequestHead) -> DohStart {
    let mut metrics = Metrics::new();
    start_request(head, "/dns-query", "www.example.com", &rewriter(), &endpoint(), &mut metrics)
}

fn refusal(head: &RequestHead) -> (u16, String) {
    match start(head) {
        DohStart::Refuse(response) => {
            assert_eq!(response.content_type, "text/plain; charset=utf-8");
            (response.status, response.body)
        }
        other => panic!("not refused: {other:?}"),
    }
}

#[test]
fn get_requests_go_upstream_at_once() {
    let mut metrics = Metrics::new();
    let started = start_request(
        &get(),
        "/dns-query",
        "www.example.com",
        &rewriter(),
        &endpoint(),
        &mut metrics,
    );
    match started {
        DohStart::Forward(forward) => {
            assert!(forward.body.is_empty());
            assert_eq!(forward.plan.rewrite.target_hostname, "www.example.cn");
            assert_eq!(
                forward.plan.upstream_uri,
                "https://www.example.cn:443/dns-query?dns=AAAAAAAAAAAAAAAA"
            );
        }
        other => panic!("not forwarded: {other:?}"),
    }
    assert_eq!(metrics.snapshot().sni_rewrites, 1);
}

#[test]
fn refused_requests_are_answered_by_their_reason() {
    let mut head = get();
    head.path = "/other".to_string();
    assert_eq!(refusal(&head), (404, "DoH request path must be /dns-query".to_string()));

    let mut head = get();
    head.host = None;
    assert_eq!(
        refusal(&head),
        (400, "Failed to extract Host header from request".to_string())
    );

    let mut head = get();
    head.host = Some("a_b".to_string());
    assert_eq!(refusal(&head), (400, "Invalid DoH Host header".to_string()));

    let mut head = get();
    head.host = Some("other.example.com".to_string());
    assert_eq!(
        refusal(&head),
        (400, "DoH Host (other.example.com) does not match TLS SNI (www.example.com)".to_string())
    );

    let mut head = get();
    head.method = "PUT".to_string();
    assert_eq!(refusal(&head), (405, "DoH only supports GET and POST".to_string()));

    let mut head = get();
    head.query = None;
    assert_eq!(
        refusal(&head),
        (400, "DoH GET requests require a non-empty dns query parameter".to_string())
    );
    head.query = Some("dns=AAAA".to_string());
    assert_eq!(refusal(&head).0, 413);

    let mut head = post();
    head.content_type = Some("text/plain".to_string());
    assert_eq!(
        refusal(&head),
        (415, "DoH POST Content-Type must be application/dns-message".to_string())
    );

    let mut metrics = Metrics::new();
    let mut head = get();
    head.host = Some("www.example.org".to_string());
    match start_request(
        &head,
        "/dns-query",
        "www.example.org",
        &rewriter(),
        &endpoint(),
        &mut metrics,
    ) {
        DohStart::Refuse(response) => {
            assert_eq!(response.status, 400);
            assert_eq!(response.body, "SNI rewrite operation failed");
        }
        other => panic!("not refused: {other:?}"),
    }
    assert_eq!(metrics.snapshot().sni_rewrites, 0);
}

#[test]
fn post_bodies_must_be_dns_messages() {
    let plan = || match start(&post()) {
        DohStart::ReadBody(plan) => plan,
        other => panic!("no body wanted: {other:?}"),
    };
    assert_eq!(plan().upstream_uri, "https://www.example.cn:443/dns-query");
    let forward = plan().receive_body(Ok(vec![7; 12])).unwrap();
    assert_eq!(forward.body, vec![7; 12]);
    let short = plan().receive_body(Ok(vec![7; 11])).unwrap_err();
    assert_eq!(short.status, 413);
    let unread = plan().receive_body(Err("length limit exceeded".to_string())).unwrap_err();
    assert_eq!(unread.status, 413);
    assert_eq!(
        unread.body,
        "DoH request body exceeds the DNS message limit or could not be read: length limit exceeded"
    );
}

fn forwarded() -> DohForward {
    DohForward {
        plan: DohPlan {
            rewrite: RewriteResult {
                original: "www.example.com".to_string(),
                prefix: "www".to_string(),
                target_hostname: "www.example.cn".to_string(),
            },
            upstream_uri: "https://www.example.cn:443/dns-query".to_string(),
        },
        body: vec![0; 20],
    }
}

#[test]
fn outcomes_are_counted() {
    let mut metrics = Metrics::new();
    assert!(forwarded().settle(&Ok((200, 100)), 1500, &mut metrics).is_none());
    assert!(forwarded().settle(&Ok((500, 10)), 500, &mut metrics).is_none());
    let response =
        forwarded().settle(&Err("no route".to_string()), 1000, &mut metrics).unwrap();
    assert_eq!(response.status, 502);
    assert_eq!(
        response.body,
        "Failed to forward HTTP request to upstream: https://www.example.cn:443/dns-query"
    );
    let counters = metrics.snapshot();
    assert_eq!(counters.total_requests, 3);
    assert_eq!(counters.successful_requests, 1);
    assert_eq!(counters.failed_requests, 2);
    assert_eq!(counters.bytes_received, 60);
    assert_eq!(counters.bytes_sent, 110);
    assert_eq!(counters.upstream_errors, 2);
    assert_eq!(counters.processing_duration_micros, 3000);
}

#[test]
fn messages_tell_their_status() {
    assert_eq!(error_status("a request path"), 404);
    assert_eq!(error_status("only supports GET and POST"), 405);
    assert_eq!(error_status("Content-Type"), 415);
    assert_eq!(error_status("exceeds the DNS message limit"), 413);
    assert_eq!(error_status("65535 bytes"), 413);
    assert_eq!(error_status("bad upstream response"), 502);
    assert_eq!(error_status("anything else"), 400);
    assert_eq!(doh_error_response("anything else".to_string()).body, "anything else");
}

#[test]
fn parameters_are_spelled_in_unpadded_base64url() {
    let judge = |value: &str| judge_query(Some(format!("dns={value}").as_str()));
    assert_eq!(judge("AAAAAAAAAAAAAAAA"), None);
    assert_eq!(judge("__--azAZ09AAAAAA"), None);
    assert_eq!(judge("AAAAAAAAAAAAAAAAAA"), None);
    assert_eq!(judge("AAAAAAAAAAAAAAAAAB"), Some(QueryError::NotBase64));
    assert_eq!(judge("AAAAAAAAAAAAAAAAA"), Some(QueryError::NotBase64));
    assert_eq!(judge("AAAAAAAAAAAAAAAAAA=="), Some(QueryError::NotBase64));
    assert_eq!(judge("++//AAAAAAAAAAAA"), Some(QueryError::NotBase64));
    assert_eq!(judge("AAAAAAAAAAAAAAA"), Some(QueryError::BadLength));
    assert_eq!(judge(&"A".repeat(87380)), None);
    assert_eq!(judge(&"A".repeat(87384)), Some(QueryError::BadLength));
}
