use dns_ingress::config::{AppConfig, HttpUpstreamConfig, RewriteConfig};
use dns_ingress::error::DnsProxyError;
use dns_ingress::metrics::Metrics;
use dns_ingress::proxy::request::RequestHead;
use dns_ingress::quic::config::QuicApplication;
use dns_ingress::readers::doh::connection_server_name;
use dns_ingress::readers::doh3;
use dns_ingress::readers::doh3::{Doh3Action, Doh3Event, Doh3Exchange};
use dns_ingress::readers::doq::{
    close_for_unidirectional_stream, settle_transaction, upstream_of_connection,
};
use dns_ingress::readers::dot::{DotAction, DotConnection, DotEvent};
use dns_ingress::readers::healthcheck::{handle_healthcheck, HealthBody, HealthResponse};
use dns_ingress::readers::listener::{
    alpn_protocols, Listener, ListenerAction, ListenerEvent, ServerKind,
};
use dns_ingress::readers::streams::{StreamAction, StreamEvent, StreamLoop};
use dns_ingress::readers::{DoH3Server, DoHServer, DoQServer, DoTServer, HealthcheckServer};
use dns_ingress::rewrite::{create_rewriter, SniRewriterType};
use dns_ingress::upstream::headers::HeaderField;
use dns_ingress::utils::backoff::BackoffCounter;
use std::sync::Arc;

fn create_test_rewriter() -> SniRewriterType {
    create_rewriter(RewriteConfig {
        base_domains: vec!["example.com".to_string()],
        target_suffix: ".example.cn".to_string(),
    })
}

#[test]
fn test_healthcheck_server_new() {
    let config = Arc::new(AppConfig::default());
    let _server = HealthcheckServer::with_metrics_and_readiness(
        config,
        Arc::new(Metrics::new()),
        Arc::new(std::sync::atomic::AtomicBool::new(true)),
    );
}

#[test]
fn test_dot_server_new() {
    let config = Arc::new(AppConfig::default());
    let rewriter = create_test_rewriter();
    let metrics = Arc::new(Metrics::new());
    let server = DoTServer::new(config, rewriter, metrics);
    assert!(server.root_store.is_none());
}

#[test]
fn test_doh_server_new() {
    let config = Arc::new(AppConfig::default());
    let rewriter = create_test_rewriter();
    let metrics = Arc::new(Metrics::new());
    let mut server = DoHServer::new(config, rewriter, metrics, &vec![]).unwrap();
    assert!(server.pool.get_client("a").is_new);
}

#[test]
fn test_doq_server_new() {
    let config = Arc::new(AppConfig::default());
    let rewriter = create_test_rewriter();
    let metrics = Arc::new(Metrics::new());
    let server = DoQServer::new(config, rewriter, metrics, &vec![], None).unwrap();
    assert!(!server.pool.root_store.is_empty());
}

#[test]
fn test_doh3_server_new() {
    let config = Arc::new(AppConfig::default());
    let rewriter = create_test_rewriter();
    let metrics = Arc::new(Metrics::new());
    let server = DoH3Server::new(config, rewriter, metrics, &vec![], None).unwrap();
    assert!(!server.pool.root_store.is_empty());
}

fn starts_disabled(kind: ServerKind, config: &AppConfig) {
    let (_, action) = Listener::start(kind, &config.servers, BackoffCounter::new());
    assert!(matches!(action, ListenerAction::Return(Ok(()))));
}

#[test]
fn test_healthcheck_server_start_disabled() {
    let mut config = AppConfig::default();
    config.servers.healthcheck.enabled = false;
    starts_disabled(ServerKind::Healthcheck, &config);
}

#[test]
fn test_dot_server_start_disabled() {
    let mut config = AppConfig::default();
    config.servers.dot.enabled = false;
    starts_disabled(ServerKind::Dot, &config);
}

#[test]
fn test_doh_server_start_disabled() {
    let mut config = AppConfig::default();
    config.servers.doh.enabled = false;
    starts_disabled(ServerKind::Doh, &config);
}

#[test]
fn test_doq_server_start_disabled() {
    let mut config = AppConfig::default();
    config.servers.doq.enabled = false;
    starts_disabled(ServerKind::Doq, &config);
}

#[test]
fn test_doh3_server_start_disabled() {
    let mut config = AppConfig::default();
    config.servers.doh3.enabled = false;
    starts_disabled(ServerKind::Doh3, &config);
}

fn started(kind: ServerKind) -> Listener {
    let mut config = AppConfig::default();
    config.servers.doh3.enabled = true;
    Listener::start(kind, &config.servers, BackoffCounter::new()).0
}

/// Leads a DoT listener to its first failure to accept, and returns the pause.
fn first_pause(backoff: BackoffCounter) -> u64 {
    let (mut listener, _) =
        Listener::start(ServerKind::Dot, &AppConfig::default().servers, backoff);
    loop {
        match listener.step(ListenerEvent::Done).action {
            ListenerAction::Accept => break,
            ListenerAction::Return(result) => panic!("{result:?}"),
            _ => {}
        }
    }
    match listener.step(failed("reset")).action {
        ListenerAction::Pause(ms) => ms,
        other => panic!("{other:?}"),
    }
}

#[test]
fn pauses_count_on_from_the_server() {
    let rewriter = create_test_rewriter();
    let mut server = DoTServer::new(Arc::new(AppConfig::default()), rewriter, ());
    let mut fresh = BackoffCounter::new();
    let first = fresh.next_delay(100, 5000);
    let second = fresh.next_delay(100, 5000);
    assert_eq!(first_pause(BackoffCounter::new()), first);
    server.backoff.next_delay(100, 5000);
    assert_eq!(first_pause(server.backoff), second);
}

fn failed(reason: &str) -> ListenerEvent {
    ListenerEvent::Failed(reason.to_string())
}

fn returned(action: ListenerAction) -> String {
    match action {
        ListenerAction::Return(Err(error)) => error.message(),
        other => panic!("{other:?}"),
    }
}

#[test]
fn listeners_report_readiness_once_everything_is_set_up() {
    for (kind, steps) in [
        (ServerKind::Healthcheck, 1),
        (ServerKind::Dot, 2),
        (ServerKind::Doh, 2),
        (ServerKind::Doq, 2),
        (ServerKind::Doh3, 2),
    ] {
        let mut listener = started(kind);
        for step in 1..=steps {
            let taken = listener.step(ListenerEvent::Done);
            assert_eq!(matches!(taken.notice, Some(Ok(()))), step == steps);
            assert_eq!(matches!(taken.action, ListenerAction::Accept), step == steps);
        }
        let taken = listener.step(ListenerEvent::Done);
        assert!(taken.notice.is_none());
        assert!(matches!(taken.action, ListenerAction::AcquirePermit));
        assert!(matches!(listener.step(ListenerEvent::Done).action, ListenerAction::Spawn));
        let stopped = listener.step(ListenerEvent::Shutdown).action;
        match kind {
            ServerKind::Dot | ServerKind::Doh => {
                assert!(matches!(stopped, ListenerAction::Return(Ok(()))));
            }
            _ => {
                assert!(matches!(stopped, ListenerAction::CloseTasks(10)));
                let done = listener.step(ListenerEvent::Done).action;
                assert!(matches!(done, ListenerAction::Return(Ok(()))));
            }
        }
    }
}

#[test]
fn listeners_that_cannot_start_say_why() {
    let step = started(ServerKind::Dot).step(failed("no key"));
    assert_eq!(returned(step.action), "TLS error: no key");
    assert_eq!(step.notice.unwrap().unwrap_err().message(), "TLS error: TLS error: no key");

    let step = started(ServerKind::Doh).step(failed("in use"));
    assert_eq!(returned(step.action), "IO error: in use");
    assert_eq!(step.notice.unwrap().unwrap_err().message(), "IO error: in use");

    let mut listener = started(ServerKind::Doh);
    listener.step(ListenerEvent::Done);
    let step = listener.step(failed("no key"));
    assert_eq!(returned(step.action), "TLS error: no key");
    assert!(step.notice.is_none());

    let step = started(ServerKind::Doq).step(failed("invalid socket address syntax"));
    assert_eq!(
        returned(step.action),
        "Invalid input: Invalid bind address: invalid socket address syntax"
    );
    assert!(step.notice.is_none());

    let mut listener = started(ServerKind::Doh3);
    listener.step(ListenerEvent::Done);
    let step = listener.step(failed("Failed to create QUIC endpoint"));
    assert_eq!(returned(step.action), "Failed to create QUIC endpoint");
    assert_eq!(
        step.notice.unwrap().unwrap_err().message(),
        "Protocol error: Failed to create QUIC endpoint"
    );
}

#[test]
fn listeners_pause_longer_with_every_failure() {
    let mut listener = started(ServerKind::Dot);
    listener.step(ListenerEvent::Done);
    listener.step(ListenerEvent::Done);
    for wanted in [100, 200, 400] {
        match listener.step(failed("too many open files")).action {
            ListenerAction::Pause(ms) => assert_eq!(ms, wanted),
            other => panic!("{other:?}"),
        }
        assert!(matches!(listener.step(ListenerEvent::Done).action, ListenerAction::Accept));
    }
    let mut listener = started(ServerKind::Healthcheck);
    listener.step(ListenerEvent::Done);
    assert!(matches!(listener.step(failed("reset")).action, ListenerAction::Accept));
}

#[test]
fn a_doq_listener_without_permits_fails() {
    let mut listener = started(ServerKind::Doq);
    for _ in 0..3 {
        listener.step(ListenerEvent::Done);
    }
    let step = listener.step(ListenerEvent::Closed);
    assert_eq!(returned(step.action), "Protocol error: DoQ listener stopped");
    let mut listener = started(ServerKind::Doh3);
    for _ in 0..3 {
        listener.step(ListenerEvent::Done);
    }
    let step = listener.step(ListenerEvent::Closed);
    assert!(matches!(step.action, ListenerAction::CloseTasks(10)));
}

#[test]
fn listeners_offer_their_protocols() {
    assert_eq!(alpn_protocols(ServerKind::Dot), vec![b"dot".to_vec()]);
    assert_eq!(alpn_protocols(ServerKind::Doh), vec![b"h2".to_vec(), b"http/1.1".to_vec()]);
    assert_eq!(alpn_protocols(ServerKind::Doq), vec![b"doq".to_vec()]);
    assert_eq!(alpn_protocols(ServerKind::Doh3), vec![b"h3".to_vec()]);
    assert!(alpn_protocols(ServerKind::Healthcheck).is_empty());
}

#[test]
fn connections_accept_streams_until_they_are_closed() {
    let mut doq = StreamLoop::new(QuicApplication::Doq);
    assert!(matches!(doq.step(StreamEvent::Done), StreamAction::AcquirePermit));
    assert!(matches!(doq.step(StreamEvent::Done), StreamAction::Spawn));
    assert!(matches!(doq.step(StreamEvent::Closed), StreamAction::Return(Ok(()))));

    let mut doq = StreamLoop::new(QuicApplication::Doq);
    doq.step(StreamEvent::Done);
    match doq.step(StreamEvent::Closed) {
        StreamAction::Return(Err(error)) => {
            assert_eq!(error.message(), "Protocol error: DoQ connection stopped");
        }
        other => panic!("{other:?}"),
    }

    let mut h3 = StreamLoop::new(QuicApplication::H3);
    assert!(matches!(h3.step(StreamEvent::Done), StreamAction::Accept));
    let failed = StreamEvent::Failed("reset".to_string());
    assert!(matches!(h3.step(failed.clone()), StreamAction::Return(Ok(()))));
    match StreamLoop::new(QuicApplication::H3).step(failed) {
        StreamAction::Return(Err(error)) => {
            assert_eq!(error.message(), "Protocol error: Failed to create H3 connection: reset");
        }
        other => panic!("{other:?}"),
    }
    match StreamLoop::new(QuicApplication::H3).step(StreamEvent::TimedOut) {
        StreamAction::Return(Err(error)) => {
            assert_eq!(error.message(), "Timeout: DoH3 client control stream");
        }
        other => panic!("{other:?}"),
    }
}

#[test]
fn doq_connections_go_where_their_name_leads() {
    let rewriter = create_test_rewriter();
    assert_eq!(
        upstream_of_connection(Some("WWW.example.com"), &rewriter).unwrap(),
        "www.example.cn"
    );
    assert_eq!(
        upstream_of_connection(None, &rewriter).unwrap_err().message(),
        "Invalid input: DoQ requires TLS SNI hostname"
    );
    assert_eq!(
        upstream_of_connection(Some("www.example.org"), &rewriter).unwrap_err().message(),
        "No matching base domain for www.example.org"
    );
}

#[test]
fn doq_clients_that_break_the_rules_lose_their_connection() {
    let mut metrics = Metrics::new();
    assert!(settle_transaction(&Ok((14, 30)), 5, &mut metrics).is_none());
    let timeout = DnsProxyError::Timeout { upstream: "a".to_string() };
    assert!(settle_transaction(&Err(timeout), 5, &mut metrics).is_none());
    let broken = DnsProxyError::Protocol("a".to_string());
    let close = settle_transaction(&Err(broken), 5, &mut metrics).unwrap();
    assert_eq!((close.code, close.reason.as_str()), (2, "DoQ protocol error"));
    let counters = metrics.snapshot();
    assert_eq!(counters.total_requests, 3);
    assert_eq!(counters.failed_requests, 2);
    assert_eq!(counters.upstream_errors, 2);
    assert_eq!((counters.bytes_received, counters.bytes_sent), (14, 30));
    let close = close_for_unidirectional_stream();
    assert_eq!((close.code, close.reason.as_str()), (2, "DoQ unidirectional stream"));
}

fn dot() -> DotConnection {
    DotConnection::start(Some("www.example.com"), 853, &create_test_rewriter()).unwrap()
}

fn dot_error(action: DotAction) -> String {
    match action {
        DotAction::Return(Err(error)) => error.message(),
        other => panic!("{other:?}"),
    }
}

#[test]
fn dot_connections_are_relayed() {
    let mut metrics = Metrics::new();
    let mut connection = dot();
    assert_eq!(connection.target, "www.example.cn");
    assert!(matches!(connection.step(DotEvent::Done, 1, &mut metrics), DotAction::Configure));
    assert!(matches!(connection.step(DotEvent::Done, 2, &mut metrics), DotAction::Secure));
    assert!(matches!(connection.step(DotEvent::Done, 3, &mut metrics), DotAction::Relay));
    let relayed = DotEvent::Relayed { to_upstream: 100, to_client: 200 };
    assert!(matches!(connection.step(relayed, 4, &mut metrics), DotAction::Return(Ok(()))));
    let counters = metrics.snapshot();
    assert_eq!((counters.successful_requests, counters.failed_requests), (1, 0));
    assert_eq!((counters.bytes_received, counters.bytes_sent), (100, 200));
    assert_eq!(counters.processing_duration_micros, 4);
}

#[test]
fn dot_connections_that_fail_say_why() {
    let mut metrics = Metrics::new();
    let failed = || DotEvent::Failed("reset".to_string());
    assert_eq!(
        dot_error(dot().step(failed(), 0, &mut metrics)),
        "Connection to upstream www.example.cn:853 failed: Failed to connect: reset"
    );
    let mut connection = dot();
    connection.step(DotEvent::Done, 0, &mut metrics);
    let refused = DotEvent::Refused(DnsProxyError::Io("no roots".to_string()));
    assert_eq!(
        dot_error(connection.clone().step(refused, 0, &mut metrics)),
        "TLS error: IO error: no roots"
    );
    let mut odd = connection.clone();
    odd.target = "a..b".to_string();
    assert_eq!(
        dot_error(odd.step(DotEvent::Done, 0, &mut metrics)),
        "Invalid input: Failed to create ServerName for upstream connection: invalid dns name"
    );
    assert_eq!(
        dot_error(connection.clone().step_with(
            DotEvent::Done,
            Some("odd".to_string()),
            0,
            &mut metrics
        )),
        "Invalid input: Failed to create ServerName for upstream connection: odd"
    );
    connection.step(DotEvent::Done, 0, &mut metrics);
    assert_eq!(
        dot_error(connection.clone().step(failed(), 0, &mut metrics)),
        "Connection to upstream www.example.cn:853 failed: Failed to establish TLS connection: reset"
    );
    assert_eq!(metrics.snapshot().total_requests, 0);
    connection.step(DotEvent::Done, 0, &mut metrics);
    assert_eq!(dot_error(connection.step(failed(), 0, &mut metrics)), "IO error: reset");
    assert_eq!(metrics.snapshot().failed_requests, 1);

    let rewriter = create_test_rewriter();
    assert_eq!(
        DotConnection::start(None, 853, &rewriter).unwrap_err().message(),
        "Invalid input: DoT requires a TLS SNI hostname"
    );
    assert_eq!(
        DotConnection::start(Some("example.com"), 853, &rewriter).unwrap_err().message(),
        "No matching base domain for example.com"
    );
}

#[test]
fn doh_connections_need_a_server_name() {
    assert_eq!(connection_server_name(Some("WWW.Example.com")), Some("www.example.com".to_string()));
    assert_eq!(connection_server_name(None), None);
}

fn probe(method: &str, path: &str, ready: bool) -> HealthResponse {
    handle_healthcheck(method, path, "/health", &Metrics::new(), "0.000000", ready)
}

fn text(response: &HealthResponse) -> &str {
    match &response.body {
        HealthBody::Text(text) => text,
        other => panic!("{other:?}"),
    }
}

#[test]
fn probes_are_answered() {
    let json = Some("application/json".to_string());
    let live = probe("GET", "/live", false);
    assert_eq!((live.status, text(&live)), (200, r#"{"status":"live"}"#));
    assert_eq!(live.content_type, json);
    let ready = probe("GET", "/ready", true);
    assert_eq!((ready.status, text(&ready)), (200, r#"{"status":"ready"}"#));
    let unready = probe("GET", "/ready", false);
    assert_eq!((unready.status, text(&unready)), (503, r#"{"status":"not_ready"}"#));
    let health = probe("GET", "/health", true);
    assert_eq!(
        (health.status, text(&health)),
        (200, r#"{"service":"dns-proxy","status":"ready"}"#)
    );
    assert_eq!(health.content_type, json);
    let unhealthy = probe("GET", "/health", false);
    assert_eq!(
        (unhealthy.status, text(&unhealthy)),
        (503, r#"{"service":"dns-proxy","status":"not_ready"}"#)
    );
    let metrics = probe("GET", "/metrics", true);
    assert_eq!(metrics.status, 200);
    assert_eq!(metrics.content_type, Some("text/plain; version=0.0.4".to_string()));
    assert_eq!(text(&metrics), Metrics::new().prometheus("0.000000"));
    assert_eq!(text(&probe("GET", "/stats", true)), text(&metrics));
    let counters = probe("GET", "/metrics/json", true);
    assert_eq!(counters.content_type, json);
    assert!(matches!(counters.body, HealthBody::Counters(counters) if counters.total_requests == 0));
    let unknown = probe("GET", "/", true);
    assert_eq!((unknown.status, text(&unknown)), (404, "Not found"));
    assert_eq!(unknown.content_type, None);
    let wrong = probe("POST", "/live", true);
    assert_eq!((wrong.status, text(&wrong)), (405, "Method not allowed"));
}

fn head() -> RequestHead {
    RequestHead {
        method: "POST".to_string(),
        uri: "/dns-query".to_string(),
        path: "/dns-query".to_string(),
        query: None,
        authority: Some("www.example.com".to_string()),
        host: None,
        content_type: Some("application/dns-message".to_string()),
    }
}

fn start_doh3(head: &RequestHead, sni: &str) -> Result<Doh3Exchange, DnsProxyError> {
    let endpoint = HttpUpstreamConfig { port: 443, path: "/dns-query".to_string() };
    let rewriter = create_test_rewriter();
    doh3::start_request(head, "/dns-query", sni, &rewriter, &endpoint, &mut Metrics::new())
}

fn refused(head: &RequestHead) -> (u16, String) {
    let error = start_doh3(head, "www.example.com").unwrap_err();
    let response = doh3::error_response(&error);
    assert_eq!(response.content_type, "text/plain; charset=utf-8");
    assert_eq!(response.allow.is_some(), response.status == 405);
    (response.status, response.body)
}

#[test]
fn doh3_requests_run_through() {
    let mut metrics = Metrics::new();
    let mut exchange = start_doh3(&head(), "WWW.EXAMPLE.COM").unwrap();
    assert_eq!(exchange.plan.upstream_uri, "https://www.example.cn:443/dns-query");
    let chunk = Doh3Event::Chunk(vec![0; 12]);
    assert!(matches!(exchange.step(chunk, 0, &mut metrics), Doh3Action::ReadBody));
    assert!(matches!(exchange.step(Doh3Event::End, 0, &mut metrics), Doh3Action::Forward));
    let age = HeaderField { name: "age".to_string(), value: b"1".to_vec() };
    let response = Doh3Event::Response { status: 200, headers: vec![age], body: vec![3; 40] };
    match exchange.step(response, 9, &mut metrics) {
        Doh3Action::SendHead { status, headers } => {
            assert_eq!((status, headers.len()), (200, 1));
            assert_eq!((headers[0].name.as_str(), headers[0].value.as_slice()), ("age", &b"1"[..]));
        }
        other => panic!("{other:?}"),
    }
    match exchange.step(Doh3Event::Done, 0, &mut metrics) {
        Doh3Action::SendBody(sent) => assert_eq!(sent, vec![3; 40]),
        other => panic!("{other:?}"),
    }
    assert!(matches!(exchange.step(Doh3Event::Done, 0, &mut metrics), Doh3Action::Finish));
    assert!(matches!(exchange.step(Doh3Event::Done, 0, &mut metrics), Doh3Action::Return(Ok(()))));
    let counters = metrics.snapshot();
    assert_eq!((counters.successful_requests, counters.bytes_received), (1, 12));
    assert_eq!((counters.bytes_sent, counters.processing_duration_micros), (40, 9));
}

#[test]
fn doh3_refusals_are_answered_by_their_reason() {
    let mut other = head();
    other.path = "/".to_string();
    assert_eq!(
        refused(&other),
        (404, "Invalid input: DoH3 request path must be /dns-query".to_string())
    );
    let mut other = head();
    other.authority = None;
    assert_eq!(
        refused(&other),
        (
            400,
            "Invalid input: Missing or invalid Host header in POST request to /dns-query"
                .to_string()
        )
    );
    let mut other = head();
    other.host = Some("a_b".to_string());
    assert_eq!(refused(&other), (400, "Invalid input: Invalid DoH3 Host header".to_string()));
    let mut other = head();
    other.host = Some("a.example.com".to_string());
    assert_eq!(
        refused(&other),
        (400, "Invalid input: DoH3 Host does not match TLS SNI".to_string())
    );
    let mut other = head();
    other.method = "PUT".to_string();
    assert_eq!(refused(&other), (405, "Invalid input: DoH3 only supports GET and POST".to_string()));
    let mut other = head();
    other.content_type = None;
    assert_eq!(refused(&other).0, 415);
    let mut other = head();
    other.method = "GET".to_string();
    other.query = Some("dns=AAAA".to_string());
    assert_eq!(refused(&other).0, 413);
    let mut other = head();
    other.host = Some("www.example.org".to_string());
    let error = start_doh3(&other, "www.example.org").unwrap_err();
    assert_eq!(doh3::error_response(&error).status, 400);
    assert_eq!(error.message(), "No matching base domain for www.example.org");
    let error = DnsProxyError::Overloaded {
        upstream: "a:443".to_string(),
        protocol: "HTTP/3".to_string(),
    };
    assert_eq!(doh3::error_response(&error).status, 503);
}

#[test]
fn doh3_requests_that_fail_say_why() {
    let mut metrics = Metrics::new();
    let mut fail = |exchange: &mut Doh3Exchange, event: Doh3Event| {
        match exchange.step(event, 0, &mut metrics) {
            Doh3Action::Return(Err(error)) => {
                (doh3::error_response(&error).status, error.message())
            }
            other => panic!("{other:?}"),
        }
    };
    let mut exchange = start_doh3(&head(), "www.example.com").unwrap();
    assert_eq!(
        fail(&mut exchange.clone(), Doh3Event::Chunk(vec![0; 65536])),
        (413, "Invalid input: DoH3 POST body exceeds the DNS message limit".to_string())
    );
    assert_eq!(fail(&mut exchange.clone(), Doh3Event::End).0, 413);
    assert_eq!(
        fail(&mut exchange.clone(), Doh3Event::TimedOut),
        (504, "Timeout: DoH3 request body".to_string())
    );
    assert_eq!(
        fail(&mut exchange.clone(), Doh3Event::Failed("reset".to_string())),
        (400, "Protocol error: Failed to read DoH3 request body: reset".to_string())
    );
    let mut scratch = Metrics::new();
    exchange.step(Doh3Event::Chunk(vec![0; 12]), 0, &mut scratch);
    exchange.step(Doh3Event::End, 0, &mut scratch);
    let mut stopped = exchange.clone();
    assert!(matches!(
        stopped.step(Doh3Event::Shutdown, 0, &mut scratch),
        Doh3Action::Return(Ok(()))
    ));
    let down = Doh3Event::Refused(DnsProxyError::Io("down".to_string()));
    assert_eq!(
        fail(&mut exchange, down),
        (
            502,
            "Request to upstream https://www.example.cn:443/dns-query failed: IO error: down"
                .to_string()
        )
    );
    assert_eq!(metrics.snapshot().upstream_errors, 1);
    assert_eq!(metrics.snapshot().bytes_received, 12);
}

#[test]
fn doh3_connections_need_a_server_name() {
    assert_eq!(doh3::connection_server_name(Some("A.b")).unwrap(), "A.b");
    assert_eq!(
        doh3::connection_server_name(None).unwrap_err().message(),
        "Invalid input: DoH3 requires TLS SNI hostname"
    );
    let mut metrics = Metrics::new();
    doh3::settle_connection(&Ok(()), &mut metrics);
    assert_eq!(metrics.snapshot().upstream_errors, 0);
    doh3::settle_connection(&Err(DnsProxyError::Io("down".to_string())), &mut metrics);
    assert_eq!(metrics.snapshot().upstream_errors, 1);
}
