use dns_ingress::error::{DnsProxyError, UpstreamError};
use dns_ingress::upstream::body::{response_label, BodyEvent, BodyReader};
use dns_ingress::upstream::headers::HeaderField;
use dns_ingress::upstream::http::{
    build_request, http_request, settle_http_request, HttpEvent,
};
use dns_ingress::upstream::http3::{Http3Action, Http3Event, Http3Forward};
use dns_ingress::upstream::quic::{
    check_doq_query, check_doq_response, doq_idle_timeout, read_doq_length, write_doq_frame,
    DoqAction, DoqEvent, DoqTransaction,
};

const URI: &str = "https://www.example.cn:443/dns-query";

fn field(name: &str, value: &str) -> HeaderField {
    HeaderField { name: name.to_string(), value: value.as_bytes().to_vec() }
}

fn client_headers() -> Vec<HeaderField> {
    vec![
        field("cookie", "a=b"),
        field("accept", "text/html"),
        field("host", "www.example.com"),
        field("authorization", "Basic x"),
        field("content-type", "application/dns-message"),
        field("accept", "application/dns-message"),
        field("x-forwarded-for", "127.0.0.1"),
    ]
}

fn named(headers: &[HeaderField]) -> Vec<(String, String)> {
    headers
        .iter()
        .map(|field| (field.name.clone(), String::from_utf8(field.value.clone()).unwrap()))
        .collect()
}

fn upstream_headers() -> Vec<(String, String)> {
    vec![
        ("accept".to_string(), "application/dns-message".to_string()),
        ("content-type".to_string(), "application/dns-message".to_string()),
        ("host".to_string(), "www.example.cn".to_string()),
    ]
}

#[test]
fn only_negotiation_headers_go_upstream() {
    let request =
        http_request("POST", URI, "www.example.cn", &client_headers(), vec![1, 2]).unwrap();
    assert_eq!(request.method, "POST");
    assert_eq!(request.uri, URI);
    assert_eq!(request.body, vec![1, 2]);
    assert_eq!(named(&request.headers), upstream_headers());
}

#[test]
fn requests_that_cannot_be_built_are_reported() {
    assert_eq!(
        http_request("GET", "https://a b/", "a", &vec![], vec![]).unwrap_err(),
        "Failed to build HTTP request: GET https://a b/ (target: a)"
    );
    assert_eq!(
        http_request("GET", URI, "a\nb", &vec![], vec![]).unwrap_err(),
        "Invalid target hostname: a\nb"
    );
    assert_eq!(
        build_request("GET", URI, "a", &vec![], vec![], Some("broken".to_string())).unwrap_err(),
        "Failed to build HTTP request: GET https://www.example.cn:443/dns-query (target: a)"
    );
}

#[test]
fn failures_of_the_upstream_are_answered() {
    let failed = settle_http_request(URI, HttpEvent::Failed("refused".to_string())).unwrap();
    assert_eq!((failed.status, failed.size), (502, 23));
    assert_eq!(failed.body, b"Upstream error: refused");
    assert!(failed.headers.is_empty());
    let late = settle_http_request(URI, HttpEvent::TimedOut("30s".to_string())).unwrap();
    assert_eq!((late.status, late.size), (504, 26));
    assert_eq!(late.body, b"Upstream timeout after 30s");
    let wide = settle_http_request(URI, HttpEvent::Failed("\u{e9}".to_string())).unwrap();
    assert_eq!(wide.size, 18);
    assert_eq!(wide.body, "Upstream error: \u{e9}".as_bytes());
}

fn response(status: u16, content_type: Option<&str>, n: usize) -> HttpEvent {
    HttpEvent::Response {
        status,
        headers: vec![field("set-cookie", "a=1"), field("set-cookie", "b=2")],
        content_type: content_type.map(str::to_string),
        body: Ok(vec![7; n]),
    }
}

#[test]
fn successful_responses_must_carry_a_dns_message() {
    let dns = Some("application/dns-message");
    let reply = settle_http_request(URI, response(200, dns, 12)).unwrap();
    assert_eq!((reply.status, reply.size, reply.body), (200, 12, vec![7; 12]));
    assert_eq!(
        named(&reply.headers),
        vec![
            ("set-cookie".to_string(), "a=1".to_string()),
            ("set-cookie".to_string(), "b=2".to_string()),
        ]
    );
    assert_eq!(
        settle_http_request(URI, response(204, Some("text/html"), 12)).unwrap_err(),
        "HTTP upstream response for https://www.example.cn:443/dns-query is successful but not application/dns-message"
    );
    assert_eq!(
        settle_http_request(URI, response(200, dns, 11)).unwrap_err(),
        "HTTP upstream response for https://www.example.cn:443/dns-query is malformed"
    );
    let reply = settle_http_request(URI, response(404, None, 3)).unwrap();
    assert_eq!((reply.status, reply.size, reply.body), (404, 3, vec![7; 3]));
    let unread = HttpEvent::Response {
        status: 200,
        headers: vec![],
        content_type: None,
        body: Err("gone".to_string()),
    };
    assert_eq!(settle_http_request(URI, unread).unwrap_err(), "gone");
}

#[test]
fn bodies_grow_up_to_a_dns_message() {
    let mut body = BodyReader::new(response_label(URI));
    assert_eq!(body.receive(BodyEvent::Chunk(vec![1; 65535])), Ok(()));
    assert_eq!(
        body.receive(BodyEvent::Chunk(vec![1])),
        Err("Upstream response body for https://www.example.cn:443/dns-query exceeds the DNS message limit"
            .to_string())
    );
    assert_eq!(body.bytes.len(), 65535);
    let mut body = BodyReader::new("It".to_string());
    assert_eq!(body.receive(BodyEvent::Chunk(vec![1, 2])), Ok(()));
    assert_eq!(body.receive(BodyEvent::Chunk(vec![3])), Ok(()));
    assert_eq!(body.bytes, vec![1, 2, 3]);
    assert_eq!(body.receive(BodyEvent::TimedOut), Err("It timed out".to_string()));
    assert_eq!(
        body.receive(BodyEvent::Failed("reset".to_string())),
        Err("It could not be read: reset".to_string())
    );
}

fn http3(body: Vec<u8>) -> Http3Forward {
    Http3Forward::new(
        URI.to_string(),
        "www.example.cn".to_string(),
        443,
        "POST".to_string(),
        client_headers(),
        body,
    )
}

#[test]
fn http3_requests_run_through() {
    let (exchange, action) = http3(vec![5; 12]).step(Http3Event::Done);
    match action {
        Http3Action::SendHead(head) => {
            assert_eq!(head.method, "POST");
            assert_eq!(head.uri, URI);
            assert_eq!(named(&head.headers), upstream_headers());
        }
        other => panic!("{other:?}"),
    }
    let (exchange, action) = exchange.step(Http3Event::Done);
    assert!(matches!(action, Http3Action::SendBody(sent) if sent == vec![5; 12]));
    let (exchange, action) = exchange.step(Http3Event::Done);
    assert!(matches!(action, Http3Action::Finish));
    let (exchange, action) = exchange.step(Http3Event::Done);
    assert!(matches!(action, Http3Action::ReadHead));
    let (exchange, action) = exchange.step(Http3Event::Head {
        status: 200,
        headers: vec![field("age", "1")],
        content_type: Some("application/dns-message".to_string()),
    });
    assert!(matches!(action, Http3Action::ReadBody));
    let (exchange, action) = exchange.step(Http3Event::Chunk(vec![1; 10]));
    assert!(matches!(action, Http3Action::ReadBody));
    let (exchange, _) = exchange.step(Http3Event::Chunk(vec![2; 10]));
    let (_, action) = exchange.step(Http3Event::End);
    match action {
        Http3Action::Return { status, headers, body } => {
            assert_eq!(status, 200);
            assert_eq!(named(&headers), vec![("age".to_string(), "1".to_string())]);
            assert_eq!(body.len(), 20);
            assert_eq!((body[9], body[10]), (1, 2));
        }
        other => panic!("{other:?}"),
    }
}

fn reading(status: u16, content_type: Option<&str>) -> Http3Forward {
    let (exchange, _) = http3(vec![]).step(Http3Event::Done);
    let (exchange, action) = exchange.step(Http3Event::Done);
    assert!(matches!(action, Http3Action::Finish));
    let (exchange, _) = exchange.step(Http3Event::Done);
    let (exchange, _) = exchange.step(Http3Event::Head {
        status,
        headers: vec![],
        content_type: content_type.map(str::to_string),
    });
    exchange
}

fn failure(action: Http3Action) -> (String, bool) {
    match action {
        Http3Action::Fail { error, invalidate } => (error.message(), invalidate),
        other => panic!("{other:?}"),
    }
}

#[test]
fn http3_sessions_that_fail_are_dropped() {
    let (_, action) = http3(vec![]).step(Http3Event::TimedOut);
    assert_eq!(failure(action), ("Timeout: www.example.cn:443".to_string(), false));
    let refused = DnsProxyError::Io("down".to_string());
    let (_, action) = http3(vec![]).step(Http3Event::Refused(refused));
    assert_eq!(failure(action), ("IO error: down".to_string(), false));

    let (exchange, _) = http3(vec![]).step(Http3Event::Done);
    let (_, action) = exchange.clone().step(Http3Event::TimedOut);
    assert_eq!(failure(action), (format!("Timeout: {URI}"), true));
    let (_, action) = exchange.step(Http3Event::Failed("reset".to_string()));
    assert_eq!(failure(action), (format!("Request to upstream {URI} failed: reset"), true));

    let (_, action) = reading(200, None).step(Http3Event::Failed("reset".to_string()));
    assert_eq!(failure(action), ("Protocol error: reset".to_string(), true));
    let (_, action) = reading(200, None).step(Http3Event::Chunk(vec![0; 65536]));
    assert_eq!(
        failure(action),
        (
            format!(
                "Request to upstream {URI} failed: HTTP/3 upstream response exceeds DNS message limit"
            ),
            true
        )
    );
    let (_, action) = reading(200, Some("text/html")).step(Http3Event::End);
    assert_eq!(
        failure(action),
        (
            format!(
                "Request to upstream {URI} failed: HTTP/3 upstream returned a successful non-DNS response"
            ),
            true
        )
    );
    let (_, action) = reading(200, Some("application/dns-message")).step(Http3Event::End);
    assert!(failure(action).0.contains("HTTP/3 upstream DNS response must contain one DNS message"));
    let (_, action) = reading(503, None).step(Http3Event::End);
    assert!(matches!(action, Http3Action::Return { status: 503, .. }));
}

#[test]
fn http3_requests_that_cannot_be_built_are_reported() {
    let mut exchange = http3(vec![]);
    exchange.upstream_uri = "https://a b/".to_string();
    let (_, action) = exchange.step(Http3Event::Done);
    let (message, invalidate) = failure(action);
    assert!(message.starts_with("Protocol error: Invalid HTTP/3 request: "));
    assert!(invalidate);
    let mut exchange = http3(vec![]);
    exchange.target_hostname = "a\nb".to_string();
    let (_, action) = exchange.step(Http3Event::Done);
    assert_eq!(
        failure(action),
        (
            "Protocol error: Invalid upstream Host header: failed to parse header value".to_string(),
            true
        )
    );
    let error = http3(vec![]).build_head(Some("broken".to_string())).unwrap_err();
    assert_eq!(error.message(), "Protocol error: Invalid HTTP/3 request: broken");
}

#[test]
fn frames_are_read_back() {
    let message: Vec<u8> = (0..300).map(|i| i as u8).collect();
    let prefix = write_doq_frame(&message).unwrap();
    assert_eq!(prefix, vec![1, 44]);
    assert_eq!(read_doq_length(&prefix).unwrap(), 300);
    assert_eq!(write_doq_frame(&vec![0; 65535]).unwrap(), vec![255, 255]);
    assert_eq!(
        write_doq_frame(&vec![0; 65536]).unwrap_err().message(),
        "Protocol error: DoQ message exceeds 65535 bytes"
    );
    assert_eq!(
        read_doq_length(&[0, 0]).unwrap_err().message(),
        "Protocol error: DoQ DNS frame must not be empty"
    );
}

#[test]
fn doq_messages_have_a_zero_id() {
    assert_eq!(check_doq_query(&[0; 12]), Ok(()));
    assert_eq!(
        check_doq_query(&[0; 11]),
        Err("DoQ query is shorter than the DNS header".to_string())
    );
    assert_eq!(
        check_doq_query(&[0, 1, 0, 0, 0, 0, 0, 0, 0, 0, 0, 0]),
        Err("DoQ query DNS message ID must be zero".to_string())
    );
    assert_eq!(check_doq_response(&[0; 12]), Ok(()));
    assert!(check_doq_response(&[0; 11]).is_err());
    assert_eq!(
        doq_idle_timeout("reading DoQ message").message(),
        "Timeout: DoQ transaction (reading DoQ message)"
    );
}

fn transaction() -> DoqTransaction {
    DoqTransaction::new("www.example.cn".to_string(), 853)
}

/// A transaction whose query has been read, and after which the stream has ended.
fn connecting() -> DoqTransaction {
    let mut doq = transaction();
    assert!(matches!(doq.step(DoqEvent::Read(vec![0, 12])), DoqAction::ReadClient(12)));
    assert!(matches!(doq.step(DoqEvent::Read(vec![0; 12])), DoqAction::ReadClient(2)));
    assert!(matches!(doq.step(DoqEvent::Closed), DoqAction::Connect));
    doq
}

fn awaiting_response() -> DoqTransaction {
    let mut doq = connecting();
    assert!(matches!(doq.step(DoqEvent::Done), DoqAction::OpenStream));
    match doq.step(DoqEvent::Done) {
        DoqAction::WriteUpstream(prefix) => assert_eq!(prefix, vec![0, 12]),
        other => panic!("{other:?}"),
    }
    match doq.step(DoqEvent::Done) {
        DoqAction::WriteUpstream(query) => assert_eq!(query, vec![0; 12]),
        other => panic!("{other:?}"),
    }
    assert!(matches!(doq.step(DoqEvent::Done), DoqAction::FinishUpstream));
    assert!(matches!(doq.step(DoqEvent::Done), DoqAction::ReadUpstream(2)));
    doq
}

#[test]
fn doq_transactions_relay_every_response() {
    let mut doq = awaiting_response();
    for n in [12_u8, 40] {
        assert!(matches!(doq.step(DoqEvent::Read(vec![0, n])), DoqAction::ReadUpstream(_)));
        match doq.step(DoqEvent::Read(vec![0; n as usize])) {
            DoqAction::WriteClient(prefix) => assert_eq!(prefix, vec![0, n]),
            other => panic!("{other:?}"),
        }
        match doq.step(DoqEvent::Done) {
            DoqAction::WriteClient(message) => assert_eq!(message, vec![0; n as usize]),
            other => panic!("{other:?}"),
        }
        assert!(matches!(doq.step(DoqEvent::Done), DoqAction::ReadUpstream(2)));
    }
    assert!(matches!(doq.step(DoqEvent::Closed), DoqAction::FinishClient));
    match doq.step(DoqEvent::Done) {
        DoqAction::Return { bytes_received, bytes_sent } => {
            assert_eq!((bytes_received, bytes_sent), (14, 56));
        }
        other => panic!("{other:?}"),
    }
}

fn doq_failure(action: DoqAction) -> (String, bool) {
    match action {
        DoqAction::Fail { error, invalidate } => (error.message(), invalidate),
        other => panic!("{other:?}"),
    }
}

#[test]
fn doq_queries_that_break_the_rules_are_refused() {
    assert_eq!(
        doq_failure(transaction().step(DoqEvent::Closed)),
        ("Protocol error: DoQ stream ended before query frame".to_string(), false)
    );
    assert_eq!(
        doq_failure(transaction().step(DoqEvent::Failed("stream finished early".to_string()))),
        (
            "Protocol error: DoQ stream ended with an incomplete frame: stream finished early"
                .to_string(),
            false
        )
    );
    let mut doq = transaction();
    doq.step(DoqEvent::Read(vec![0, 12]));
    doq.step(DoqEvent::Read(vec![0; 12]));
    assert!(matches!(doq.step(DoqEvent::Read(vec![0, 1])), DoqAction::ReadClient(1)));
    assert_eq!(
        doq_failure(doq.step(DoqEvent::Read(vec![0]))).0,
        "Protocol error: DoQ stream contains more than one query"
    );
    let mut doq = awaiting_response();
    doq.step(DoqEvent::Read(vec![0, 12]));
    assert_eq!(
        doq_failure(doq.step(DoqEvent::Read(vec![1; 12]))).0,
        "Protocol error: DoQ upstream response has an invalid DNS message ID"
    );
}

#[test]
fn doq_connections_that_open_no_stream_are_dropped() {
    let mut doq = connecting();
    assert_eq!(
        doq_failure(doq.step(DoqEvent::TimedOut)),
        ("Timeout: DoQ transaction (opening upstream connection)".to_string(), false)
    );
    let mut doq = connecting();
    doq.step(DoqEvent::Done);
    assert_eq!(
        doq_failure(doq.step(DoqEvent::TimedOut)),
        ("Timeout: DoQ transaction (opening upstream stream)".to_string(), true)
    );
    let mut doq = connecting();
    doq.step(DoqEvent::Done);
    match doq.step(DoqEvent::Failed("closed".to_string())) {
        DoqAction::Fail {
            error: DnsProxyError::Upstream(UpstreamError::RequestFailed { upstream, reason }),
            invalidate,
        } => {
            assert_eq!(upstream, "www.example.cn:853");
            assert_eq!(reason, "Failed to open DoQ stream: closed");
            assert!(invalidate);
        }
        other => panic!("{other:?}"),
    }
}
