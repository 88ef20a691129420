//! What a client is answered whose DoH3 request is refused.
use crate::error;
use crate::error::{DnsProxyError, ErrorView};
use crate::proxy::answers;
use crate::proxy::request;
use crate::proxy::request::{QueryError, RefusalView, RequestHead, MAX_DNS_MESSAGE_SIZE};
use crate::readers::doh3;
use crate::readers::doh3::{Doh3Event, Doh3Exchange, Doh3Reaction};
use crate::text;
use vstd::prelude::*;

verus! {

/// Whether a message holds none of the words by which statuses are told.
pub open spec fn is_unmarked(message: Seq<char>) -> bool {
    &&& answers::lacks_shared_words(message)
    &&& !text::has_text(message, "exceeds"@)
}

proof fn lemma_path(request_path: Seq<char>)
    ensures
        doh3::status_of(
            ErrorView::InvalidInput("DoH3 request path must be "@ + request_path),
        ) == 404,
{
    answers::lemma_shared_words();
    reveal_strlit("Invalid input: ");
    reveal_strlit("DoH3 request path must be ");
    let message = "Invalid input: "@ + ("DoH3 request path must be "@ + request_path);
    assert(message.subrange(20, 32) == "request path"@);
    assert(text::stands_at(message, "request path"@, 20));
}

proof fn lemma_invalid_host()
    ensures
        is_unmarked(
            error::message_of(ErrorView::InvalidInput("Invalid DoH3 Host header"@)),
        ),
{
    answers::lemma_shared_words();
    reveal_strlit("exceeds");
    reveal_strlit("Invalid input: ");
    reveal_strlit("Invalid DoH3 Host header");
    let s = "Invalid input: "@ + "Invalid DoH3 Host header"@;
    text::lemma_lacks_char(s, "request path"@, 2);
    text::lemma_lacks_char(s, "only supports GET and POST"@, 14);
    text::lemma_lacks_char(s, "Content-Type"@, 0);
    text::lemma_lacks_char(s, "exceeds"@, 1);
    text::lemma_lacks_char(s, "65535 bytes"@, 0);
}

proof fn lemma_host_mismatch()
    ensures
        is_unmarked(
            error::message_of(ErrorView::InvalidInput("DoH3 Host does not match TLS SNI"@)),
        ),
{
    answers::lemma_shared_words();
    reveal_strlit("exceeds");
    reveal_strlit("Invalid input: ");
    reveal_strlit("DoH3 Host does not match TLS SNI");
    let s = "Invalid input: "@ + "DoH3 Host does not match TLS SNI"@;
    text::lemma_lacks_char(s, "request path"@, 2);
    text::lemma_lacks_char(s, "only supports GET and POST"@, 14);
    text::lemma_lacks_char(s, "Content-Type"@, 0);
    text::lemma_lacks_char(s, "exceeds"@, 1);
    text::lemma_lacks_char(s, "65535 bytes"@, 0);
}

proof fn lemma_method()
    ensures
        doh3::status_of(ErrorView::InvalidInput("DoH3 only supports GET and POST"@)) == 405,
{
    answers::lemma_shared_words();
    reveal_strlit("Invalid input: ");
    reveal_strlit("DoH3 only supports GET and POST");
    reveal_strlit("only supports GET and POST");
    let s = "Invalid input: "@ + "DoH3 only supports GET and POST"@;
    text::lemma_lacks_char(s, "request path"@, 2);
    assert(s.subrange(20, 46) == "only supports GET and POST"@);
    assert(text::stands_at(s, "only supports GET and POST"@, 20));
}

proof fn lemma_content_type()
    ensures
        doh3::status_of(
            ErrorView::InvalidInput("DoH3 POST Content-Type must be application/dns-message"@),
        ) == 415,
{
    answers::lemma_shared_words();
    reveal_strlit("Invalid input: ");
    reveal_strlit("DoH3 POST Content-Type must be application/dns-message");
    reveal_strlit("Content-Type");
    let s = "Invalid input: "@ + "DoH3 POST Content-Type must be application/dns-message"@;
    text::lemma_lacks_char(s, "request path"@, 2);
    text::lemma_lacks_char(s, "only supports GET and POST"@, 14);
    assert(s.subrange(25, 37) == "Content-Type"@);
    assert(text::stands_at(s, "Content-Type"@, 25));
}

proof fn lemma_query(fault: QueryError)
    ensures
        doh3::status_of(ErrorView::InvalidInput(request::query_text(fault, "DoH3"@)))
            == answers::status_for(RefusalView::Query(fault)),
{
    answers::lemma_shared_words();
    reveal_strlit("exceeds");
    reveal_strlit("Invalid input: ");
    reveal_strlit("DoH3");
    reveal_strlit(" GET requests require a non-empty dns query parameter");
    reveal_strlit(" dns query parameter must be unpadded base64url");
    reveal_strlit(" GET dns query parameter");
    reveal_strlit(" must contain one DNS message between 12 and 65535 bytes");
    let s = "Invalid input: "@ + request::query_text(fault, "DoH3"@);
    text::lemma_lacks_char(s, "request path"@, 11);
    text::lemma_lacks_char(s, "only supports GET and POST"@, 22);
    text::lemma_lacks_char(s, "Content-Type"@, 0);
    match fault {
        QueryError::BadLength => {
            assert(s.subrange(88, 99) == "65535 bytes"@);
            assert(text::stands_at(s, "65535 bytes"@, 88));
        },
        _ => {
            text::lemma_lacks_char(s, "exceeds"@, 1);
            text::lemma_lacks_char(s, "65535 bytes"@, 1);
        },
    }
}

proof fn lemma_no_base_domain(host: Seq<char>)
    requires
        answers::is_plain(host),
        !text::has_text(host, "exceeds"@),
    ensures
        is_unmarked(error::message_of(ErrorView::NoMatchingBaseDomain { hostname: host })),
{
    answers::lemma_shared_words();
    reveal_strlit("exceeds");
    reveal_strlit("No matching base domain for ");
    let a = "No matching base domain for "@;
    let s = a + host;
    assert forall|i: int| 0 <= i < s.len() implies s[i] != 'P' && s[i] != 'C' by {
        if i >= a.len() {
            assert(s[i] == host[i - a.len()]);
        }
    }
    assert forall|i: int| 0 <= i < s.len() - 1 implies !(#[trigger] s[i] == 't' && s[i + 1]
        == ' ') && !(s[i] == '5' && s[i + 1] == ' ') by {
        if i + 1 >= a.len() {
            assert(s[i + 1] == host[i + 1 - a.len()]);
        }
    }
    text::lemma_lacks_pair(s, "request path"@, 6);
    text::lemma_lacks_char(s, "only supports GET and POST"@, 22);
    text::lemma_lacks_char(s, "Content-Type"@, 0);
    text::lemma_lacks_pair(s, "65535 bytes"@, 4);
    if text::has_text(s, "exceeds"@) {
        let at = choose|at: int| text::stands_at(s, "exceeds"@, at);
        let found = s.subrange(at, at + 7);
        assert(found[0] == s[at] && found[1] == s[at + 1]);
        assert(at >= a.len());
        assert(host.subrange(at - a.len(), at - a.len() + 7) == found);
        assert(text::stands_at(host, "exceeds"@, at - a.len()));
    }
}

/// Every refused request is answered with the status that its reason calls for. The
/// message about a host that is missing quotes the request, and that about a host below
/// no base domain quotes the host; these count only where what they quote does not read
/// like another error.
pub proof fn refusals_are_answered_by_kind(
    refusal: RefusalView,
    head: RequestHead,
    request_path: Seq<char>,
)
    requires
        refusal is MissingHost ==> is_unmarked(
            error::message_of(doh3::refusal_error(refusal, head, request_path)),
        ),
        refusal matches RefusalView::NoBaseDomain { host } ==> answers::is_plain(host)
            && !text::has_text(host, "exceeds"@),
    ensures
        doh3::status_of(doh3::refusal_error(refusal, head, request_path)) == answers::status_for(
            refusal,
        ),
{
    match refusal {
        RefusalView::Path => lemma_path(request_path),
        RefusalView::MissingHost => {},
        RefusalView::InvalidHost => lemma_invalid_host(),
        RefusalView::HostMismatch { host } => lemma_host_mismatch(),
        RefusalView::Method => lemma_method(),
        RefusalView::Query(fault) => lemma_query(fault),
        RefusalView::ContentType => lemma_content_type(),
        RefusalView::NoBaseDomain { host } => lemma_no_base_domain(host),
    }
}

/// A body that is no DNS message, or more than one, is answered as too large.
pub proof fn bad_bodies_are_answered(exchange: Doh3Exchange, event: Doh3Event)
    requires
        match event {
            Doh3Event::Chunk(bytes) => exchange.body@.len() + bytes@.len() > MAX_DNS_MESSAGE_SIZE,
            Doh3Event::End => !request::is_message_length(exchange.body@.len()),
            _ => false,
        },
    ensures
        exchange.reaction(event) matches Doh3Reaction::Fail(error) && doh3::status_of(error)
            == 413,
{
    answers::lemma_shared_words();
    reveal_strlit("exceeds");
    reveal_strlit("Invalid input: ");
    reveal_strlit("DoH3 POST body exceeds the DNS message limit");
    reveal_strlit("DoH3 POST body");
    reveal_strlit(" must contain one DNS message between 12 and 65535 bytes");
    let s = "Invalid input: "@ + "DoH3 POST body exceeds the DNS message limit"@;
    text::lemma_lacks_char(s, "request path"@, 2);
    text::lemma_lacks_char(s, "only supports GET and POST"@, 14);
    text::lemma_lacks_char(s, "Content-Type"@, 0);
    assert(s.subrange(30, 37) == "exceeds"@);
    assert(text::stands_at(s, "exceeds"@, 30));
    let t = "Invalid input: "@ + request::length_fault("DoH3 POST body"@);
    text::lemma_lacks_char(t, "request path"@, 2);
    text::lemma_lacks_char(t, "only supports GET and POST"@, 14);
    text::lemma_lacks_char(t, "Content-Type"@, 0);
    assert(t.subrange(74, 85) == "65535 bytes"@);
    assert(text::stands_at(t, "65535 bytes"@, 74));
}

/// A client that is too slow, with its body or in taking the response, is answered with
/// a timeout.
pub proof fn slow_clients_are_answered(exchange: Doh3Exchange)
    requires
        exchange.awaits(Doh3Event::TimedOut),
    ensures
        exchange.reaction(Doh3Event::TimedOut) matches Doh3Reaction::Fail(error)
            && doh3::status_of(error) == 504,
{
    answers::lemma_shared_words();
    reveal_strlit("exceeds");
    reveal_strlit("Timeout: ");
    reveal_strlit("DoH3 request body");
    reveal_strlit("DoH3 client response headers");
    reveal_strlit("DoH3 client response body");
    reveal_strlit("DoH3 client response finish");
    let s = "Timeout: "@ + exchange.operation();
    if exchange.stage is ReadBody {
        text::lemma_lacks_char(s, "request path"@, 8);
    } else {
        text::lemma_lacks_char(s, "request path"@, 2);
    }
    text::lemma_lacks_char(s, "only supports GET and POST"@, 14);
    text::lemma_lacks_char(s, "Content-Type"@, 0);
    text::lemma_lacks_char(s, "exceeds"@, 1);
    text::lemma_lacks_char(s, "65535 bytes"@, 0);
}

/// A request that did not get through to the upstream, for whatever reason, is answered
/// as a bad gateway, unless the URI or the reason makes the message read like another
/// error.
pub proof fn upstream_failures_are_bad_gateways(exchange: Doh3Exchange, failure: DnsProxyError)
    requires
        exchange.reaction(Doh3Event::Refused(failure)) matches Doh3Reaction::Fail(error)
            && is_unmarked(error::message_of(error)),
    ensures
        exchange.reaction(Doh3Event::Refused(failure)) matches Doh3Reaction::Fail(error)
            && doh3::status_of(error) == 502,
{
}

/// Errors whose message tells no other status are answered by their kind: 504 for what took
/// too long, 503 for a pool that is full, 502 for an upstream that failed, and 400 else.
pub proof fn errors_are_answered_by_kind(error: ErrorView)
    requires
        is_unmarked(error::message_of(error)),
    ensures
        error is Timeout ==> doh3::status_of(error) == 504,
        error is Overloaded ==> doh3::status_of(error) == 503,
        error is ConnectionFailed || error is RequestFailed ==> doh3::status_of(error) == 502,
        !(error is Timeout || error is Overloaded || error is ConnectionFailed
            || error is RequestFailed) ==> doh3::status_of(error) == 400,
{
}

/// Which status an error is answered with by its words, for every error: 404, 405, 415 and 413
/// have theirs, and the first of them that a message holds decides before the kind of the
/// error does.
pub proof fn each_status_has_its_words(error: ErrorView)
    ensures
        ({
            let message = error::message_of(error);
            let path = text::has_text(message, "request path"@);
            let method = text::has_text(message, "only supports GET and POST"@);
            let media = text::has_text(message, "Content-Type"@);
            let size = text::has_text(message, "exceeds"@) || text::has_text(
                message,
                "65535 bytes"@,
            );
            &&& doh3::status_of(error) == 404 <==> path
            &&& doh3::status_of(error) == 405 <==> !path && method
            &&& doh3::status_of(error) == 415 <==> !path && !method && media
            &&& doh3::status_of(error) == 413 <==> !path && !method && !media && size
            &&& !path && !method && !media && !size <==> is_unmarked(message)
        }),
{
}

} // verus!
