//! What a client is answered whose DoH request is refused.
use crate::proxy::http;
use crate::proxy::request;
use crate::proxy::request::{QueryError, RefusalView};
use crate::text;
use vstd::prelude::*;

verus! {

/// The HTTP status that a refusal calls for.
pub open spec fn status_for(refusal: RefusalView) -> u16 {
    match refusal {
        RefusalView::Path => 404,
        RefusalView::Method => 405,
        RefusalView::ContentType => 415,
        RefusalView::Query(QueryError::BadLength) => 413,
        _ => 400,
    }
}

/// Whether a text has neither spaces nor capital letters, as a server name has none.
pub open spec fn is_plain(s: Seq<char>) -> bool {
    forall|i: int|
        0 <= i < s.len() ==> (#[trigger] s[i]) != ' ' && !('A' <= s[i] && s[i] <= 'Z')
}

/// Whether a message holds none of the words by which a status is told both over HTTP/1
/// or HTTP/2 and over HTTP/3.
pub open spec fn lacks_shared_words(message: Seq<char>) -> bool {
    &&& !text::has_text(message, "request path"@)
    &&& !text::has_text(message, "only supports GET and POST"@)
    &&& !text::has_text(message, "Content-Type"@)
    &&& !text::has_text(message, "65535 bytes"@)
}

/// Makes the shared words known.
pub proof fn lemma_shared_words()
    ensures
        "request path"@ == seq!['r', 'e', 'q', 'u', 'e', 's', 't', ' ', 'p', 'a', 't', 'h'],
        "only supports GET and POST"@.len() == 26,
        "only supports GET and POST"@[14] == 'G',
        "only supports GET and POST"@[22] == 'P',
        "Content-Type"@.len() == 12,
        "Content-Type"@[0] == 'C',
        "65535 bytes"@ == seq!['6', '5', '5', '3', '5', ' ', 'b', 'y', 't', 'e', 's'],
{
    reveal_strlit("request path");
    reveal_strlit("only supports GET and POST");
    reveal_strlit("Content-Type");
    reveal_strlit("65535 bytes");
}

/// Whether a message holds none of the words by which the statuses before "bad
/// request" are told.
pub open spec fn is_unmarked(message: Seq<char>) -> bool {
    &&& lacks_shared_words(message)
    &&& !text::has_text(message, "exceeds the DNS message limit"@)
    &&& !text::has_text(message, "Failed to forward HTTP request to upstream"@)
    &&& !text::has_text(message, "upstream response"@)
}

/// Makes the words known that are looked for over HTTP/1 and HTTP/2 only.
proof fn lemma_own_words()
    ensures
        "exceeds the DNS message limit"@.len() == 29,
        "exceeds the DNS message limit"@[1] == 'x',
        "exceeds the DNS message limit"@[12] == 'D',
        "Failed to forward HTTP request to upstream"@.len() == 42,
        "Failed to forward HTTP request to upstream"@[0] == 'F',
        "Failed to forward HTTP request to upstream"@[13] == 'w',
        "upstream response"@.len() == 17,
        "upstream response"@[0] == 'u',
        "upstream response"@[1] == 'p',
        "upstream response"@[7] == 'm',
        "upstream response"@[8] == ' ',
        "upstream response"@[9] == 'r',
{
    reveal_strlit("exceeds the DNS message limit");
    reveal_strlit("Failed to forward HTTP request to upstream");
    reveal_strlit("upstream response");
}

proof fn lemma_path(request_path: Seq<char>)
    ensures
        http::status_of(http::refusal_text(RefusalView::Path, request_path, seq![])) == 404,
{
    lemma_shared_words();
    reveal_strlit("DoH request path must be ");
    let message = "DoH request path must be "@ + request_path;
    assert(message.subrange(4, 16) == "request path"@);
    assert(text::stands_at(message, "request path"@, 4));
}

proof fn lemma_missing_host()
    ensures
        is_unmarked("Failed to extract Host header from request"@),
{
    lemma_shared_words();
    lemma_own_words();
    reveal_strlit("Failed to extract Host header from request");
    let s = "Failed to extract Host header from request"@;
    text::lemma_lacks_char(s, "request path"@, 8);
    text::lemma_lacks_char(s, "only supports GET and POST"@, 14);
    text::lemma_lacks_char(s, "Content-Type"@, 0);
    text::lemma_lacks_char(s, "exceeds the DNS message limit"@, 12);
    text::lemma_lacks_char(s, "65535 bytes"@, 0);
    text::lemma_lacks_char(s, "Failed to forward HTTP request to upstream"@, 13);
    text::lemma_lacks_char(s, "upstream response"@, 1);
}

proof fn lemma_invalid_host()
    ensures
        is_unmarked("Invalid DoH Host header"@),
{
    lemma_shared_words();
    lemma_own_words();
    reveal_strlit("Invalid DoH Host header");
    let s = "Invalid DoH Host header"@;
    text::lemma_lacks_char(s, "request path"@, 2);
    text::lemma_lacks_char(s, "only supports GET and POST"@, 14);
    text::lemma_lacks_char(s, "Content-Type"@, 0);
    text::lemma_lacks_char(s, "exceeds the DNS message limit"@, 1);
    text::lemma_lacks_char(s, "65535 bytes"@, 0);
    text::lemma_lacks_char(s, "Failed to forward HTTP request to upstream"@, 0);
    text::lemma_lacks_char(s, "upstream response"@, 0);
}

proof fn lemma_no_base_domain()
    ensures
        is_unmarked("SNI rewrite operation failed"@),
{
    lemma_shared_words();
    lemma_own_words();
    reveal_strlit("SNI rewrite operation failed");
    let s = "SNI rewrite operation failed"@;
    text::lemma_lacks_char(s, "request path"@, 2);
    text::lemma_lacks_char(s, "only supports GET and POST"@, 14);
    text::lemma_lacks_char(s, "Content-Type"@, 0);
    text::lemma_lacks_char(s, "exceeds the DNS message limit"@, 1);
    text::lemma_lacks_char(s, "65535 bytes"@, 0);
    text::lemma_lacks_char(s, "Failed to forward HTTP request to upstream"@, 0);
    text::lemma_lacks_char(s, "upstream response"@, 0);
}

proof fn lemma_query(fault: QueryError)
    ensures
        http::status_of(request::query_text(fault, "DoH"@)) == status_for(
            RefusalView::Query(fault),
        ),
{
    lemma_shared_words();
    lemma_own_words();
    reveal_strlit("DoH");
    reveal_strlit(" GET requests require a non-empty dns query parameter");
    reveal_strlit(" dns query parameter must be unpadded base64url");
    reveal_strlit(" GET dns query parameter");
    reveal_strlit(" must contain one DNS message between 12 and 65535 bytes");
    let s = request::query_text(fault, "DoH"@);
    text::lemma_lacks_char(s, "request path"@, 11);
    text::lemma_lacks_char(s, "only supports GET and POST"@, 22);
    text::lemma_lacks_char(s, "Content-Type"@, 0);
    match fault {
        QueryError::BadLength => {
            assert(s.subrange(72, 83) == "65535 bytes"@);
            assert(text::stands_at(s, "65535 bytes"@, 72));
        },
        _ => {
            text::lemma_lacks_char(s, "exceeds the DNS message limit"@, 1);
            text::lemma_lacks_char(s, "65535 bytes"@, 3);
            text::lemma_lacks_char(s, "Failed to forward HTTP request to upstream"@, 0);
            text::lemma_lacks_pair(s, "upstream response"@, 7);
        },
    }
}

proof fn lemma_method()
    ensures
        http::status_of("DoH only supports GET and POST"@) == 405,
{
    lemma_shared_words();
    reveal_strlit("DoH only supports GET and POST");
    reveal_strlit("only supports GET and POST");
    let s = "DoH only supports GET and POST"@;
    text::lemma_lacks_char(s, "request path"@, 2);
    assert(s.subrange(4, 30) == "only supports GET and POST"@);
    assert(text::stands_at(s, "only supports GET and POST"@, 4));
}

proof fn lemma_content_type()
    ensures
        http::status_of("DoH POST Content-Type must be application/dns-message"@) == 415,
{
    lemma_shared_words();
    reveal_strlit("DoH POST Content-Type must be application/dns-message");
    reveal_strlit("Content-Type");
    let s = "DoH POST Content-Type must be application/dns-message"@;
    text::lemma_lacks_char(s, "request path"@, 2);
    text::lemma_lacks_char(s, "only supports GET and POST"@, 14);
    assert(s.subrange(9, 21) == "Content-Type"@);
    assert(text::stands_at(s, "Content-Type"@, 9));
}

proof fn lemma_host_mismatch(host: Seq<char>, tls_sni: Seq<char>)
    requires
        is_plain(host),
        is_plain(tls_sni),
    ensures
        is_unmarked(
            http::refusal_text(RefusalView::HostMismatch { host }, seq![], tls_sni),
        ),
{
    lemma_shared_words();
    lemma_own_words();
    reveal_strlit("DoH Host (");
    reveal_strlit(") does not match TLS SNI (");
    reveal_strlit(")");
    assert(")"@ == seq![')']);
    let a = "DoH Host ("@;
    let b = ") does not match TLS SNI ("@;
    let s = a + host + b + tls_sni + ")"@;
    assert forall|i: int| 0 <= i < s.len() implies s[i] != 'G' && s[i] != 'C' && s[i] != 'F' && (i
        > 0 ==> s[i] != 'D') by {
        lemma_part(a, host, b, tls_sni, i);
    }
    assert forall|i: int| 0 <= i < s.len() - 1 && s[i] == ' ' implies (#[trigger] s[i + 1]) != 'p'
        && s[i + 1] != 'b' && s[i + 1] != 'r' by {
        lemma_part(a, host, b, tls_sni, i);
        lemma_part(a, host, b, tls_sni, i + 1);
    }
    assert forall|i: int| 0 <= i < s.len() - 1 implies !(#[trigger] s[i] == ' ' && s[i + 1]
        == 'p') && !(s[i] == ' ' && s[i + 1] == 'b') && !(s[i] == ' ' && s[i + 1] == 'r') by {
        if s[i] == ' ' {
            assert(s[i + 1] != 'p');
        }
    }
    text::lemma_lacks_pair(s, "request path"@, 7);
    text::lemma_lacks_char(s, "only supports GET and POST"@, 14);
    text::lemma_lacks_char(s, "Content-Type"@, 0);
    text::lemma_lacks_room(s, "exceeds the DNS message limit"@, 12);
    text::lemma_lacks_pair(s, "65535 bytes"@, 5);
    text::lemma_lacks_char(s, "Failed to forward HTTP request to upstream"@, 0);
    text::lemma_lacks_pair(s, "upstream response"@, 8);
}

/// Which part of the joined text a position lies in.
proof fn lemma_part(a: Seq<char>, host: Seq<char>, b: Seq<char>, sni: Seq<char>, i: int)
    requires
        0 <= i < a.len() + host.len() + b.len() + sni.len() + 1,
        is_plain(host),
        is_plain(sni),
        ")"@ == seq![')'],
    ensures
        ({
            let s = a + host + b + sni + ")"@;
            let after_host = a.len() + host.len();
            let after_b = after_host + b.len();
            &&& i < a.len() ==> s[i] == a[i]
            &&& a.len() <= i < after_host ==> s[i] == host[i - a.len()] && s[i] != ' ' && !('A'
                <= s[i] && s[i] <= 'Z')
            &&& after_host <= i < after_b ==> s[i] == b[i - after_host]
            &&& after_b <= i < after_b + sni.len() ==> s[i] == sni[i - after_b] && s[i] != ' '
                && !('A' <= s[i] && s[i] <= 'Z')
            &&& i == after_b + sni.len() ==> s[i] == ')'
        }),
{
}

/// Every refused request is answered with the status that its reason calls for,
/// whatever path, host and server name are involved.
pub proof fn refusals_are_answered_by_kind(
    refusal: RefusalView,
    request_path: Seq<char>,
    tls_sni: Seq<char>,
)
    requires
        is_plain(tls_sni),
        refusal matches RefusalView::HostMismatch { host } ==> is_plain(host),
    ensures
        http::status_of(http::refusal_text(refusal, request_path, tls_sni)) == status_for(refusal),
{
    match refusal {
        RefusalView::Path => lemma_path(request_path),
        RefusalView::MissingHost => lemma_missing_host(),
        RefusalView::InvalidHost => lemma_invalid_host(),
        RefusalView::HostMismatch { host } => lemma_host_mismatch(host, tls_sni),
        RefusalView::Method => lemma_method(),
        RefusalView::Query(fault) => lemma_query(fault),
        RefusalView::ContentType => lemma_content_type(),
        RefusalView::NoBaseDomain { host } => lemma_no_base_domain(),
    }
}

/// A POST body that is no DNS message is answered as too large, which is also said
/// of one that is too short.
pub proof fn bad_bodies_are_answered(body: Seq<u8>)
    requires
        !request::is_message_length(body.len()),
    ensures
        http::body_fault(Ok(body)) matches Some(message) && http::status_of(message) == 413,
{
    lemma_shared_words();
    reveal_strlit("DoH POST body");
    reveal_strlit(" must contain one DNS message between 12 and 65535 bytes");
    let s = request::length_fault("DoH POST body"@);
    text::lemma_lacks_char(s, "request path"@, 2);
    text::lemma_lacks_char(s, "only supports GET and POST"@, 14);
    text::lemma_lacks_char(s, "Content-Type"@, 0);
    assert(s.subrange(58, 69) == "65535 bytes"@);
    assert(text::stands_at(s, "65535 bytes"@, 58));
}

/// A POST body that could not be read within the size of a DNS message is answered as
/// too large, unless the reason makes the message read like another error.
pub proof fn unread_bodies_are_answered(reason: Seq<char>)
    requires
        http::body_fault(Err(reason)) matches Some(message) && {
            &&& !text::has_text(message, "request path"@)
            &&& !text::has_text(message, "only supports GET and POST"@)
            &&& !text::has_text(message, "Content-Type"@)
        },
    ensures
        http::body_fault(Err(reason)) matches Some(message) && http::status_of(message) == 413,
{
    reveal_strlit("DoH request body exceeds the DNS message limit or could not be read: ");
    reveal_strlit("exceeds the DNS message limit");
    let message = http::body_fault(Err(reason))->0;
    assert(message.subrange(17, 46) == "exceeds the DNS message limit"@);
    assert(text::stands_at(message, "exceeds the DNS message limit"@, 17));
}

/// A request that did not get through to the upstream is answered as a bad gateway,
/// unless the URI makes the message read like another error.
pub proof fn forward_failures_are_bad_gateways(upstream_uri: Seq<char>)
    requires
        ({
            let message = http::forward_fault(upstream_uri);
            &&& !text::has_text(message, "request path"@)
            &&& !text::has_text(message, "only supports GET and POST"@)
            &&& !text::has_text(message, "Content-Type"@)
            &&& !text::has_text(message, "exceeds the DNS message limit"@)
            &&& !text::has_text(message, "65535 bytes"@)
        }),
    ensures
        http::status_of(http::forward_fault(upstream_uri)) == 502,
{
    reveal_strlit("Failed to forward HTTP request to upstream: ");
    reveal_strlit("Failed to forward HTTP request to upstream");
    let message = http::forward_fault(upstream_uri);
    assert(message.subrange(0, 42) == "Failed to forward HTTP request to upstream"@);
    assert(text::stands_at(message, "Failed to forward HTTP request to upstream"@, 0));
}

/// The statuses for refusals, by number: another path is not found, another method not
/// allowed, another Content-Type not supported, a message of a wrong size too large, and
/// everything else a bad request.
pub proof fn refusals_have_these_statuses(refusal: RefusalView)
    ensures
        status_for(refusal) == match refusal {
            RefusalView::Path => 404u16,
            RefusalView::MissingHost => 400,
            RefusalView::InvalidHost => 400,
            RefusalView::HostMismatch { host } => 400,
            RefusalView::Method => 405,
            RefusalView::Query(QueryError::Missing) => 400,
            RefusalView::Query(QueryError::NotBase64) => 400,
            RefusalView::Query(QueryError::BadLength) => 413,
            RefusalView::ContentType => 415,
            RefusalView::NoBaseDomain { host } => 400,
        },
{
}

} // verus!
