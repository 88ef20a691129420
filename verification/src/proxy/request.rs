//! The rules for DNS over HTTP requests that the HTTP/1, HTTP/2 and HTTP/3
//! listeners share.
use crate::error;
use crate::rewriters::base;
use crate::rewriters::base::BaseSniRewriter;
use crate::sni::{RewriteResult, RewriteView};
use crate::text;
use crate::utils;
use vstd::prelude::*;

verus! {

/// The octets of a DNS header, which every DNS message has.
pub const MIN_DNS_MESSAGE_SIZE: usize = 12;

/// The largest DNS message that a transport with a 16-bit length can carry.
pub const MAX_DNS_MESSAGE_SIZE: usize = 65535;

/// Whether a DNS message can have this many octets.
pub open spec fn is_message_length(n: nat) -> bool {
    MIN_DNS_MESSAGE_SIZE <= n <= MAX_DNS_MESSAGE_SIZE
}

/// What is said of something that has the wrong length for a DNS message.
pub open spec fn length_fault(context: Seq<char>) -> Seq<char> {
    context + " must contain one DNS message between 12 and 65535 bytes"@
}

/// What is wrong with the length of a DNS message, if anything is.
pub open spec fn message_fault(n: nat, context: Seq<char>) -> Option<Seq<char>> {
    if is_message_length(n) {
        None
    } else {
        Some(length_fault(context))
    }
}

/// Checks the wire representation that DoH has over every HTTP version. DNS messages
/// always hold the twelve-octet DNS header; well-formed base64 alone would let
/// malformed requests through.
pub fn validate_dns_message(message: &[u8], context: &str) -> (r: Result<(), String>)
    ensures
        error::reports(r, message_fault(message@.len(), context@)),
{
    if message.len() < MIN_DNS_MESSAGE_SIZE || message.len() > MAX_DNS_MESSAGE_SIZE {
        return Err(
            text::join(context, " must contain one DNS message between 12 and 65535 bytes"),
        );
    }
    Ok(())
}

/// Whether a Content-Type value names the DNS message media type, whatever its
/// parameters and its case.
pub open spec fn names_dns_message(value: Seq<char>) -> bool {
    text::lower(text::trim_spaces(value.take(text::first_of(value, ';')))) == text::lower(
        "application/dns-message"@,
    )
}

/// Whether there is a Content-Type value and it names the DNS message media type.
pub open spec fn is_dns_content(value: Option<Seq<char>>) -> bool {
    match value {
        Some(named) => names_dns_message(named),
        None => false,
    }
}

/// The text of an optional string.
pub open spec fn option_text(value: Option<String>) -> Option<Seq<char>> {
    match value {
        Some(text) => Some(text@),
        None => None,
    }
}

/// The text of an optional string slice.
pub open spec fn option_str(value: Option<&str>) -> Option<Seq<char>> {
    match value {
        Some(text) => Some(text@),
        None => None,
    }
}

/// Whether there is a Content-Type value and it names the DNS message media type.
pub fn is_dns_message_content_type(value: Option<&str>) -> (r: bool)
    ensures
        r == is_dns_content(option_str(value)),
{
    match value {
        Some(named) => {
            let chars = text::chars_of(named);
            proof {
                assert(chars@.skip(0) == named@);
                text::lemma_first_of(named@, ';');
            }
            let end: usize = text::find_char(&chars, ';', 0);
            proof {
                assert(chars@.subrange(0, end as int) == named@.take(end as int));
            }
            let media_type = text::string_of(&chars, 0, end);
            let trimmed = text::without_outer_spaces(media_type.as_str());
            text::to_lower(trimmed.as_str()) == text::to_lower("application/dns-message")
        },
        None => false,
    }
}

/// The value of a query parameter of the given name.
pub open spec fn parameter_value(parameter: Seq<char>, name: Seq<char>) -> Option<Seq<char>> {
    let at = text::first_of(parameter, '=');
    if at < parameter.len() && parameter.take(at) == name {
        Some(parameter.skip(at + 1))
    } else {
        None
    }
}

/// The value of the first of the parameters that has the given name.
pub open spec fn first_value(parameters: Seq<Seq<char>>, name: Seq<char>) -> Option<Seq<char>>
    decreases parameters.len(),
{
    if parameters.len() == 0 {
        None
    } else {
        match parameter_value(parameters[0], name) {
            Some(value) => Some(value),
            None => first_value(parameters.skip(1), name),
        }
    }
}

/// The value of the `dns` parameter of a query.
pub open spec fn dns_value(query: Option<Seq<char>>) -> Option<Seq<char>> {
    match query {
        Some(parameters) => first_value(text::pieces(parameters, '&'), "dns"@),
        None => None,
    }
}

/// The value of the `dns` parameter of a query.
pub fn dns_parameter(query: Option<&str>) -> (r: Option<String>)
    ensures
        utils::is_text(r, dns_value(option_str(query))),
{
    match query {
        Some(parameters) => {
            let chars = text::chars_of(parameters);
            let mut from: usize = 0;
            proof {
                assert(parameters@.skip(0) == parameters@);
            }
            loop
                invariant
                    from <= chars.len(),
                    chars@ == parameters@,
                    query == Some(parameters),
                    dns_value(option_str(query)) == first_value(
                        text::pieces(parameters@.skip(from as int), '&'),
                        "dns"@,
                    ),
                decreases chars.len() + 1 - from,
            {
                let ghost rest = parameters@.skip(from as int);
                let to: usize = text::find_char(&chars, '&', from);
                let parameter = text::string_of(&chars, from, to);
                proof {
                    assert(rest.take(to - from) == parameter@);
                    let split = text::pieces(rest, '&');
                    if to < chars.len() {
                        let later = text::pieces(rest.skip(to - from + 1), '&');
                        assert(split == seq![parameter@] + later);
                        assert(split[0] == parameter@);
                        assert(split.skip(1) == later);
                        assert(rest.skip(to - from + 1) == parameters@.skip(to + 1));
                    } else {
                        assert(rest == parameter@);
                        assert(split == seq![parameter@]);
                        assert(split[0] == parameter@);
                        assert(split.skip(1) == Seq::<Seq<char>>::empty());
                        assert(first_value(split.skip(1), "dns"@) is None);
                    }
                }
                match value_if_named(parameter.as_str(), "dns") {
                    Some(value) => return Some(value),
                    None => {},
                }
                if to == chars.len() {
                    return None;
                }
                from = to + 1;
            }
        },
        None => None,
    }
}

/// The value of a query parameter of the given name.
fn value_if_named(parameter: &str, name: &str) -> (r: Option<String>)
    ensures
        utils::is_text(r, parameter_value(parameter@, name@)),
{
    let chars = text::chars_of(parameter);
    proof {
        assert(chars@.skip(0) == parameter@);
    }
    let at: usize = text::find_char(&chars, '=', 0);
    if at == chars.len() {
        return None;
    }
    let found = text::string_of(&chars, 0, at);
    proof {
        assert(found@ == parameter@.take(at as int));
    }
    if text::same(found.as_str(), name) {
        let value = text::string_of(&chars, at + 1, chars.len());
        proof {
            assert(value@ == parameter@.skip(at + 1));
        }
        Some(value)
    } else {
        None
    }
}

/// What unpadded base64url text decodes to, or nothing where a text is none.
pub uninterp spec fn base64url_decoded(encoded: Seq<char>) -> Option<Seq<u8>>;

/// Whether an optional vector holds the given optional bytes.
pub open spec fn is_bytes(r: Option<Vec<u8>>, wanted: Option<Seq<u8>>) -> bool {
    match wanted {
        Some(bytes) => r matches Some(found) && found@ == bytes,
        None => r is None,
    }
}

/// Whether a text consists of the characters of base64url, padding not being one.
pub open spec fn is_base64url_text(s: Seq<char>) -> bool {
    forall|i: int|
        0 <= i < s.len() ==> ('a' <= #[trigger] s[i] && s[i] <= 'z') || ('A' <= s[i] && s[i] <= 'Z')
            || ('0' <= s[i] && s[i] <= '9') || s[i] == '-' || s[i] == '_'
}

/// Calls `decode` of the `base64` crate's `URL_SAFE_NO_PAD` engine: the bytes that
/// the text stands for are a function of the text, and so is whether it has any. A text
/// that has some consists of base64url characters, four for every three bytes; one of
/// whole groups of four such characters always has some.
#[verifier::external_body]
fn decode_base64url(encoded: &str) -> (r: Option<Vec<u8>>)
    ensures
        is_bytes(r, base64url_decoded(encoded@)),
        r matches Some(bytes) ==> is_base64url_text(encoded@) && bytes@.len() == encoded@.len() * 3
            / 4,
        is_base64url_text(encoded@) && encoded@.len() % 4 == 0 ==> r is Some,
{
    match base64::Engine::decode(&base64::engine::general_purpose::URL_SAFE_NO_PAD, encoded) {
        Ok(bytes) => Some(bytes),
        Err(_) => None,
    }
}

/// What can be wrong with the query of a GET request.
#[derive(Debug, Clone, Copy, PartialEq, Eq, Structural)]
pub enum QueryError {
    /// There is no `dns` parameter.
    Missing,
    /// The `dns` parameter is empty or no unpadded base64url.
    NotBase64,
    /// The decoded parameter has the wrong length for a DNS message.
    BadLength,
}

/// What is wrong with a `dns` parameter, given what it decodes to.
pub open spec fn parameter_fault(
    parameter: Option<Seq<char>>,
    decoded: Option<Seq<u8>>,
) -> Option<QueryError> {
    match parameter {
        None => Some(QueryError::Missing),
        Some(value) => if value.len() == 0 {
            Some(QueryError::NotBase64)
        } else {
            match decoded {
                None => Some(QueryError::NotBase64),
                Some(message) => if is_message_length(message.len()) {
                    None
                } else {
                    Some(QueryError::BadLength)
                },
            }
        },
    }
}

/// What is wrong with the query of a GET request.
pub open spec fn query_fault(query: Option<Seq<char>>) -> Option<QueryError> {
    let parameter = dns_value(query);
    parameter_fault(
        parameter,
        match parameter {
            Some(value) => base64url_decoded(value),
            None => None,
        },
    )
}

/// What is wrong with a `dns` parameter, given what it decodes to.
pub fn judge_parameter(parameter: Option<&str>, decoded: Option<&Vec<u8>>) -> (r: Option<
    QueryError,
>)
    ensures
        r == parameter_fault(
            option_str(parameter),
            match decoded {
                Some(bytes) => Some(bytes@),
                None => None,
            },
        ),
{
    match parameter {
        None => Some(QueryError::Missing),
        Some(value) => {
            if value.is_empty() {
                return Some(QueryError::NotBase64);
            }
            match decoded {
                None => Some(QueryError::NotBase64),
                Some(message) => {
                    if message.len() < MIN_DNS_MESSAGE_SIZE || message.len()
                        > MAX_DNS_MESSAGE_SIZE {
                        Some(QueryError::BadLength)
                    } else {
                        None
                    }
                },
            }
        },
    }
}

/// Whether the spelling of a query lets its `dns` parameter be a DNS message: it consists
/// of base64url characters, as many as a message needs.
pub open spec fn may_carry_message(query: Option<Seq<char>>) -> bool {
    dns_value(query) matches Some(value) && is_base64url_text(value) && is_message_length(
        value.len() * 3 / 4,
    )
}

/// Whether the `dns` parameter of a query consists of whole groups of four characters.
pub open spec fn has_whole_groups(query: Option<Seq<char>>) -> bool {
    dns_value(query) matches Some(value) && value.len() % 4 == 0
}

/// What is wrong with the query of a GET request. Only a parameter that is spelled like a
/// message passes, and one that is and leaves no group of characters incomplete does.
pub fn judge_query(query: Option<&str>) -> (r: Option<QueryError>)
    ensures
        r == query_fault(option_str(query)),
        r is None ==> may_carry_message(option_str(query)),
        may_carry_message(option_str(query)) && has_whole_groups(option_str(query)) ==> r is None,
{
    match dns_parameter(query) {
        None => judge_parameter(None, None),
        Some(value) => {
            let decoded = decode_base64url(value.as_str());
            judge_parameter(Some(value.as_str()), decoded.as_ref())
        },
    }
}

/// What is said of a query with a fault.
pub open spec fn query_text(fault: QueryError, protocol: Seq<char>) -> Seq<char> {
    match fault {
        QueryError::Missing => protocol
            + " GET requests require a non-empty dns query parameter"@,
        QueryError::NotBase64 => protocol
            + " dns query parameter must be unpadded base64url"@,
        QueryError::BadLength => length_fault(protocol + " GET dns query parameter"@),
    }
}

/// What is said of a query with a fault.
pub fn describe_query(fault: QueryError, protocol: &str) -> (r: String)
    ensures
        r@ == query_text(fault, protocol@),
{
    match fault {
        QueryError::Missing => text::join(
            protocol,
            " GET requests require a non-empty dns query parameter",
        ),
        QueryError::NotBase64 => text::join(
            protocol,
            " dns query parameter must be unpadded base64url",
        ),
        QueryError::BadLength => text::join3(
            protocol,
            " GET dns query parameter",
            " must contain one DNS message between 12 and 65535 bytes",
        ),
    }
}

/// Checks that the query of a GET request carries one DNS message.
pub fn validate_doh_get_query(query: Option<&str>, protocol: &str) -> (r: Result<(), String>)
    ensures
        error::reports(
            r,
            match query_fault(option_str(query)) {
                Some(fault) => Some(query_text(fault, protocol@)),
                None => None,
            },
        ),
        r is Ok ==> may_carry_message(option_str(query)),
        may_carry_message(option_str(query)) && has_whole_groups(option_str(query)) ==> r is Ok,
{
    match judge_query(query) {
        Some(fault) => Err(describe_query(fault, protocol)),
        None => Ok(()),
    }
}

/// The head of an HTTP request, as far as the rules look at it.
#[derive(Debug, Clone)]
pub struct RequestHead {
    pub method: String,
    /// The request target as it was sent.
    pub uri: String,
    pub path: String,
    pub query: Option<String>,
    /// The authority of the request target.
    pub authority: Option<String>,
    /// The Host header, where it is there and readable.
    pub host: Option<String>,
    /// The Content-Type header, where it is there and readable.
    pub content_type: Option<String>,
}

impl RequestHead {
    /// The host that the request names: the Host header, else the authority.
    pub open spec fn named_host(&self) -> Option<Seq<char>> {
        match self.host {
            Some(host) => Some(host@),
            None => option_text(self.authority),
        }
    }

    pub open spec fn is_get(&self) -> bool {
        self.method@ == "GET"@
    }

    pub open spec fn is_post(&self) -> bool {
        self.method@ == "POST"@
    }

    /// The canonical host that the request names.
    pub open spec fn canonical_host(&self) -> Option<Seq<char>> {
        match self.named_host() {
            Some(host) => utils::canonical_host(utils::authority_host(host)),
            None => None,
        }
    }
}

/// Why a request is not forwarded.
#[derive(Debug, Clone)]
pub enum Refusal {
    /// The path is not the configured one.
    Path,
    /// No host is named.
    MissingHost,
    /// The named host is no DNS host name.
    InvalidHost,
    /// The named host is not the TLS server name.
    HostMismatch { host: String },
    /// The method is neither GET nor POST.
    Method,
    /// The query of a GET request carries no DNS message.
    Query(QueryError),
    /// The body of a POST request is not declared to be a DNS message.
    ContentType,
    /// The host lies below no base domain.
    NoBaseDomain { host: String },
}

/// The texts of a [`Refusal`].
#[verifier::ext_equal]
pub enum RefusalView {
    Path,
    MissingHost,
    InvalidHost,
    HostMismatch { host: Seq<char> },
    Method,
    Query(QueryError),
    ContentType,
    NoBaseDomain { host: Seq<char> },
}

impl View for Refusal {
    type V = RefusalView;

    open spec fn view(&self) -> RefusalView {
        match *self {
            Refusal::Path => RefusalView::Path,
            Refusal::MissingHost => RefusalView::MissingHost,
            Refusal::InvalidHost => RefusalView::InvalidHost,
            Refusal::HostMismatch { host } => RefusalView::HostMismatch { host: host@ },
            Refusal::Method => RefusalView::Method,
            Refusal::Query(fault) => RefusalView::Query(fault),
            Refusal::ContentType => RefusalView::ContentType,
            Refusal::NoBaseDomain { host } => RefusalView::NoBaseDomain { host: host@ },
        }
    }
}

/// What becomes of a request: where it leads, or why it is refused. `host` is the
/// canonical host that it names and `query` the fault of its query; the first rule
/// that it breaks decides.
pub open spec fn admission(
    head: RequestHead,
    request_path: Seq<char>,
    tls_sni: Seq<char>,
    bases: Seq<Seq<char>>,
    suffix: Seq<char>,
    host: Option<Seq<char>>,
    query: Option<QueryError>,
) -> Result<RewriteView, RefusalView> {
    if head.path@ != request_path {
        Err(RefusalView::Path)
    } else if head.named_host() is None {
        Err(RefusalView::MissingHost)
    } else if host is None {
        Err(RefusalView::InvalidHost)
    } else if host->0 != tls_sni {
        Err(RefusalView::HostMismatch { host: host->0 })
    } else if !head.is_get() && !head.is_post() {
        Err(RefusalView::Method)
    } else if head.is_get() && query is Some {
        Err(RefusalView::Query(query->0))
    } else if !head.is_get() && !is_dns_content(option_text(head.content_type)) {
        Err(RefusalView::ContentType)
    } else {
        match base::rewritten(bases, suffix, host->0) {
            Some(target) => Ok(target),
            None => Err(RefusalView::NoBaseDomain { host: host->0 }),
        }
    }
}

/// A request goes upstream exactly where it keeps every rule: it has the configured
/// path, names the host that the TLS handshake named, carries one DNS message in a GET
/// query or announces one as a POST body, and its host lies below a base domain. It then
/// goes to the host that this name is rewritten to.
pub proof fn admitted_requests_keep_every_rule(
    head: RequestHead,
    request_path: Seq<char>,
    tls_sni: Seq<char>,
    bases: Seq<Seq<char>>,
    suffix: Seq<char>,
    host: Option<Seq<char>>,
    query: Option<QueryError>,
)
    requires
        head.named_host() is None ==> host is None,
    ensures
        ({
            let decision = admission(head, request_path, tls_sni, bases, suffix, host, query);
            &&& decision is Ok <==> {
                &&& head.path@ == request_path
                &&& host == Some(tls_sni)
                &&& (head.is_get() && query is None) || (head.is_post() && is_dns_content(
                    option_text(head.content_type),
                ))
                &&& base::rewritten(bases, suffix, tls_sni) is Some
            }
            &&& decision matches Ok(target) ==> base::rewritten(bases, suffix, tls_sni) == Some(
                target,
            )
        }),
{
    reveal_strlit("GET");
    reveal_strlit("POST");
    if head.is_get() {
        assert(!head.is_post()) by {
            assert("GET"@.len() != "POST"@.len());
        }
    }
}

/// The texts of a decision on a request.
pub open spec fn decision_view(r: Result<RewriteResult, Refusal>) -> Result<
    RewriteView,
    RefusalView,
> {
    match r {
        Ok(target) => Ok(target@),
        Err(refusal) => Err(refusal@),
    }
}

/// Decides on a request whose host and query have been judged.
pub fn decide(
    head: &RequestHead,
    request_path: &str,
    tls_sni: &str,
    rewriter: &BaseSniRewriter,
    host: Option<String>,
    query: Option<QueryError>,
) -> (r: Result<RewriteResult, Refusal>)
    ensures
        decision_view(r) == admission(
            *head,
            request_path@,
            tls_sni@,
            rewriter.bases(),
            rewriter.suffix(),
            option_text(host),
            query,
        ),
{
    if !text::same(head.path.as_str(), request_path) {
        return Err(Refusal::Path);
    }
    if head.host.is_none() && head.authority.is_none() {
        return Err(Refusal::MissingHost);
    }
    match host {
        None => Err(Refusal::InvalidHost),
        Some(host) => {
            if !text::same(host.as_str(), tls_sni) {
                return Err(Refusal::HostMismatch { host });
            }
            let get = text::same(head.method.as_str(), "GET");
            if !get && !text::same(head.method.as_str(), "POST") {
                return Err(Refusal::Method);
            }
            if get {
                match query {
                    Some(fault) => return Err(Refusal::Query(fault)),
                    None => {},
                }
            } else {
                let content_type = match &head.content_type {
                    Some(value) => Some(value.as_str()),
                    None => None,
                };
                if !is_dns_message_content_type(content_type) {
                    return Err(Refusal::ContentType);
                }
            }
            match rewriter.rewrite(host.as_str()) {
                Some(target) => Ok(target),
                None => Err(Refusal::NoBaseDomain { host }),
            }
        },
    }
}

/// Whether a request keeps every rule in a plain spelling: its host is named by host name
/// characters alone, and a message in its query leaves no group of characters incomplete.
pub open spec fn is_plainly_admissible(
    head: RequestHead,
    request_path: Seq<char>,
    tls_sni: Seq<char>,
    bases: Seq<Seq<char>>,
    suffix: Seq<char>,
) -> bool {
    &&& head.path@ == request_path
    &&& head.named_host() matches Some(host) && host.len() > 0 && utils::is_name_text(host)
        && utils::canonical_host(Some(host)) == Some(tls_sni)
    &&& if head.is_get() {
        may_carry_message(option_text(head.query)) && has_whole_groups(option_text(head.query))
    } else {
        head.is_post() && is_dns_content(option_text(head.content_type))
    }
    &&& base::rewritten(bases, suffix, tls_sni) is Some
}

/// Decides on a request. One that keeps every rule in a plain spelling is admitted.
pub fn decide_request(
    head: &RequestHead,
    request_path: &str,
    tls_sni: &str,
    rewriter: &BaseSniRewriter,
) -> (r: Result<RewriteResult, Refusal>)
    ensures
        decision_view(r) == admission(
            *head,
            request_path@,
            tls_sni@,
            rewriter.bases(),
            rewriter.suffix(),
            head.canonical_host(),
            query_fault(option_text(head.query)),
        ),
        is_plainly_admissible(
            *head,
            request_path@,
            tls_sni@,
            rewriter.bases(),
            rewriter.suffix(),
        ) ==> r is Ok,
{
    let host = match &head.host {
        Some(named) => utils::normalize_hostname(named.as_str()),
        None => match &head.authority {
            Some(named) => utils::normalize_hostname(named.as_str()),
            None => None,
        },
    };
    let query = match &head.query {
        Some(query) => judge_query(Some(query.as_str())),
        None => judge_query(None),
    };
    decide(head, request_path, tls_sni, rewriter, host, query)
}

/// The URI under which a request goes upstream.
pub open spec fn upstream_uri_text(
    target: Seq<char>,
    port: u16,
    path: Seq<char>,
    query: Option<Seq<char>>,
) -> Seq<char> {
    "https://"@ + target + ":"@ + text::decimal(port as nat) + path + match query {
        Some(parameters) => "?"@ + parameters,
        None => Seq::<char>::empty(),
    }
}

/// The URI under which a request goes upstream.
pub fn upstream_uri(target: &str, port: u16, path: &str, query: Option<&str>) -> (r: String)
    ensures
        r@ == upstream_uri_text(target@, port, path@, option_str(query)),
{
    let number = text::decimal_text(port as u64);
    let mut uri = text::join3("https://", target, ":");
    uri.append(number.as_str());
    uri.append(path);
    let ghost so_far = uri@;
    match query {
        Some(parameters) => {
            uri.append("?");
            uri.append(parameters);
            proof {
                assert(uri@ == so_far + ("?"@ + parameters@));
            }
        },
        None => {
            proof {
                assert(uri@ == so_far + Seq::<char>::empty());
            }
        },
    }
    uri
}

/// Whether an HTTP status means success.
pub open spec fn is_success_status(status: u16) -> bool {
    200 <= status < 300
}

/// Whether an HTTP status means success.
pub fn is_success(status: u16) -> (r: bool)
    ensures
        r == is_success_status(status),
{
    200 <= status && status < 300
}

/// A Content-Type names the DNS message media type in any case of its letters, with any
/// white space round it, and whatever parameters follow behind a semicolon.
pub proof fn parameters_and_spelling_do_not_count(
    before: Seq<char>,
    media_type: Seq<char>,
    after: Seq<char>,
    parameters: Seq<char>,
)
    requires
        forall|i: int| 0 <= i < before.len() ==> text::is_space(#[trigger] before[i]),
        forall|i: int| 0 <= i < after.len() ==> text::is_space(#[trigger] after[i]),
        media_type.len() == "application/dns-message"@.len(),
        forall|i: int|
            0 <= i < media_type.len() ==> (#[trigger] media_type[i]) == "application/dns-message"@[i]
                || (97 <= "application/dns-message"@[i] as int <= 122 && media_type[i] as int + 32
                == "application/dns-message"@[i] as int),
    ensures
        names_dns_message(before + media_type + after),
        names_dns_message((before + media_type + after).push(';') + parameters),
        is_dns_content(Some((before + media_type + after).push(';') + parameters)),
{
    reveal_strlit("application/dns-message");
    let wanted = "application/dns-message"@;
    let head = before + media_type + after;
    assert forall|i: int| 0 <= i < head.len() implies head[i] != ';' by {
        if i < before.len() {
            assert(head[i] == before[i]);
        } else if i < before.len() + media_type.len() {
            assert(head[i] == media_type[i - before.len()]);
        } else {
            assert(head[i] == after[i - before.len() - media_type.len()]);
        }
    }
    assert(media_type[0] == wanted[0] || media_type[0] as int + 32 == wanted[0] as int);
    assert(media_type.last() == media_type[22]);
    text::space_around_is_trimmed(before, media_type, after);
    assert(text::lower(media_type) == text::lower(wanted)) by {
        assert forall|i: int| 0 <= i < media_type.len() implies #[trigger] text::lower(
            media_type,
        )[i] == text::lower(wanted)[i] by {
            text::folding_moves_capitals_only(media_type, i);
            text::folding_moves_capitals_only(wanted, i);
        }
    }
    assert(text::lower(wanted) == wanted);
    media_types_stand_before_semicolons(head, parameters);
}

/// Only what stands before the first semicolon counts: the DNS message media type is named
/// exactly where that, trimmed and folded, is `application/dns-message`. No Content-Type at
/// all does not name it.
pub proof fn media_types_stand_before_semicolons(head: Seq<char>, parameters: Seq<char>)
    requires
        forall|i: int| 0 <= i < head.len() ==> head[i] as int != 59,
    ensures
        names_dns_message(head) <==> text::lower(text::trim_spaces(head))
            == "application/dns-message"@,
        names_dns_message(head.push(';') + parameters) <==> text::lower(text::trim_spaces(head))
            == "application/dns-message"@,
        is_dns_content(Some(head)) == names_dns_message(head),
        !is_dns_content(None),
{
    reveal_strlit("application/dns-message");
    let wanted = "application/dns-message"@;
    assert(text::lower(wanted) == wanted);
    let whole = head.push(';') + parameters;
    text::lemma_first_of_is(head, ';', head.len() as int);
    text::lemma_first_of_is(whole, ';', head.len() as int);
    assert(head.take(head.len() as int) == head);
    assert(whole.take(head.len() as int) == head);
}

/// The URI of a request without a query is the scheme, the target host, a colon, the port
/// in decimal digits and the path; with a query, a question mark and the whole query follow.
/// What comes behind the first question mark is thus the query as it came, and its `dns`
/// parameter is that of the request.
pub proof fn queries_go_upstream_as_they_came(
    target: Seq<char>,
    port: u16,
    path: Seq<char>,
    query: Seq<char>,
)
    ensures
        ({
            let plain = upstream_uri_text(target, port, path, None);
            let uri = upstream_uri_text(target, port, path, Some(query));
            let digits = plain.subrange(
                9 + target.len() as int,
                plain.len() - path.len(),
            );
            &&& plain == "https://"@ + target + seq![':'] + digits + path
            &&& text::number_in(digits) == port
            &&& digits == text::decimal(port as nat)
            &&& uri == plain.push('?') + query
            &&& uri.skip(plain.len() as int + 1) == query
            &&& dns_value(Some(uri.skip(plain.len() as int + 1))) == dns_value(Some(query))
            &&& (forall|i: int| 0 <= i < plain.len() ==> plain[i] as int != 63)
                ==> text::first_of(uri, '?') == plain.len()
        }),
{
    reveal_strlit("https://");
    reveal_strlit(":");
    reveal_strlit("?");
    text::decimals_are_read_back(port as nat);
    let plain = upstream_uri_text(target, port, path, None);
    let uri = upstream_uri_text(target, port, path, Some(query));
    let digits = plain.subrange(9 + target.len() as int, plain.len() - path.len());
    assert(digits == text::decimal(port as nat));
    assert(plain == "https://"@ + target + seq![':'] + digits + path);
    assert(uri == plain.push('?') + query);
    assert(uri.skip(plain.len() as int + 1) == query);
    if forall|i: int| 0 <= i < plain.len() ==> plain[i] as int != 63 {
        assert forall|k: int| 0 <= k < plain.len() implies uri[k] != '?' by {
            assert(uri[k] == plain[k]);
        }
        text::lemma_first_of_is(uri, '?', plain.len() as int);
    }
}

/// Different queries never lead to the same upstream URI: nothing of a query is lost on the
/// way, and none is made up.
pub proof fn upstream_uris_tell_queries_apart(
    target: Seq<char>,
    port: u16,
    path: Seq<char>,
    a: Option<Seq<char>>,
    b: Option<Seq<char>>,
)
    requires
        upstream_uri_text(target, port, path, a) == upstream_uri_text(target, port, path, b),
    ensures
        a == b,
{
    reveal_strlit("?");
    let plain = upstream_uri_text(target, port, path, None);
    if let Some(query) = a {
        queries_go_upstream_as_they_came(target, port, path, query);
    }
    if let Some(query) = b {
        queries_go_upstream_as_they_came(target, port, path, query);
    }
}

/// The `dns` parameter of a query is the value of the first parameter of that name, up to
/// the next ampersand; parameters before it are passed over, and a query without one has
/// no such value.
pub proof fn the_first_dns_parameter_counts(
    value: Seq<char>,
    other: Seq<char>,
    rest: Seq<char>,
)
    requires
        forall|i: int| 0 <= i < value.len() ==> value[i] as int != 38,
        forall|i: int| 0 <= i < other.len() ==> other[i] as int != 38,
        !(other.len() >= 4 && other.take(4) == "dns="@),
    ensures
        dns_value(Some("dns="@ + value)) == Some(value),
        dns_value(Some(("dns="@ + value).push('&') + rest)) == Some(value),
        dns_value(Some(other)) is None,
        dns_value(Some(other.push('&') + rest)) == dns_value(Some(rest)),
        dns_value(None) is None,
{
    reveal_strlit("dns=");
    reveal_strlit("dns");
    let named = "dns="@ + value;
    assert forall|i: int| 0 <= i < named.len() implies named[i] != '&' by {
        if i >= 4 {
            assert(named[i] == value[i - 4]);
        }
    }
    text::pieces_lie_between_separators(named, rest, '&');
    text::pieces_lie_between_separators(other, rest, '&');
    text::lemma_first_of_is(named, '=', 3);
    assert(named.take(3) == "dns"@);
    assert(named.skip(4) == value);
    assert(parameter_value(named, "dns"@) == Some(value));
    text::lemma_first_of(other, '=');
    let at = text::first_of(other, '=');
    if at < other.len() && other.take(at) == "dns"@ {
        assert(other.take(at).len() == 3);
        assert(other.take(4) =~= other.take(3).push('='));
        assert(other.take(4) =~= "dns="@);
    }
    assert(parameter_value(other, "dns"@) is None);
    let one = seq![named];
    let none = seq![other];
    assert(one[0] == named && none[0] == other);
    assert(none.skip(1) == Seq::<Seq<char>>::empty());
    assert(first_value(none.skip(1), "dns"@) is None);
    let later = text::pieces(rest, '&');
    assert((one + later)[0] == named);
    assert((none + later)[0] == other);
    assert((none + later).skip(1) == later);
}

/// A DNS message has 12 to 65535 octets, and whatever has so many passes.
pub proof fn messages_have_12_to_65535_octets(n: nat, context: Seq<char>)
    ensures
        is_message_length(n) <==> 12 <= n <= 65535,
        message_fault(n, context) is None <==> 12 <= n <= 65535,
{
}

/// A `dns` parameter is missing, or is no unpadded base64url, or decodes to something of
/// other than 12 to 65535 octets, or is in order: just one of these.
pub proof fn parameters_are_judged_by_what_they_decode_to(value: Seq<char>, message: Seq<u8>)
    ensures
        parameter_fault(None, None) == Some(QueryError::Missing),
        parameter_fault(Some(Seq::empty()), Some(message)) == Some(QueryError::NotBase64),
        parameter_fault(Some(value), None) == Some(QueryError::NotBase64),
        value.len() > 0 && 12 <= message.len() <= 65535 ==> parameter_fault(
            Some(value),
            Some(message),
        ) is None,
        value.len() > 0 && !(12 <= message.len() <= 65535) ==> parameter_fault(
            Some(value),
            Some(message),
        ) == Some(QueryError::BadLength),
{
}

/// A query may carry a message exactly where its `dns` parameter consists of letters,
/// digits, hyphens and underscores by their code points, as many as encode 12 to 65535
/// octets.
pub proof fn messages_may_come_in_base64url(value: Seq<char>)
    requires
        forall|i: int| 0 <= i < value.len() ==> value[i] as int != 38,
    ensures
        may_carry_message(Some("dns="@ + value)) <==> {
            &&& 16 <= value.len() <= 87381
            &&& forall|i: int|
                0 <= i < value.len() ==> 97 <= (#[trigger] value[i]) as int <= 122 || 65
                    <= value[i] as int <= 90 || 48 <= value[i] as int <= 57 || value[i] as int == 45
                    || value[i] as int == 95
        },
        has_whole_groups(Some("dns="@ + value)) <==> value.len() % 4 == 0,
        !may_carry_message(None),
{
    the_first_dns_parameter_counts(value, Seq::empty(), Seq::empty());
    if is_base64url_text(value) {
        assert forall|i: int| 0 <= i < value.len() implies 97 <= (#[trigger] value[i]) as int <= 122
            || 65 <= value[i] as int <= 90 || 48 <= value[i] as int <= 57 || value[i] as int == 45
            || value[i] as int == 95 by {}
    }
}

/// The host that a request names is its Host header, or else the authority of its target.
pub proof fn the_host_header_comes_first(head: RequestHead)
    ensures
        head.host matches Some(host) ==> head.named_host() == Some(host@),
        head.host is None ==> (head.authority matches Some(authority) ==> head.named_host() == Some(
            authority@,
        )),
        head.host is None && head.authority is None ==> head.named_host() is None,
        head.is_get() <==> head.method@ == seq!['G', 'E', 'T'],
        head.is_post() <==> head.method@ == seq!['P', 'O', 'S', 'T'],
{
    reveal_strlit("GET");
    reveal_strlit("POST");
    assert("GET"@ == seq!['G', 'E', 'T']);
    assert("POST"@ == seq!['P', 'O', 'S', 'T']);
}

/// Each refusal names the first rule that a request breaks, in a fixed order: its path, a
/// host, a DNS host name, the host of the handshake, its method, its query or its
/// Content-Type, and last a base domain.
pub proof fn refusals_name_the_first_broken_rule(
    head: RequestHead,
    request_path: Seq<char>,
    tls_sni: Seq<char>,
    bases: Seq<Seq<char>>,
    suffix: Seq<char>,
    host: Option<Seq<char>>,
    query: Option<QueryError>,
)
    ensures
        ({
            let r = admission(head, request_path, tls_sni, bases, suffix, host, query);
            let right_path = head.path@ == request_path;
            let named = right_path && head.named_host() is Some;
            let valid = named && host is Some;
            let same = valid && host == Some(tls_sni);
            let get = head.method@ == "GET"@;
            let post = head.method@ == "POST"@;
            let served = same && (get || post);
            let dns = if get {
                query is None
            } else {
                head.content_type matches Some(value) && names_dns_message(value@)
            };
            let rewrite = base::rewritten(bases, suffix, tls_sni);
            &&& r == Err::<RewriteView, RefusalView>(RefusalView::Path) <==> !right_path
            &&& r == Err::<RewriteView, RefusalView>(RefusalView::MissingHost) <==> right_path
                && !named
            &&& r == Err::<RewriteView, RefusalView>(RefusalView::InvalidHost) <==> named && !valid
            &&& valid && !same ==> r == Err::<RewriteView, RefusalView>(
                RefusalView::HostMismatch { host: host->0 },
            )
            &&& r == Err::<RewriteView, RefusalView>(RefusalView::Method) <==> same && !served
            &&& served && !dns ==> r == Err::<RewriteView, RefusalView>(
                if get {
                    RefusalView::Query(query->0)
                } else {
                    RefusalView::ContentType
                },
            )
            &&& served && dns && rewrite is None ==> r == Err::<RewriteView, RefusalView>(
                RefusalView::NoBaseDomain { host: tls_sni },
            )
            &&& served && dns && rewrite is Some ==> r == Ok::<RewriteView, RefusalView>(rewrite->0)
        }),
{
    reveal_strlit("GET");
    reveal_strlit("POST");
    assert("GET"@.len() != "POST"@.len());
}

/// The statuses from 200 to 299 mean success, and no others do.
pub proof fn success_is_200_to_299(status: u16)
    ensures
        is_success_status(status) <==> 200 <= status && status <= 299,
{
}

/// Optional texts are those of the strings, and optional bytes those of the vectors.
pub proof fn optional_values_are_taken_as_they_are(text: String, slice: &str, bytes: Vec<u8>)
    ensures
        option_text(Some(text)) == Some(text@),
        option_text(None) is None,
        option_str(Some(slice)) == Some(slice@),
        option_str(None) is None,
        is_bytes(Some(bytes), Some(bytes@)),
        is_bytes(None, None),
        !is_bytes(Some(bytes), None),
{
}

/// A request that keeps every rule in plain words is plainly admissible: its path is the
/// configured one, its Host header is a name of letters, digits, hyphens and dots that
/// folds to the TLS server name, it announces a DNS message as a POST request, and the
/// server name leads somewhere.
pub proof fn plain_post_requests_are_admissible(
    head: RequestHead,
    request_path: Seq<char>,
    tls_sni: Seq<char>,
    bases: Seq<Seq<char>>,
    suffix: Seq<char>,
    host: String,
    content_type: String,
)
    requires
        head.path@ == request_path,
        head.host == Some(host),
        host@.len() > 0,
        forall|i: int|
            0 <= i < host@.len() ==> 97 <= (#[trigger] host@[i]) as int <= 122 || 48
                <= host@[i] as int <= 57 || host@[i] as int == 45 || host@[i] as int == 46,
        host@.last() as int != 46,
        tls_sni == host@,
        head.method@ == "POST"@,
        head.content_type == Some(content_type),
        names_dns_message(content_type@),
        base::rewritten(bases, suffix, tls_sni) is Some,
    ensures
        is_plainly_admissible(head, request_path, tls_sni, bases, suffix),
{
    reveal_strlit("GET");
    reveal_strlit("POST");
    assert("GET"@.len() != "POST"@.len());
    lemma_plain_hosts(host@);
}

/// The texts of a refusal are of its own kind, with the host that it names, and those of a
/// decision are of its target or its refusal.
pub proof fn decisions_show_their_own_fields(refusal: Refusal, target: RewriteResult)
    ensures
        match refusal {
            Refusal::Path => refusal@ is Path,
            Refusal::MissingHost => refusal@ is MissingHost,
            Refusal::InvalidHost => refusal@ is InvalidHost,
            Refusal::HostMismatch { host: h } => refusal@ is HostMismatch
                && refusal@->HostMismatch_host == h@,
            Refusal::Method => refusal@ is Method,
            Refusal::Query(fault) => refusal@ == RefusalView::Query(fault),
            Refusal::ContentType => refusal@ is ContentType,
            Refusal::NoBaseDomain { host: h } => refusal@ is NoBaseDomain
                && refusal@->NoBaseDomain_host == h@,
        },
        decision_view(Ok(target)) == Ok::<RewriteView, RefusalView>(target@),
        decision_view(Err(refusal)) == Err::<RewriteView, RefusalView>(refusal@),
{
}

/// What is said of a query begins with the protocol; what is said of a wrong length ends
/// with the lengths that are right.
pub proof fn complaints_name_the_protocol(fault: QueryError, protocol: Seq<char>)
    ensures
        query_text(fault, protocol).take(protocol.len() as int) == protocol,
        query_text(fault, protocol).len() > protocol.len(),
        text::ends_with(length_fault(protocol), "one DNS message between 12 and 65535 bytes"@),
        fault is BadLength ==> text::ends_with(
            query_text(fault, protocol),
            "one DNS message between 12 and 65535 bytes"@,
        ),
{
    reveal_strlit(" GET requests require a non-empty dns query parameter");
    reveal_strlit(" dns query parameter must be unpadded base64url");
    reveal_strlit(" GET dns query parameter");
    reveal_strlit(" must contain one DNS message between 12 and 65535 bytes");
    reveal_strlit("one DNS message between 12 and 65535 bytes");
    reveal_strlit(" must contain ");
    let end = "one DNS message between 12 and 65535 bytes"@;
    let whole = " must contain one DNS message between 12 and 65535 bytes"@;
    assert(whole == " must contain "@ + end);
    assert(query_text(fault, protocol).take(protocol.len() as int) == protocol);
    assert(length_fault(protocol) == (protocol + " must contain "@) + end);
    text::ends_and_beginnings(protocol + " must contain "@, end, ' ');
    let about = protocol + " GET dns query parameter"@;
    assert(length_fault(about) == (about + " must contain "@) + end);
    text::ends_and_beginnings(about + " must contain "@, end, ' ');
}

/// A query is judged by its `dns` parameter as it stands and by all that it decodes to: one
/// that decodes to 12 to 65535 octets passes, whatever its length in characters, one that is
/// no base64url does not, and a query without one lacks it.
pub proof fn queries_are_judged_by_their_dns_parameter(query: Option<Seq<char>>)
    ensures
        dns_value(query) is None ==> query_fault(query) == Some(QueryError::Missing),
        dns_value(query) matches Some(value) ==> value.len() > 0 ==> {
            &&& base64url_decoded(value) is None ==> query_fault(query) == Some(
                QueryError::NotBase64,
            )
            &&& base64url_decoded(value) matches Some(message) ==> {
                &&& 12 <= message.len() <= 65535 ==> query_fault(query) is None
                &&& !(12 <= message.len() <= 65535) ==> query_fault(query) == Some(
                    QueryError::BadLength,
                )
            }
        },
        dns_value(query) == Some(Seq::<char>::empty()) ==> query_fault(query) == Some(
            QueryError::NotBase64,
        ),
{
}

/// The canonical host of a request is that of the host part of its Host header, or else of
/// its authority.
pub proof fn hosts_are_taken_from_the_named_authority(head: RequestHead, named: String)
    ensures
        head.host == Some(named) ==> head.canonical_host() == utils::canonical_host(
            utils::authority_host(named@),
        ),
        head.host is None && head.authority == Some(named) ==> head.canonical_host()
            == utils::canonical_host(utils::authority_host(named@)),
        head.host is None && head.authority is None ==> head.canonical_host() is None,
{
}

/// A GET request that keeps every rule in plain words is plainly admissible: its path is the
/// configured one, its Host header is a name of small letters, digits, hyphens and dots that
/// is the TLS server name, its query is a `dns` parameter of base64url characters in whole
/// groups of four that encode 12 to 65535 octets, and the server name leads somewhere.
pub proof fn plain_get_requests_are_admissible(
    head: RequestHead,
    request_path: Seq<char>,
    tls_sni: Seq<char>,
    bases: Seq<Seq<char>>,
    suffix: Seq<char>,
    host: String,
    query: String,
    value: Seq<char>,
)
    requires
        head.path@ == request_path,
        head.host == Some(host),
        host@.len() > 0,
        forall|i: int|
            0 <= i < host@.len() ==> 97 <= (#[trigger] host@[i]) as int <= 122 || 48
                <= host@[i] as int <= 57 || host@[i] as int == 45 || host@[i] as int == 46,
        host@.last() as int != 46,
        tls_sni == host@,
        head.method@ == "GET"@,
        head.query == Some(query),
        query@ == "dns="@ + value,
        16 <= value.len() <= 87380,
        value.len() % 4 == 0,
        forall|i: int|
            0 <= i < value.len() ==> 97 <= (#[trigger] value[i]) as int <= 122 || 65
                <= value[i] as int <= 90 || 48 <= value[i] as int <= 57 || value[i] as int == 45
                || value[i] as int == 95,
        base::rewritten(bases, suffix, tls_sni) is Some,
    ensures
        is_plainly_admissible(head, request_path, tls_sni, bases, suffix),
{
    lemma_plain_hosts(host@);
    assert forall|i: int| 0 <= i < value.len() implies value[i] as int != 38 by {
        assert(97 <= value[i] as int <= 122 || 65 <= value[i] as int <= 90 || 48 <= value[i] as int
            <= 57 || value[i] as int == 45 || value[i] as int == 95);
    }
    messages_may_come_in_base64url(value);
}

/// A name of small letters, digits, hyphens and dots that does not end in a dot is its own
/// canonical form.
proof fn lemma_plain_hosts(host: Seq<char>)
    requires
        host.len() > 0,
        forall|i: int|
            0 <= i < host.len() ==> 97 <= (#[trigger] host[i]) as int <= 122 || 48 <= host[i] as int
                <= 57 || host[i] as int == 45 || host[i] as int == 46,
        host.last() as int != 46,
    ensures
        utils::is_name_text(host),
        utils::canonical_host(Some(host)) == Some(host),
{
    let none = Seq::<char>::empty();
    assert(host + none == host);
    assert forall|i: int| 0 <= i < host.len() implies utils::is_name_char(#[trigger] host[i]) by {
        utils::name_characters_by_code_point(host[i]);
    }
    utils::ascii_hosts_have_a_canonical_form(host, none, 0);
    let found = utils::canonical_host(Some(host))->0;
    assert forall|i: int| 0 <= i < host.len() implies #[trigger] found[i] == host[i] by {
        utils::ascii_hosts_have_a_canonical_form(host, none, i);
        assert(97 <= host[i] as int <= 122 || 48 <= host[i] as int <= 57 || host[i] as int == 45
            || host[i] as int == 46);
    }
    assert(found == host);
}

} // verus!
