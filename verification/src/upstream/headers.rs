//! Which headers of a request go on to the upstream.
//!
//! A rewritten target is a distinct HTTP authority. Credentials, cookies, forwarding
//! headers and connection-specific state never cross that boundary; DoH only needs
//! what negotiates the content.
use crate::octets;
use crate::text;
use crate::text_map;
use vstd::prelude::*;

verus! {

/// One header of a request or a response. Names are in small letters.
#[derive(Debug, Clone)]
pub struct HeaderField {
    pub name: String,
    pub value: Vec<u8>,
}

/// The names and values of headers.
pub open spec fn fields_view(fields: Seq<HeaderField>) -> Seq<(Seq<char>, Seq<u8>)> {
    Seq::new(fields.len(), |i: int| (fields[i].name@, fields[i].value@))
}

/// Whether headers of this name go on to the upstream.
pub open spec fn crosses(name: Seq<char>) -> bool {
    name == "accept"@ || name == "content-type"@
}

/// The headers that go on to the upstream: of those with the same name, the last.
pub open spec fn crossing(headers: Seq<(Seq<char>, Seq<u8>)>) -> Seq<(Seq<char>, Seq<u8>)>
    decreases headers.len(),
{
    if headers.len() == 0 {
        Seq::empty()
    } else {
        let before = crossing(headers.drop_last());
        let (name, value) = headers.last();
        if crosses(name) {
            text_map::filed(before, name, value)
        } else {
            before
        }
    }
}

/// The headers of a request to the upstream.
pub open spec fn upstream_fields(
    headers: Seq<(Seq<char>, Seq<u8>)>,
    target_hostname: Seq<char>,
) -> Seq<(Seq<char>, Seq<u8>)> {
    text_map::filed(
        crossing(headers),
        "host"@,
        vstd::utf8::encode_utf8(target_hostname),
    )
}

/// The value of the last header of a name.
pub open spec fn last_value(headers: Seq<(Seq<char>, Seq<u8>)>, name: Seq<char>) -> Option<Seq<u8>>
    decreases headers.len(),
{
    if headers.len() == 0 {
        None
    } else if headers.last().0 == name {
        Some(headers.last().1)
    } else {
        last_value(headers.drop_last(), name)
    }
}

/// Files a header under its name, in place of one that has it already.
fn set_field(fields: &mut Vec<HeaderField>, name: &str, value: Vec<u8>)
    ensures
        fields_view(final(fields)@) == text_map::filed(
            fields_view(old(fields)@),
            name@,
            value@,
        ),
{
    let mut at: usize = 0;
    while at < fields.len() && !text::same(fields[at].name.as_str(), name)
        invariant
            at <= fields.len(),
            fields@ == old(fields)@,
            forall|k: int|
                0 <= k < at ==> (#[trigger] fields_view(fields@)[k]).0 != name@,
        decreases fields.len() - at,
    {
        at += 1;
    }
    proof {
        text_map::lemma_position_is(fields_view(fields@), name@, at as int);
    }
    let ghost before = fields_view(fields@);
    let ghost named = (name@, value@);
    let field = HeaderField { name: name.to_owned(), value };
    if at < fields.len() {
        fields.set(at, field);
        assert(fields_view(fields@) == before.update(at as int, named));
    } else {
        fields.push(field);
        assert(fields_view(fields@) == before.push(named));
    }
}

/// The headers that go on to the upstream.
fn crossing_fields(headers: &Vec<HeaderField>) -> (r: Vec<HeaderField>)
    ensures
        fields_view(r@) == crossing(fields_view(headers@)),
{
    let mut r: Vec<HeaderField> = Vec::new();
    let mut i: usize = 0;
    assert(fields_view(r@) == Seq::<(Seq<char>, Seq<u8>)>::empty());
    while i < headers.len()
        invariant
            i <= headers.len(),
            fields_view(r@) == crossing(fields_view(headers@).take(i as int)),
        decreases headers.len() - i,
    {
        let ghost seen = fields_view(headers@).take(i + 1);
        assert(seen.drop_last() == fields_view(headers@).take(i as int));
        assert(seen.last() == (headers@[i as int].name@, headers@[i as int].value@));
        let field = &headers[i];
        if text::same(field.name.as_str(), "accept") || text::same(
            field.name.as_str(),
            "content-type",
        ) {
            set_field(&mut r, field.name.as_str(), octets::copy_of(field.value.as_slice()));
        }
        i += 1;
    }
    assert(fields_view(headers@).take(i as int) == fields_view(headers@));
    r
}

/// Whether a text can be the value of a header: it has no control characters but tabs.
pub open spec fn is_header_text(s: Seq<char>) -> bool {
    forall|i: int|
        0 <= i < s.len() ==> (((#[trigger] s[i]) as u32) >= 32 && (s[i] as u32) != 127)
            || s[i] == '\t'
}

/// What is said of a text that cannot be the value of a header.
pub open spec fn header_text_fault() -> Seq<char> {
    "failed to parse header value"@
}

/// Whether a result holds the bytes of a header value, or says why there are none.
pub open spec fn is_header_value(r: Result<Vec<u8>, String>, text: Seq<char>) -> bool {
    if is_header_text(text) {
        r matches Ok(bytes) && bytes@ == vstd::utf8::encode_utf8(text)
    } else {
        r matches Err(fault) && fault@ == header_text_fault()
    }
}

/// Calls `HeaderValue::from_str` of the `http` crate, by its name in `hyper`: a text
/// without control characters other than tabs becomes a value of the same bytes, any
/// other is refused in fixed words.
#[verifier::external_body]
fn header_value(text: &str) -> (r: Result<Vec<u8>, String>)
    ensures
        is_header_value(r, text@),
{
    match hyper::header::HeaderValue::from_str(text) {
        Ok(value) => Ok(value.as_bytes().to_vec()),
        Err(fault) => Err(fault.to_string()),
    }
}

/// The headers of a request to the upstream, or why the target is no Host value.
pub fn upstream_headers(headers: &Vec<HeaderField>, target_hostname: &str) -> (r: Result<
    Vec<HeaderField>,
    String,
>)
    ensures
        match r {
            Ok(fields) => is_header_text(target_hostname@) && fields_view(fields@)
                == upstream_fields(fields_view(headers@), target_hostname@),
            Err(fault) => !is_header_text(target_hostname@) && fault@ == header_text_fault(),
        },
{
    match header_value(target_hostname) {
        Ok(host) => {
            let mut fields = crossing_fields(headers);
            set_field(&mut fields, "host", host);
            Ok(fields)
        },
        Err(fault) => Err(fault),
    }
}

/// What the `http` crate says of a text that is no URI, if it is none.
pub uninterp spec fn uri_fault(text: Seq<char>) -> Option<Seq<char>>;

/// Calls `Uri::from_str` of the `http` crate, by its name in `hyper`: whether a text
/// is a URI, and what is said of one that is none, is a function of the text.
#[verifier::external_body]
pub(crate) fn judge_uri(text: &str) -> (r: Option<String>)
    ensures
        crate::utils::is_text(r, uri_fault(text@)),
{
    match text.parse::<hyper::Uri>() {
        Ok(_) => None,
        Err(fault) => Some(fault.to_string()),
    }
}

/// What `crossing` holds under a name is the last header of that name, where the
/// name may cross, and nothing otherwise.
proof fn lemma_crossing(headers: Seq<(Seq<char>, Seq<u8>)>, name: Seq<char>)
    ensures
        text_map::distinct_keys(crossing(headers)),
        text_map::value_at(crossing(headers), name) == if crosses(name) {
            last_value(headers, name)
        } else {
            None
        },
    decreases headers.len(),
{
    if headers.len() > 0 {
        lemma_crossing(headers.drop_last(), name);
        let (last, value) = headers.last();
        if crosses(last) {
            text_map::filing_changes_one_key(crossing(headers.drop_last()), last, value, name);
        }
    }
}

/// No header crosses to the upstream but those that negotiate the content, which keep
/// their last values, and a Host header that names the target.
pub proof fn only_negotiation_crosses(
    headers: Seq<(Seq<char>, Seq<u8>)>,
    target_hostname: Seq<char>,
    name: Seq<char>,
)
    ensures
        text_map::distinct_keys(upstream_fields(headers, target_hostname)),
        text_map::value_at(upstream_fields(headers, target_hostname), name) == if name
            == "host"@ {
            Some(vstd::utf8::encode_utf8(target_hostname))
        } else if crosses(name) {
            last_value(headers, name)
        } else {
            None
        },
{
    lemma_crossing(headers, name);
    text_map::filing_changes_one_key(
        crossing(headers),
        "host"@,
        vstd::utf8::encode_utf8(target_hostname),
        name,
    );
}

/// Every header of a request to the upstream is named `accept`, `content-type` or `host`,
/// each of them once at most. The first two have the value of the last header of the client
/// with that name and are there exactly where it sent one; the Host header names the target.
pub proof fn upstream_headers_by_name(
    headers: Seq<(Seq<char>, Seq<u8>)>,
    target_hostname: Seq<char>,
    i: int,
)
    requires
        0 <= i < upstream_fields(headers, target_hostname).len(),
    ensures
        ({
            let fields = upstream_fields(headers, target_hostname);
            let name = fields[i].0;
            &&& name == "accept"@ || name == "content-type"@ || name == "host"@
            &&& name == "host"@ ==> fields[i].1 == vstd::utf8::encode_utf8(target_hostname)
            &&& name == "accept"@ || name == "content-type"@ ==> last_value(headers, name) == Some(
                fields[i].1,
            )
            &&& forall|j: int|
                0 <= j < fields.len() && j != i ==> (#[trigger] fields[j]).0 != name
            &&& last_value(headers, "accept"@) is Some ==> exists|j: int|
                0 <= j < fields.len() && (#[trigger] fields[j]).0 == "accept"@
            &&& last_value(headers, "content-type"@) is Some ==> exists|j: int|
                0 <= j < fields.len() && (#[trigger] fields[j]).0 == "content-type"@
            &&& exists|j: int| 0 <= j < fields.len() && (#[trigger] fields[j]).0 == "host"@
        }),
{
    reveal_strlit("accept");
    reveal_strlit("content-type");
    reveal_strlit("host");
    assert("accept"@.len() != "host"@.len() && "content-type"@.len() != "host"@.len());
    let fields = upstream_fields(headers, target_hostname);
    let name = fields[i].0;
    only_negotiation_crosses(headers, target_hostname, name);
    text_map::values_are_found_by_their_keys(fields, i, name);
    only_negotiation_crosses(headers, target_hostname, "accept"@);
    text_map::values_are_found_by_their_keys(fields, i, "accept"@);
    only_negotiation_crosses(headers, target_hostname, "content-type"@);
    text_map::values_are_found_by_their_keys(fields, i, "content-type"@);
    only_negotiation_crosses(headers, target_hostname, "host"@);
    text_map::values_are_found_by_their_keys(fields, i, "host"@);
}

/// The last header of a name is the one behind which no other has it.
pub proof fn later_headers_count(
    headers: Seq<(Seq<char>, Seq<u8>)>,
    name: Seq<char>,
    value: Seq<u8>,
    other: Seq<char>,
)
    ensures
        last_value(Seq::empty(), name) is None,
        last_value(headers.push((name, value)), name) == Some(value),
        other != name ==> last_value(headers.push((name, value)), other) == last_value(
            headers,
            other,
        ),
{
    assert(headers.push((name, value)).drop_last() == headers);
}

/// The names and values of headers are those of the headers, in their order.
pub proof fn headers_keep_their_order(fields: Seq<HeaderField>, i: int)
    requires
        0 <= i < fields.len(),
    ensures
        fields_view(fields).len() == fields.len(),
        fields_view(fields)[i] == (fields[i].name@, fields[i].value@),
{
}

/// A text can be the value of a header exactly where each of its characters is a tab or
/// has a code point of 32 or more other than 127.
pub proof fn header_texts_by_code_point(s: Seq<char>)
    ensures
        is_header_text(s) <==> forall|i: int|
            0 <= i < s.len() ==> (#[trigger] s[i]) as int == 9 || (s[i] as int >= 32 && s[i] as int
                != 127),
{
    assert forall|i: int| 0 <= i < s.len() implies ((((#[trigger] s[i]) as u32) >= 32 && (
    s[i] as u32) != 127) <==> (s[i] as int >= 32 && s[i] as int != 127)) by {
        lemma_code_point(s[i]);
    }
    if is_header_text(s) {
        assert forall|i: int| 0 <= i < s.len() implies (#[trigger] s[i]) as int == 9 || (
        s[i] as int >= 32 && s[i] as int != 127) by {
            lemma_code_point(s[i]);
        }
    }
}

/// A code point is the same number in every type that holds it.
proof fn lemma_code_point(c: char)
    ensures
        (c as u32) as int == c as int,
{
}

} // verus!
