//! Host names out of HTTP requests, and the delays between retries.
pub mod backoff;

use crate::rewriters::base;
use crate::text;
use vstd::prelude::*;

verus! {

/// The host part of an HTTP authority, or nothing where the text is no authority.
pub uninterp spec fn authority_host(authority: Seq<char>) -> Option<Seq<char>>;

/// The characters of a host name, in either case.
pub open spec fn is_name_char(c: char) -> bool {
    ('a' <= c && c <= 'z') || ('A' <= c && c <= 'Z') || ('0' <= c && c <= '9') || c == '.' || c
        == '-'
}

/// Whether a text consists of host name characters.
pub open spec fn is_name_text(s: Seq<char>) -> bool {
    forall|i: int| 0 <= i < s.len() ==> is_name_char(#[trigger] s[i])
}

/// Calls `hyper::http::uri::Authority`'s `FromStr` and `Authority::host`: the host
/// part of an authority, without user information, port and what frames them. A
/// text of host name characters alone is an authority and its own host.
#[verifier::external_body]
fn parse_authority_host(authority: &str) -> (r: Option<String>)
    ensures
        is_text(r, authority_host(authority@)),
        authority@.len() > 0 && is_name_text(authority@) ==> is_text(r, Some(authority@)),
{
    match authority.parse::<hyper::http::uri::Authority>() {
        Ok(parsed) => Some(parsed.host().to_string()),
        Err(_) => None,
    }
}

/// The canonical form of a host, or nothing where it is no DNS host name.
pub open spec fn canonical_host(host: Option<Seq<char>>) -> Option<Seq<char>> {
    match host {
        Some(name) => {
            let canonical = base::canonical(name);
            if canonical.len() > 0 && base::is_host_text(canonical) {
                Some(canonical)
            } else {
                None
            }
        },
        None => None,
    }
}

/// Whether an optional string holds the given optional text.
pub open spec fn is_text(r: Option<String>, wanted: Option<Seq<char>>) -> bool {
    match wanted {
        Some(text) => r matches Some(found) && found@ == text,
        None => r is None,
    }
}

/// The canonical form of a host, or nothing where it is no DNS host name.
pub fn canonicalize_host(host: &str) -> (r: Option<String>)
    ensures
        is_text(r, canonical_host(Some(host@))),
{
    let trimmed = text::without_end_dots(host);
    let name = text::to_lower(trimmed.as_str());
    if !name.as_str().is_empty() && base::is_host(name.as_str()) {
        Some(name)
    } else {
        None
    }
}

/// Takes the canonical DNS host name out of an HTTP Host or authority value.
pub fn normalize_hostname(authority: &str) -> (r: Option<String>)
    ensures
        is_text(r, canonical_host(authority_host(authority@))),
        authority@.len() > 0 && is_name_text(authority@) ==> is_text(
            r,
            canonical_host(Some(authority@)),
        ),
{
    match parse_authority_host(authority) {
        Some(host) => canonicalize_host(host.as_str()),
        None => None,
    }
}

/// A host name that went through normalisation stays as it is when it goes through
/// again.
pub proof fn canonical_hosts_are_stable(host: Seq<char>)
    requires
        canonical_host(Some(host)) is Some,
    ensures
        canonical_host(canonical_host(Some(host))) == canonical_host(Some(host)),
{
    base::canonical_is_stable(host);
}

/// Every host of ASCII letters, digits, hyphens and dots has a canonical form, as long as
/// something other than dots is in it: the host without the dots at its end, each capital
/// letter, 65 to 90 by code point, moved up by 32.
pub proof fn ascii_hosts_have_a_canonical_form(name: Seq<char>, dots: Seq<char>, i: int)
    requires
        name.len() > 0,
        name.last() as int != 46,
        forall|k: int| 0 <= k < dots.len() ==> (#[trigger] dots[k]) as int == 46,
        forall|k: int|
            0 <= k < name.len() ==> 97 <= (#[trigger] name[k]) as int <= 122 || 65
                <= name[k] as int <= 90 || 48 <= name[k] as int <= 57 || name[k] as int == 45
                || name[k] as int == 46,
        0 <= i < name.len(),
    ensures
        canonical_host(Some(name + dots)) matches Some(host) && {
            &&& host.len() == name.len()
            &&& 65 <= name[i] as int <= 90 ==> host[i] as int == name[i] as int + 32
            &&& !(65 <= name[i] as int <= 90) ==> host[i] == name[i]
        },
{
    base::canonical_names_by_code_point(name, dots, i);
    let host = base::canonical(name + dots);
    assert forall|k: int| 0 <= k < host.len() implies base::is_host_char(#[trigger] host[k]) by {
        base::canonical_names_by_code_point(name, dots, k);
        assert(97 <= name[k] as int <= 122 || 65 <= name[k] as int <= 90 || 48 <= name[k] as int
            <= 57 || name[k] as int == 45 || name[k] as int == 46);
    }
}

/// A host with any other character has no canonical form, and neither has one of dots
/// alone, or none at all.
pub proof fn other_hosts_have_no_canonical_form(name: Seq<char>, i: int, dots: Seq<char>)
    requires
        0 <= i < name.len(),
        !(97 <= name[i] as int <= 122 || 65 <= name[i] as int <= 90 || 48 <= name[i] as int <= 57
            || name[i] as int == 45 || name[i] as int == 46),
        forall|k: int| 0 <= k < dots.len() ==> (#[trigger] dots[k]) as int == 46,
    ensures
        canonical_host(Some(name)) is None,
        canonical_host(Some(dots)) is None,
        canonical_host(None) is None,
{
    base::lemma_trimming_keeps(name, i);
    let host = base::canonical(name);
    assert(host[i] == name[i]);
    assert(!base::is_host_char(host[i]));
    text::dots_at_the_end_are_trimmed(Seq::empty(), dots);
    assert(Seq::<char>::empty() + dots == dots);
}

/// Host name characters by their code points: letters of either case, digits, the dot and
/// the hyphen.
pub proof fn name_characters_by_code_point(c: char)
    ensures
        is_name_char(c) <==> 97 <= c as int <= 122 || 65 <= c as int <= 90 || 48 <= c as int <= 57
            || c as int == 45 || c as int == 46,
{
}

/// An optional string holds an optional text exactly where both are missing, or both are
/// there and the same.
pub proof fn optional_texts_are_held_as_they_are(found: String, wanted: Seq<char>)
    ensures
        is_text(Some(found), Some(wanted)) <==> found@ == wanted,
        is_text(None, None),
        !is_text(None, Some(wanted)),
        !is_text(Some(found), None),
{
}

} // verus!
