//! Rewriting by base domain: `prefix.base` leads to `prefix` + target suffix.
use crate::config;
use crate::config::RewriteConfig;
use crate::sni;
use crate::sni::{RewriteResult, RewriteView};
use crate::text;
use vstd::prelude::*;

verus! {

/// A host name in the form in which names are compared: no dots at the end, no
/// capital letters.
pub open spec fn canonical(name: Seq<char>) -> Seq<char> {
    text::lower(text::trim_dots(name))
}

/// A list of domains, each in canonical form.
pub open spec fn canonical_domains(domains: Seq<Seq<char>>) -> Seq<Seq<char>> {
    Seq::new(domains.len(), |i: int| canonical(domains[i]))
}

/// What stands before `base` and the dot in front of it, where `name` is a proper
/// subdomain of `base`.
pub open spec fn prefix_below(name: Seq<char>, base: Seq<char>) -> Option<Seq<char>> {
    if text::ends_with(name, base) {
        let rest = name.take(name.len() - base.len());
        if rest.len() >= 2 && rest.last() == '.' {
            Some(rest.drop_last())
        } else {
            None
        }
    } else {
        None
    }
}

/// The prefix below the first of `bases` that `name` is a proper subdomain of.
pub open spec fn first_prefix(name: Seq<char>, bases: Seq<Seq<char>>) -> Option<Seq<char>>
    decreases bases.len(),
{
    if bases.len() == 0 {
        None
    } else {
        match prefix_below(name, bases[0]) {
            Some(prefix) => Some(prefix),
            None => first_prefix(name, bases.skip(1)),
        }
    }
}

/// The characters of a canonical host name.
pub open spec fn is_host_char(c: char) -> bool {
    ('a' <= c && c <= 'z') || ('0' <= c && c <= '9') || c == '.' || c == '-'
}

/// Whether every character is one of a canonical host name.
pub open spec fn is_host_text(s: Seq<char>) -> bool {
    forall|i: int| 0 <= i < s.len() ==> is_host_char(#[trigger] s[i])
}

/// What a server name is rewritten to, given the canonical base domains and the
/// target suffix: nothing where the name lies below no base domain.
pub open spec fn rewritten(bases: Seq<Seq<char>>, suffix: Seq<char>, sni: Seq<char>) -> Option<
    RewriteView,
> {
    if sni.len() == 0 || bases.len() == 0 || !text::begins_with(suffix, '.') || !is_host_text(
        canonical(sni),
    ) {
        None
    } else {
        match first_prefix(canonical(sni), bases) {
            Some(prefix) => Some(
                RewriteView { original: canonical(sni), prefix, target_hostname: prefix + suffix },
            ),
            None => None,
        }
    }
}

/// The rewriter. Its base domains are in canonical form and its target suffix has
/// no capital letters.
#[derive(Debug)]
pub struct BaseSniRewriter {
    config: RewriteConfig,
}

impl BaseSniRewriter {
    /// The base domains, in the order in which they are tried.
    pub closed spec fn bases(&self) -> Seq<Seq<char>> {
        config::texts(self.config.base_domains@)
    }

    /// The target suffix.
    pub closed spec fn suffix(&self) -> Seq<char> {
        self.config.target_suffix@
    }

    /// A rewriter for a configuration, whose names are brought into canonical form.
    pub fn new(config: RewriteConfig) -> (r: Self)
        ensures
            r.bases() == canonical_domains(config::texts(config.base_domains@)),
            r.suffix() == text::lower(config.target_suffix@),
    {
        let mut domains: Vec<String> = Vec::new();
        let mut i: usize = 0;
        while i < config.base_domains.len()
            invariant
                i <= config.base_domains.len(),
                domains.len() == i,
                forall|k: int|
                    0 <= k < i ==> (#[trigger] domains@[k])@ == canonical(
                        config.base_domains@[k]@,
                    ),
            decreases config.base_domains.len() - i,
        {
            let trimmed = text::without_end_dots(config.base_domains[i].as_str());
            domains.push(text::to_lower(trimmed.as_str()));
            i += 1;
        }
        let suffix = text::to_lower(config.target_suffix.as_str());
        proof {
            assert(config::texts(domains@) == canonical_domains(config::texts(config.base_domains@)));
        }
        BaseSniRewriter { config: RewriteConfig { base_domains: domains, target_suffix: suffix } }
    }

    /// The prefix of a canonical name below the first base domain that matches.
    pub fn extract_prefix(&self, sni: &str) -> (r: Option<String>)
        ensures
            r is Some <==> first_prefix(sni@, self.bases()) is Some,
            r matches Some(prefix) ==> first_prefix(sni@, self.bases()) == Some(prefix@),
    {
        let chars = text::chars_of(sni);
        let mut i: usize = 0;
        proof {
            assert(self.bases().skip(0) == self.bases());
        }
        while i < self.config.base_domains.len()
            invariant
                i <= self.config.base_domains.len(),
                chars@ == sni@,
                first_prefix(sni@, self.bases()) == first_prefix(sni@, self.bases().skip(i as int)),
            decreases self.config.base_domains.len() - i,
        {
            let base = self.config.base_domains[i].as_str();
            let ghost left = self.bases().skip(i as int);
            proof {
                assert(left[0] == base@);
                assert(left.skip(1) == self.bases().skip(i + 1));
            }
            if text::ends_with_text(sni, base) {
                let n: usize = chars.len() - text::chars_of(base).len();
                proof {
                    assert(sni@.take(n as int).len() == n);
                }
                if n >= 2 && chars[n - 1] == '.' {
                    proof {
                        assert(sni@.take(n as int).drop_last() == chars@.subrange(0, n - 1));
                    }
                    return Some(text::string_of(&chars, 0, n - 1));
                }
            }
            i += 1;
        }
        None
    }

    /// The upstream host name for a prefix.
    pub fn build_target_hostname(&self, prefix: &str) -> (r: String)
        ensures
            r@ == prefix@ + self.suffix(),
    {
        text::join(prefix, self.config.target_suffix.as_str())
    }

    /// Rewrites a server name.
    pub fn rewrite(&self, sni: &str) -> (r: Option<RewriteResult>)
        ensures
            sni::rewrite_view(r) == rewritten(self.bases(), self.suffix(), sni@),
    {
        if sni.is_empty() {
            return None;
        }
        if self.config.base_domains.is_empty() {
            return None;
        }
        if !text::starts_with_char(self.config.target_suffix.as_str(), '.') {
            return None;
        }
        let trimmed = text::without_end_dots(sni);
        let normalized = text::to_lower(trimmed.as_str());
        if !is_host(normalized.as_str()) {
            return None;
        }
        match self.extract_prefix(normalized.as_str()) {
            Some(prefix) => {
                let target_hostname = self.build_target_hostname(prefix.as_str());
                Some(RewriteResult { original: normalized, prefix, target_hostname })
            },
            None => None,
        }
    }
}

/// Folding twice changes nothing more.
proof fn lemma_lower_twice(s: Seq<char>)
    ensures
        text::lower(text::lower(s)) == text::lower(s),
{
    assert forall|i: int| 0 <= i < s.len() implies text::lower_char(text::lower_char(s[i]))
        == text::lower_char(s[i]) by {}
}

/// Folding and trimming may be done in either order.
proof fn lemma_lower_trims(s: Seq<char>)
    ensures
        text::trim_dots(text::lower(s)) == text::lower(text::trim_dots(s)),
    decreases s.len(),
{
    if s.len() > 0 {
        assert(text::lower(s).last() == text::lower_char(s.last()));
        assert(text::lower_char(s.last()) == '.' <==> s.last() == '.');
        if s.last() == '.' {
            assert(text::lower(s).drop_last() == text::lower(s.drop_last()));
            lemma_lower_trims(s.drop_last());
        }
    }
}

/// Trimming leaves no dot at the end.
proof fn lemma_trimmed(s: Seq<char>)
    ensures
        text::trim_dots(text::trim_dots(s)) == text::trim_dots(s),
    decreases s.len(),
{
    if s.len() > 0 && s.last() == '.' {
        lemma_trimmed(s.drop_last());
    }
}

/// The canonical form of a name is its own canonical form.
pub proof fn canonical_is_stable(name: Seq<char>)
    ensures
        canonical(canonical(name)) == canonical(name),
{
    let trimmed = text::trim_dots(name);
    lemma_lower_trims(trimmed);
    lemma_trimmed(name);
    lemma_lower_twice(trimmed);
}

/// Where a prefix is found, some base domain follows it behind a dot.
proof fn lemma_first_prefix_found(name: Seq<char>, bases: Seq<Seq<char>>) -> (at: int)
    requires
        first_prefix(name, bases) is Some,
    ensures
        0 <= at < bases.len(),
        first_prefix(name, bases) == prefix_below(name, bases[at]),
        forall|k: int| 0 <= k < at ==> prefix_below(name, #[trigger] bases[k]) is None,
    decreases bases.len(),
{
    if prefix_below(name, bases[0]) is Some {
        0
    } else {
        let rest = bases.skip(1);
        let at = lemma_first_prefix_found(name, rest);
        assert forall|k: int| 0 <= k < at + 1 implies prefix_below(
            name,
            #[trigger] bases[k],
        ) is None by {
            if k > 0 {
                assert(rest[k - 1] == bases[k]);
            }
        }
        at + 1
    }
}

/// Where one base domain matches, a prefix is found.
proof fn lemma_first_prefix_exists(name: Seq<char>, bases: Seq<Seq<char>>, at: int)
    requires
        0 <= at < bases.len(),
        prefix_below(name, bases[at]) is Some,
    ensures
        first_prefix(name, bases) is Some,
    decreases bases.len(),
{
    if prefix_below(name, bases[0]) is None {
        assert(bases.skip(1)[at - 1] == bases[at]);
        lemma_first_prefix_exists(name, bases.skip(1), at - 1);
    }
}

/// `prefix`, a dot and `base` give back `prefix`.
proof fn lemma_prefix_of_join(prefix: Seq<char>, base: Seq<char>)
    requires
        prefix.len() > 0,
    ensures
        prefix_below(prefix.push('.') + base, base) == Some(prefix),
{
    let name = prefix.push('.') + base;
    assert(name.skip(name.len() - base.len()) == base);
    assert(name.take(name.len() - base.len()) == prefix.push('.'));
    assert(prefix.push('.').drop_last() == prefix);
}

/// Server names are compared without regard to case: a name and the same name in
/// small letters are rewritten alike.
pub proof fn rewrite_ignores_case(bases: Seq<Seq<char>>, suffix: Seq<char>, sni: Seq<char>)
    ensures
        rewritten(bases, suffix, text::lower(sni)) == rewritten(bases, suffix, sni),
{
    lemma_lower_trims(sni);
    lemma_lower_twice(text::trim_dots(sni));
}

/// The dot of a fully qualified name does not matter: a name with and without it
/// is rewritten alike.
pub proof fn rewrite_ignores_final_dot(bases: Seq<Seq<char>>, suffix: Seq<char>, sni: Seq<char>)
    ensures
        rewritten(bases, suffix, sni.push('.')) == rewritten(bases, suffix, sni),
{
    assert(sni.push('.').drop_last() == sni);
    if sni.len() == 0 {
        let name = canonical(sni.push('.'));
        assert(name.len() == 0);
        if first_prefix(name, bases) is Some {
            let at = lemma_first_prefix_found(name, bases);
        }
    }
}

/// Every rewrite keeps the routing rule: the canonical name is the prefix, a dot
/// and one of the base domains, the first that matches, and the target is the same
/// prefix followed by the target suffix.
pub proof fn rewrite_stays_below_a_base(bases: Seq<Seq<char>>, suffix: Seq<char>, sni: Seq<char>)
    requires
        rewritten(bases, suffix, sni) is Some,
    ensures
        ({
            let r = rewritten(bases, suffix, sni)->0;
            &&& r.prefix.len() > 0
            &&& r.original == canonical(sni)
            &&& r.target_hostname == r.prefix + suffix
            &&& exists|at: int|
                0 <= at < bases.len() && r.original == r.prefix.push('.') + #[trigger] bases[at]
                    && forall|k: int|
                    0 <= k < at ==> prefix_below(r.original, #[trigger] bases[k]) is None
        }),
{
    let r = rewritten(bases, suffix, sni)->0;
    let name = canonical(sni);
    let at = lemma_first_prefix_found(name, bases);
    let rest = name.take(name.len() - bases[at].len());
    assert(rest.drop_last().push('.') == rest);
    assert(rest + name.skip(name.len() - bases[at].len()) == name);
    assert(r.original == r.prefix.push('.') + bases[at]);
}

/// A name below no base domain is never routed.
pub proof fn unmatched_names_are_rejected(bases: Seq<Seq<char>>, suffix: Seq<char>, sni: Seq<char>)
    requires
        forall|at: int, prefix: Seq<char>|
            0 <= at < bases.len() && prefix.len() > 0 ==> canonical(sni) != #[trigger] (
            prefix.push('.') + bases[at]),
    ensures
        rewritten(bases, suffix, sni) is None,
{
    if rewritten(bases, suffix, sni) is Some {
        rewrite_stays_below_a_base(bases, suffix, sni);
        let r = rewritten(bases, suffix, sni)->0;
        let at = choose|at: int|
            0 <= at < bases.len() && r.original == r.prefix.push('.') + #[trigger] bases[at]
                && forall|k: int|
                0 <= k < at ==> prefix_below(r.original, #[trigger] bases[k]) is None;
        assert(canonical(sni) == r.prefix.push('.') + bases[at]);
    }
}

/// Every host name below a base domain is routed: success is owed for each base
/// domain and each prefix of host characters.
pub proof fn names_below_a_base_are_rewritten(
    bases: Seq<Seq<char>>,
    suffix: Seq<char>,
    prefix: Seq<char>,
    at: int,
)
    requires
        text::begins_with(suffix, '.'),
        0 <= at < bases.len(),
        bases[at].len() > 0,
        bases[at].last() != '.',
        prefix.len() > 0,
        is_host_text(prefix),
        is_host_text(bases[at]),
    ensures
        rewritten(bases, suffix, prefix.push('.') + bases[at]) is Some,
{
    let name = prefix.push('.') + bases[at];
    assert(name.last() == bases[at].last());
    assert(text::trim_dots(name) == name);
    assert forall|i: int| 0 <= i < name.len() implies is_host_char(#[trigger] name[i]) by {
        if i < prefix.len() {
            assert(name[i] == prefix[i]);
        } else if i > prefix.len() {
            assert(name[i] == bases[at][i - prefix.len() - 1]);
        }
    }
    assert(text::lower(name) == name);
    lemma_prefix_of_join(prefix, bases[at]);
    lemma_first_prefix_exists(name, bases, at);
}

/// Whether every character is one of a canonical host name.
pub fn is_host(s: &str) -> (r: bool)
    ensures
        r == is_host_text(s@),
        r <==> forall|i: int|
            0 <= i < s@.len() ==> 97 <= (#[trigger] s@[i]) as int <= 122 || 48 <= s@[i] as int <= 57
                || s@[i] as int == 45 || s@[i] as int == 46,
{
    let chars = text::chars_of(s);
    let mut i: usize = 0;
    while i < chars.len()
        invariant
            i <= chars.len(),
            chars@ == s@,
            forall|k: int| 0 <= k < i ==> is_host_char(#[trigger] s@[k]),
        decreases chars.len() - i,
    {
        let c: char = chars[i];
        if !(('a' <= c && c <= 'z') || ('0' <= c && c <= '9') || c == '.' || c == '-') {
            proof {
                assert(!is_host_char(s@[i as int]));
            }
            return false;
        }
        i += 1;
    }
    true
}

/// Every name of ASCII letters, digits, hyphens and dots below a base domain of such
/// characters is rewritten: its target is what stands before a base domain and the dot in
/// front of it, and the target suffix. Where no earlier base domain is an end of the name
/// too, that is the very prefix.
pub proof fn ascii_names_below_a_base_are_rewritten(
    bases: Seq<Seq<char>>,
    suffix: Seq<char>,
    prefix: Seq<char>,
    at: int,
)
    requires
        suffix.len() > 0,
        suffix[0] as int == 46,
        0 <= at < bases.len(),
        bases[at].len() > 0,
        bases[at].last() as int != 46,
        prefix.len() > 0,
        forall|i: int|
            0 <= i < prefix.len() ==> 97 <= (#[trigger] prefix[i]) as int <= 122 || 48
                <= prefix[i] as int <= 57 || prefix[i] as int == 45 || prefix[i] as int == 46,
        forall|i: int|
            0 <= i < bases[at].len() ==> 97 <= (#[trigger] bases[at][i]) as int <= 122 || 48
                <= bases[at][i] as int <= 57 || bases[at][i] as int == 45 || bases[at][i] as int
                == 46,
    ensures
        ({
            let name = prefix.push('.') + bases[at];
            &&& rewritten(bases, suffix, name) matches Some(r) && {
                &&& r.original == name
                &&& r.target_hostname == r.prefix + suffix
                &&& exists|k: int|
                    0 <= k <= at && name == r.prefix.push('.') + #[trigger] bases[k]
            }
            &&& (forall|k: int, other: Seq<char>|
                0 <= k < at ==> name != #[trigger] (other.push('.') + bases[k]))
                ==> rewritten(bases, suffix, name)->0.prefix == prefix
        }),
{
    let name = prefix.push('.') + bases[at];
    assert(is_host_text(prefix));
    assert(is_host_text(bases[at]));
    names_below_a_base_are_rewritten(bases, suffix, prefix, at);
    rewrite_stays_below_a_base(bases, suffix, name);
    let r = rewritten(bases, suffix, name)->0;
    lemma_host_text_is_canonical(name, prefix, bases[at]);
    let k = choose|k: int|
        0 <= k < bases.len() && r.original == r.prefix.push('.') + #[trigger] bases[k] && forall|
            j: int,
        |
            0 <= j < k ==> prefix_below(r.original, #[trigger] bases[j]) is None;
    lemma_prefix_of_join(prefix, bases[at]);
    assert(k <= at);
    assert(name == r.prefix.push('.') + bases[k]);
    if forall|k: int, other: Seq<char>|
        0 <= k < at ==> name != #[trigger] (other.push('.') + bases[k]) {
        assert(k == at);
        lemma_prefix_of_join(r.prefix, bases[at]);
    }
}

/// A name of host characters that does not end in a dot is in canonical form.
proof fn lemma_host_text_is_canonical(name: Seq<char>, prefix: Seq<char>, base: Seq<char>)
    requires
        name == prefix.push('.') + base,
        base.len() > 0,
        base.last() != '.',
        is_host_text(prefix),
        is_host_text(base),
    ensures
        canonical(name) == name,
{
    assert(name.last() == base.last());
    assert(text::trim_dots(name) == name);
    assert forall|i: int| 0 <= i < name.len() implies text::lower_char(#[trigger] name[i])
        == name[i] by {
        if i < prefix.len() {
            assert(name[i] == prefix[i]);
            assert(is_host_char(prefix[i]));
        } else if i > prefix.len() {
            assert(name[i] == base[i - prefix.len() - 1]);
            assert(is_host_char(base[i - prefix.len() - 1]));
        }
    }
    assert(text::lower(name) == name);
}

/// The canonical form of a name has the dots at its end removed and each capital letter,
/// 65 to 90 by code point, moved up by 32; it is the name in every other respect.
pub proof fn canonical_names_by_code_point(name: Seq<char>, dots: Seq<char>, i: int)
    requires
        name.len() == 0 || name.last() as int != 46,
        forall|k: int| 0 <= k < dots.len() ==> (#[trigger] dots[k]) as int == 46,
        0 <= i < name.len(),
    ensures
        canonical(name + dots).len() == name.len(),
        65 <= name[i] as int <= 90 ==> canonical(name + dots)[i] as int == name[i] as int + 32,
        !(65 <= name[i] as int <= 90) ==> canonical(name + dots)[i] == name[i],
{
    text::dots_at_the_end_are_trimmed(name, dots);
    text::folding_moves_capitals_only(name, i);
}

/// Each base domain keeps its place when the domains are brought into canonical form, and
/// none is lost or added.
pub proof fn domains_keep_their_places(domains: Seq<Seq<char>>, i: int)
    requires
        0 <= i < domains.len(),
    ensures
        canonical_domains(domains).len() == domains.len(),
        canonical_domains(domains)[i] == canonical(domains[i]),
{
}

/// A name with any character other than ASCII letters, digits, hyphens and dots is never
/// routed.
pub proof fn names_with_other_characters_are_rejected(
    bases: Seq<Seq<char>>,
    suffix: Seq<char>,
    sni: Seq<char>,
    i: int,
)
    requires
        0 <= i < sni.len(),
        !(97 <= sni[i] as int <= 122 || 65 <= sni[i] as int <= 90 || 48 <= sni[i] as int <= 57
            || sni[i] as int == 45 || sni[i] as int == 46),
    ensures
        rewritten(bases, suffix, sni) is None,
{
    lemma_trimming_keeps(sni, i);
    let name = canonical(sni);
    assert(name[i] == sni[i]);
    assert(!is_host_char(name[i]));
}

/// What is no dot is not trimmed, nor is anything before it.
pub proof fn lemma_trimming_keeps(s: Seq<char>, i: int)
    requires
        0 <= i < s.len(),
        s[i] != '.',
    ensures
        i < text::trim_dots(s).len(),
        text::trim_dots(s)[i] == s[i],
    decreases s.len(),
{
    if s.last() == '.' {
        lemma_trimming_keeps(s.drop_last(), i);
    }
}

/// Without a base domain, or with a target suffix that does not begin with a dot, no name
/// is routed.
pub proof fn nothing_is_routed_without_a_rule(
    bases: Seq<Seq<char>>,
    suffix: Seq<char>,
    sni: Seq<char>,
)
    requires
        bases.len() == 0 || suffix.len() == 0 || suffix[0] as int != 46,
    ensures
        rewritten(bases, suffix, sni) is None,
{
}

/// A base domain itself is not routed, nor is a name that only ends in its letters, where
/// it is the only one.
pub proof fn a_base_domain_is_not_below_itself(
    base: Seq<char>,
    suffix: Seq<char>,
    front: Seq<char>,
)
    requires
        front.len() > 0 ==> front.last() as int != 46,
        canonical(front + base) == front + base,
    ensures
        rewritten(seq![base], suffix, front + base) is None,
{
    let name = front + base;
    let bases = seq![base];
    if rewritten(bases, suffix, name) is Some {
        rewrite_stays_below_a_base(bases, suffix, name);
        let r = rewritten(bases, suffix, name)->0;
        let k = choose|k: int|
            0 <= k < bases.len() && r.original == r.prefix.push('.') + #[trigger] bases[k]
                && forall|j: int|
                0 <= j < k ==> prefix_below(r.original, #[trigger] bases[j]) is None;
        assert(name == r.prefix.push('.') + base);
        assert(name.len() == front.len() + base.len());
        assert(front.len() == r.prefix.len() + 1);
        assert(name[front.len() - 1] == front.last());
        assert((r.prefix.push('.') + base)[front.len() - 1] == '.');
    }
}

/// The prefix of a name is what stands before the first base domain, in their order, that
/// ends the name behind a dot and something before it; a name that none of them ends so has
/// no prefix.
pub proof fn prefixes_stand_before_the_first_base(name: Seq<char>, bases: Seq<Seq<char>>)
    ensures
        match first_prefix(name, bases) {
            Some(prefix) => prefix.len() > 0 && exists|at: int|
                0 <= at < bases.len() && name == prefix.push('.') + #[trigger] bases[at]
                    && forall|k: int, other: Seq<char>|
                    0 <= k < at && other.len() > 0 ==> name != #[trigger] (other.push('.')
                        + bases[k]),
            None => forall|k: int, other: Seq<char>|
                0 <= k < bases.len() && other.len() > 0 ==> name != #[trigger] (other.push('.')
                    + bases[k]),
        },
{
    match first_prefix(name, bases) {
        Some(prefix) => {
            let at = lemma_first_prefix_found(name, bases);
            let rest = name.take(name.len() - bases[at].len());
            assert(rest.drop_last().push('.') == rest);
            assert(rest + name.skip(name.len() - bases[at].len()) == name);
            assert(name == prefix.push('.') + bases[at]);
            assert forall|k: int, other: Seq<char>| 0 <= k < at && other.len() > 0 implies name
                != #[trigger] (other.push('.') + bases[k]) by {
                assert(prefix_below(name, bases[k]) is None);
                lemma_prefix_of_join(other, bases[k]);
            }
        },
        None => {
            assert forall|k: int, other: Seq<char>| 0 <= k < bases.len() && other.len()
                > 0 implies name != #[trigger] (other.push('.') + bases[k]) by {
                lemma_prefix_of_join(other, bases[k]);
                if name == other.push('.') + bases[k] {
                    lemma_first_prefix_exists(name, bases, k);
                }
            }
        },
    }
}

} // verus!
