//! DNS names as a configuration may hold them.
use crate::rewriters::base;
use crate::text;
use vstd::prelude::*;

verus! {

/// The longest host name that DNS can carry, in characters.
pub const MAX_NAME_LENGTH: usize = 253;

/// The longest label of a host name.
pub const MAX_LABEL_LENGTH: usize = 63;

/// The characters of a label: small letters, digits and hyphens.
pub open spec fn is_label_char(c: char) -> bool {
    ('a' <= c && c <= 'z') || ('0' <= c && c <= '9') || c == '-'
}

/// Whether a text is one label of a host name: it has 1 to 63 label characters and
/// a hyphen neither at its beginning nor at its end.
pub open spec fn is_label(label: Seq<char>) -> bool {
    &&& 1 <= label.len() <= MAX_LABEL_LENGTH
    &&& label[0] != '-'
    &&& label.last() != '-'
    &&& forall|i: int| 0 <= i < label.len() ==> is_label_char(#[trigger] label[i])
}

/// Whether each piece is a label.
pub open spec fn all_labels(labels: Seq<Seq<char>>) -> bool {
    forall|i: int| 0 <= i < labels.len() ==> is_label(#[trigger] labels[i])
}

/// Whether a text is a DNS name in small ASCII letters.
pub open spec fn is_dns_name(name: Seq<char>) -> bool {
    1 <= name.len() <= MAX_NAME_LENGTH && all_labels(text::pieces(name, '.'))
}

/// Whether a text is a dot and a DNS name.
pub open spec fn is_dns_suffix(suffix: Seq<char>) -> bool {
    text::begins_with(suffix, '.') && is_dns_name(suffix.skip(1))
}

/// Whether `chars[from..to]` is a label.
fn is_label_range(chars: &Vec<char>, from: usize, to: usize) -> (r: bool)
    requires
        from <= to <= chars.len(),
    ensures
        r == is_label(chars@.subrange(from as int, to as int)),
{
    let ghost label = chars@.subrange(from as int, to as int);
    if from == to || to - from > MAX_LABEL_LENGTH || chars[from] == '-' || chars[to - 1] == '-' {
        return false;
    }
    let mut i: usize = from;
    while i < to
        invariant
            from <= i <= to <= chars.len(),
            label == chars@.subrange(from as int, to as int),
            forall|k: int| 0 <= k < i - from ==> is_label_char(#[trigger] label[k]),
        decreases to - i,
    {
        let c: char = chars[i];
        if !(('a' <= c && c <= 'z') || ('0' <= c && c <= '9') || c == '-') {
            proof {
                assert(label[i - from] == c);
            }
            return false;
        }
        i += 1;
    }
    true
}

/// Whether a text is a DNS name in small ASCII letters.
pub fn is_ascii_dns_name(name: &str) -> (r: bool)
    ensures
        r == is_dns_name(name@),
{
    let chars = text::chars_of(name);
    if chars.len() == 0 || chars.len() > MAX_NAME_LENGTH {
        return false;
    }
    let mut from: usize = 0;
    proof {
        assert(name@.skip(0) == name@);
    }
    loop
        invariant
            from <= chars.len(),
            chars@ == name@,
            1 <= name@.len() <= MAX_NAME_LENGTH,
            is_dns_name(name@) == all_labels(text::pieces(name@.skip(from as int), '.')),
        decreases chars.len() + 1 - from,
    {
        let to: usize = text::find_char(&chars, '.', from);
        let ghost rest = name@.skip(from as int);
        let ghost labels = text::pieces(rest, '.');
        let good = is_label_range(&chars, from, to);
        proof {
            assert(rest.take(to - from) == chars@.subrange(from as int, to as int));
        }
        if to == chars.len() {
            proof {
                assert(rest.take(to - from) == rest);
                assert(labels == seq![rest]);
                assert(labels[0] == rest);
            }
            return good;
        }
        proof {
            let later = text::pieces(rest.skip(to - from + 1), '.');
            assert(labels == seq![rest.take(to - from)] + later);
            assert(rest.skip(to - from + 1) == name@.skip(to + 1));
            assert(labels[0] == rest.take(to - from));
            assert(all_labels(labels) == (is_label(labels[0]) && all_labels(later))) by {
                assert forall|i: int| 0 <= i < later.len() implies #[trigger] later[i]
                    == labels[i + 1] by {}
                if is_label(labels[0]) && all_labels(later) {
                    assert forall|i: int| 0 <= i < labels.len() implies is_label(
                        #[trigger] labels[i],
                    ) by {
                        if i > 0 {
                            assert(labels[i] == later[i - 1]);
                        }
                    }
                }
            }
        }
        if !good {
            return false;
        }
        from = to + 1;
    }
}

/// Whether a text is a dot and a DNS name.
pub fn is_ascii_dns_suffix(suffix: &str) -> (r: bool)
    ensures
        r == is_dns_suffix(suffix@),
{
    let chars = text::chars_of(suffix);
    if chars.len() == 0 || chars[0] != '.' {
        return false;
    }
    let name = text::string_of(&chars, 1, chars.len());
    proof {
        assert(suffix@.skip(1) == chars@.subrange(1, chars@.len() as int));
    }
    is_ascii_dns_name(name.as_str())
}

/// Where the pieces of a text are labels, each of its characters is a label
/// character or the separator, and the text does not end with the separator.
proof fn lemma_labels(s: Seq<char>)
    requires
        all_labels(text::pieces(s, '.')),
    ensures
        s.len() > 0,
        s.last() != '.',
        forall|i: int| 0 <= i < s.len() ==> is_label_char(#[trigger] s[i]) || s[i] == '.',
    decreases s.len(),
{
    text::lemma_first_of(s, '.');
    let at = text::first_of(s, '.');
    let labels = text::pieces(s, '.');
    if at < s.len() {
        let rest = s.skip(at + 1);
        let later = text::pieces(rest, '.');
        assert(labels == seq![s.take(at)] + later);
        assert(labels[0] == s.take(at));
        assert forall|i: int| 0 <= i < later.len() implies is_label(#[trigger] later[i]) by {
            assert(later[i] == labels[i + 1]);
        }
        lemma_labels(rest);
        assert(rest.last() == s.last());
        assert forall|i: int| 0 <= i < s.len() implies is_label_char(#[trigger] s[i]) || s[i]
            == '.' by {
            if i < at {
                assert(s.take(at)[i] == s[i]);
            } else if i > at {
                assert(rest[i - at - 1] == s[i]);
            }
        }
    } else {
        assert(labels == seq![s]);
        assert(labels[0] == s);
        assert(is_label(s));
    }
}

/// A DNS name that a configuration may hold is in canonical form: folding its case
/// and trimming dots from its end leave it as it is.
pub proof fn dns_names_are_canonical(name: Seq<char>)
    requires
        is_dns_name(name),
    ensures
        base::canonical(name) == name,
        base::is_host_text(name),
        name.last() != '.',
{
    lemma_labels(name);
    assert(text::trim_dots(name) == name);
    assert forall|i: int| 0 <= i < name.len() implies base::is_host_char(#[trigger] name[i]) by {
        assert(is_label_char(name[i]) || name[i] == '.');
    }
    assert forall|i: int| 0 <= i < name.len() implies text::lower_char(#[trigger] name[i])
        == name[i] by {
        assert(base::is_host_char(name[i]));
    }
    assert(text::lower(name) == name);
}

/// A DNS suffix that a configuration may hold has no capital letters.
pub proof fn dns_suffixes_are_canonical(suffix: Seq<char>)
    requires
        is_dns_suffix(suffix),
    ensures
        text::lower(suffix) == suffix,
        base::is_host_text(suffix),
{
    let name = suffix.skip(1);
    dns_names_are_canonical(name);
    assert forall|i: int| 0 <= i < suffix.len() implies base::is_host_char(
        #[trigger] suffix[i],
    ) by {
        if i > 0 {
            assert(name[i - 1] == suffix[i]);
        }
    }
    assert forall|i: int| 0 <= i < suffix.len() implies text::lower_char(#[trigger] suffix[i])
        == suffix[i] by {
        assert(base::is_host_char(suffix[i]));
    }
    assert(text::lower(suffix) == suffix);
}

/// A label has 1 to 63 characters, each a small ASCII letter, a digit or a hyphen by its
/// code point, and a hyphen neither first nor last; whatever is so is a label.
pub proof fn labels_by_code_point(label: Seq<char>)
    ensures
        is_label(label) <==> {
            &&& 1 <= label.len() <= 63
            &&& label[0] as int != 45
            &&& label.last() as int != 45
            &&& forall|i: int|
                0 <= i < label.len() ==> 97 <= (#[trigger] label[i]) as int <= 122 || 48
                    <= label[i] as int <= 57 || label[i] as int == 45
        },
{
    if is_label(label) {
        assert forall|i: int| 0 <= i < label.len() implies 97 <= (#[trigger] label[i]) as int <= 122
            || 48 <= label[i] as int <= 57 || label[i] as int == 45 by {
            assert(is_label_char(label[i]));
        }
    }
}

/// One label is a DNS name. A label, a dot and a text are a DNS name exactly where the
/// text is one and all together has no more than 253 characters.
pub proof fn names_grow_label_by_label(label: Seq<char>, rest: Seq<char>)
    requires
        forall|i: int| 0 <= i < label.len() ==> (#[trigger] label[i]) as int != 46,
    ensures
        is_dns_name(label) <==> is_label(label),
        is_dns_name(label.push('.') + rest) <==> is_label(label) && is_dns_name(rest) && label.len()
            + 1 + rest.len() <= 253,
        !is_dns_name(Seq::<char>::empty()),
{
    text::pieces_lie_between_separators(label, rest, '.');
    let whole = label.push('.') + rest;
    let later = text::pieces(rest, '.');
    let all = text::pieces(whole, '.');
    assert(seq![label][0] == label);
    assert(all_labels(seq![label]) <==> is_label(label));
    assert(all[0] == label);
    assert forall|i: int| 0 <= i < later.len() implies #[trigger] later[i] == all[i + 1] by {}
    if is_label(label) && all_labels(later) {
        assert forall|i: int| 0 <= i < all.len() implies is_label(#[trigger] all[i]) by {
            if i > 0 {
                assert(all[i] == later[i - 1]);
            }
        }
    }
    if rest.len() == 0 && all_labels(later) {
        text::pieces_lie_between_separators(rest, rest, '.');
        assert(later[0] == rest);
        assert(is_label(rest));
    }
}

/// A dot and a DNS name are a DNS suffix, and nothing else is.
pub proof fn suffixes_are_names_behind_a_dot(s: Seq<char>)
    ensures
        is_dns_suffix(seq!['.'] + s) <==> is_dns_name(s),
        s.len() == 0 || s[0] as int != 46 ==> !is_dns_suffix(s),
{
    assert((seq!['.'] + s).skip(1) == s);
}

} // verus!
