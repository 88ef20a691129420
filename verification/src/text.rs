//! Text as sequences of characters: the string operations that the rest of the
//! crate is stated over.
//!
//! A `str` or a `String` is seen through its view, a `Seq<char>`. The spec
//! functions here say what an operation yields; the executable functions of the
//! same file compute it.
use vstd::prelude::*;

verus! {

/// `String::push` of the standard library appends one character at the end.
pub assume_specification[ String::push ](s: &mut String, c: char)
    ensures
        final(s)@ == old(s)@.push(c),
;

/// The character with ASCII capital letters folded to small ones.
pub open spec fn lower_char(c: char) -> char {
    if 'A' <= c && c <= 'Z' {
        (c as u8 + 32) as char
    } else {
        c
    }
}

/// The text with ASCII capital letters folded to small ones.
pub open spec fn lower(s: Seq<char>) -> Seq<char> {
    Seq::new(s.len(), |i: int| lower_char(s[i]))
}

/// The text without the dots at its end.
pub open spec fn trim_dots(s: Seq<char>) -> Seq<char>
    decreases s.len(),
{
    if s.len() > 0 && s.last() == '.' {
        trim_dots(s.drop_last())
    } else {
        s
    }
}

/// Whether `needle` stands in `s` from position `at` on.
pub open spec fn stands_at(s: Seq<char>, needle: Seq<char>, at: int) -> bool {
    0 <= at && at + needle.len() <= s.len() && s.subrange(at, at + needle.len()) == needle
}

/// Whether `needle` stands anywhere in `s`.
pub open spec fn has_text(s: Seq<char>, needle: Seq<char>) -> bool {
    exists|at: int| stands_at(s, needle, at)
}

/// Whether `s` begins with the character `c`.
pub open spec fn begins_with(s: Seq<char>, c: char) -> bool {
    s.len() > 0 && s[0] == c
}

/// Whether `s` ends with the text `end`.
pub open spec fn ends_with(s: Seq<char>, end: Seq<char>) -> bool {
    end.len() <= s.len() && s.skip(s.len() - end.len()) == end
}

/// The position of the first `c` in `s`, or the length of `s` where there is none.
pub open spec fn first_of(s: Seq<char>, c: char) -> int
    decreases s.len(),
{
    if s.len() == 0 || s[0] == c {
        0
    } else {
        1 + first_of(s.skip(1), c)
    }
}

/// The pieces of `s` between its separators `c`: one more than there are separators.
pub open spec fn pieces(s: Seq<char>, c: char) -> Seq<Seq<char>>
    decreases s.len(),
{
    let at = first_of(s, c);
    if 0 <= at < s.len() {
        seq![s.take(at)] + pieces(s.skip(at + 1), c)
    } else {
        seq![s]
    }
}

/// A decimal digit as a character.
pub open spec fn digit_char(d: nat) -> char {
    (d + 48) as char
}

/// A number in decimal notation, without leading zeros.
pub open spec fn decimal(n: nat) -> Seq<char>
    decreases n,
{
    if n < 10 {
        seq![digit_char(n)]
    } else {
        decimal(n / 10).push(digit_char(n % 10))
    }
}

/// The characters of the Unicode property `White_Space`.
pub open spec fn is_space(c: char) -> bool {
    let n = c as u32;
    ||| 0x9 <= n <= 0xd
    ||| n == 0x20
    ||| n == 0x85
    ||| n == 0xa0
    ||| n == 0x1680
    ||| 0x2000 <= n <= 0x200a
    ||| n == 0x2028
    ||| n == 0x2029
    ||| n == 0x202f
    ||| n == 0x205f
    ||| n == 0x3000
}

/// The text without the white space at its beginning and its end.
pub open spec fn trim_spaces(s: Seq<char>) -> Seq<char>
    decreases s.len(),
{
    if s.len() > 0 && is_space(s[0]) {
        trim_spaces(s.skip(1))
    } else if s.len() > 0 && is_space(s.last()) {
        trim_spaces(s.drop_last())
    } else {
        s
    }
}

/// The characters of a string, in order.
pub fn chars_of(s: &str) -> (chars: Vec<char>)
    ensures
        chars@ == s@,
{
    let mut chars: Vec<char> = Vec::new();
    for c in it: s.chars()
        invariant
            chars@ == it.seq().take(it.index() as int),
            it.seq() == s@,
    {
        chars.push(c);
    }
    chars
}

/// The string that holds `chars[from..to]`.
pub fn string_of(chars: &Vec<char>, from: usize, to: usize) -> (s: String)
    requires
        from <= to <= chars.len(),
    ensures
        s@ == chars@.subrange(from as int, to as int),
{
    let mut s = String::new();
    let mut i: usize = from;
    while i < to
        invariant
            from <= i <= to <= chars.len(),
            s@ == chars@.subrange(from as int, i as int),
        decreases to - i,
    {
        s.push(chars[i]);
        i += 1;
    }
    s
}

/// Whether two strings hold the same text.
pub fn same(a: &str, b: &str) -> (r: bool)
    ensures
        r == (a@ == b@),
{
    a.to_owned() == b.to_owned()
}

/// Two texts, one behind the other.
pub fn join(a: &str, b: &str) -> (s: String)
    ensures
        s@ == a@ + b@,
{
    let mut s = a.to_owned();
    s.append(b);
    s
}

/// Three texts, one behind the other.
pub fn join3(a: &str, b: &str, c: &str) -> (s: String)
    ensures
        s@ == a@ + b@ + c@,
{
    let mut s = a.to_owned();
    s.append(b);
    s.append(c);
    s
}

/// The text with ASCII capital letters folded to small ones.
pub fn to_lower(s: &str) -> (r: String)
    ensures
        r@ == lower(s@),
{
    let mut r = String::new();
    for c in it: s.chars()
        invariant
            r@ == lower(it.seq().take(it.index() as int)),
            it.seq() == s@,
    {
        if 'A' <= c && c <= 'Z' {
            r.push((c as u8 + 32) as char);
        } else {
            r.push(c);
        }
    }
    proof {
        assert(s@.take(s@.len() as int) == s@);
    }
    r
}

/// The text without the dots at its end.
pub fn without_end_dots(s: &str) -> (r: String)
    ensures
        r@ == trim_dots(s@),
{
    let chars = chars_of(s);
    let mut n: usize = chars.len();
    proof {
        assert(chars@.take(n as int) == s@);
    }
    while n > 0 && chars[n - 1] == '.'
        invariant
            n <= chars.len(),
            trim_dots(chars@.take(n as int)) == trim_dots(s@),
        decreases n,
    {
        proof {
            assert(chars@.take(n as int).drop_last() == chars@.take(n - 1));
        }
        n -= 1;
    }
    proof {
        assert(chars@.subrange(0, n as int) == chars@.take(n as int));
    }
    string_of(&chars, 0, n)
}

/// Whether `needle` stands in `chars` from position `at` on.
fn matches_at(chars: &Vec<char>, needle: &Vec<char>, at: usize) -> (r: bool)
    requires
        at + needle.len() <= chars.len(),
    ensures
        r == stands_at(chars@, needle@, at as int),
{
    let mut i: usize = 0;
    while i < needle.len()
        invariant
            i <= needle.len(),
            at + needle.len() <= chars.len(),
            forall|k: int| 0 <= k < i ==> chars@[at + k] == needle@[k],
        decreases needle.len() - i,
    {
        if chars[at + i] != needle[i] {
            proof {
                assert(chars@.subrange(at as int, at + needle.len())[i as int] == chars@[at + i]);
            }
            return false;
        }
        i += 1;
    }
    proof {
        assert(chars@.subrange(at as int, at + needle.len()) == needle@);
    }
    true
}

/// Whether `needle` stands anywhere in `s`.
pub fn contains(s: &str, needle: &str) -> (r: bool)
    ensures
        r == has_text(s@, needle@),
{
    let chars = chars_of(s);
    let wanted = chars_of(needle);
    if wanted.len() > chars.len() {
        return false;
    }
    let mut at: usize = 0;
    while at <= chars.len() - wanted.len()
        invariant
            wanted.len() <= chars.len(),
            at <= chars.len() - wanted.len() + 1,
            chars@ == s@,
            wanted@ == needle@,
            forall|k: int| 0 <= k < at ==> !stands_at(s@, needle@, k),
        decreases chars.len() + 1 - at,
    {
        if matches_at(&chars, &wanted, at) {
            return true;
        }
        if at == chars.len() - wanted.len() {
            return false;
        }
        at += 1;
    }
    false
}

/// Whether `s` begins with the character `c`.
pub fn starts_with_char(s: &str, c: char) -> (r: bool)
    ensures
        r == begins_with(s@, c),
{
    let chars = chars_of(s);
    chars.len() > 0 && chars[0] == c
}

/// Whether `s` ends with the text `end`.
pub fn ends_with_text(s: &str, end: &str) -> (r: bool)
    ensures
        r == ends_with(s@, end@),
{
    let chars = chars_of(s);
    let wanted = chars_of(end);
    if wanted.len() > chars.len() {
        return false;
    }
    let at: usize = chars.len() - wanted.len();
    proof {
        assert(s@.skip(at as int) == s@.subrange(at as int, at + end@.len()));
    }
    matches_at(&chars, &wanted, at)
}

/// `first_of` is where `c` comes first: nothing before it is `c`.
pub proof fn lemma_first_of(s: Seq<char>, c: char)
    ensures
        0 <= first_of(s, c) <= s.len(),
        forall|k: int| 0 <= k < first_of(s, c) ==> s[k] != c,
        first_of(s, c) < s.len() ==> s[first_of(s, c)] == c,
    decreases s.len(),
{
    if s.len() > 0 && s[0] != c {
        lemma_first_of(s.skip(1), c);
        assert forall|k: int| 0 <= k < first_of(s, c) implies s[k] != c by {
            if k > 0 {
                assert(s.skip(1)[k - 1] == s[k]);
            }
        }
    }
}

/// The position is the only one with those properties.
pub proof fn lemma_first_of_is(s: Seq<char>, c: char, at: int)
    requires
        0 <= at <= s.len(),
        forall|k: int| 0 <= k < at ==> s[k] != c,
        at < s.len() ==> s[at] == c,
    ensures
        first_of(s, c) == at,
{
    lemma_first_of(s, c);
}

/// The position of the first `c` at or behind `from`, or the length of `chars`.
pub fn find_char(chars: &Vec<char>, c: char, from: usize) -> (at: usize)
    requires
        from <= chars.len(),
    ensures
        from <= at <= chars.len(),
        at - from == first_of(chars@.skip(from as int), c),
{
    let mut at: usize = from;
    while at < chars.len() && chars[at] != c
        invariant
            from <= at <= chars.len(),
            forall|k: int| 0 <= k < at - from ==> chars@.skip(from as int)[k] != c,
        decreases chars.len() - at,
    {
        at += 1;
    }
    proof {
        lemma_first_of_is(chars@.skip(from as int), c, at - from);
    }
    at
}

/// A number in decimal notation.
pub fn decimal_text(n: u64) -> (s: String)
    ensures
        s@ == decimal(n as nat),
    decreases n,
{
    let digit: u8 = (n % 10) as u8;
    let c: char = (digit + 48) as char;
    if n < 10 {
        let mut s = String::new();
        s.push(c);
        s
    } else {
        let mut s = decimal_text(n / 10);
        s.push(c);
        s
    }
}

/// A host or an address, and a port.
pub open spec fn with_port(host: Seq<char>, port: u16) -> Seq<char> {
    host + ":"@ + decimal(port as nat)
}

/// A host or an address, and a port.
pub fn join_port(host: &str, port: u16) -> (s: String)
    ensures
        s@ == with_port(host@, port),
{
    let number = decimal_text(port as u64);
    join3(host, ":", number.as_str())
}

/// Whether a character is white space.
pub fn is_space_char(c: char) -> (r: bool)
    ensures
        r == is_space(c),
{
    let n: u32 = c as u32;
    (0x9 <= n && n <= 0xd) || n == 0x20 || n == 0x85 || n == 0xa0 || n == 0x1680 || (0x2000 <= n
        && n <= 0x200a) || n == 0x2028 || n == 0x2029 || n == 0x202f || n == 0x205f || n == 0x3000
}

/// The text without the white space at its beginning and its end.
pub fn without_outer_spaces(s: &str) -> (r: String)
    ensures
        r@ == trim_spaces(s@),
{
    let chars = chars_of(s);
    let mut from: usize = 0;
    let mut to: usize = chars.len();
    proof {
        assert(chars@.subrange(0, to as int) == s@);
    }
    while from < to && is_space_char(chars[from])
        invariant
            from <= to,
            to == chars.len(),
            trim_spaces(chars@.subrange(from as int, to as int)) == trim_spaces(s@),
        decreases to - from,
    {
        proof {
            assert(chars@.subrange(from as int, to as int).skip(1) == chars@.subrange(
                from + 1,
                to as int,
            ));
        }
        from += 1;
    }
    while from < to && is_space_char(chars[to - 1])
        invariant
            from <= to <= chars.len(),
            from < to ==> !is_space(chars@[from as int]),
            trim_spaces(chars@.subrange(from as int, to as int)) == trim_spaces(s@),
        decreases to - from,
    {
        proof {
            assert(chars@.subrange(from as int, to as int).drop_last() == chars@.subrange(
                from as int,
                to - 1,
            ));
        }
        to -= 1;
    }
    string_of(&chars, from, to)
}

/// A text in which some character of `needle` does not occur does not hold it.
pub proof fn lemma_lacks_char(s: Seq<char>, needle: Seq<char>, k: int)
    requires
        0 <= k < needle.len(),
        forall|i: int| 0 <= i < s.len() ==> s[i] != needle[k],
    ensures
        !has_text(s, needle),
{
    if has_text(s, needle) {
        let at = choose|at: int| stands_at(s, needle, at);
        assert(s.subrange(at, at + needle.len())[k] == s[at + k]);
    }
}

/// A text in which two neighbouring characters of `needle` do not follow each other
/// does not hold it.
pub proof fn lemma_lacks_pair(s: Seq<char>, needle: Seq<char>, k: int)
    requires
        0 <= k < needle.len() - 1,
        forall|i: int|
            0 <= i < s.len() - 1 ==> !(#[trigger] s[i] == needle[k] && s[i + 1] == needle[k + 1]),
    ensures
        !has_text(s, needle),
{
    if has_text(s, needle) {
        let at = choose|at: int| stands_at(s, needle, at);
        assert(s.subrange(at, at + needle.len())[k] == s[at + k]);
        assert(s.subrange(at, at + needle.len())[k + 1] == s[at + k + 1]);
    }
}

/// A text in which a character of `needle` occurs only near the beginning, where
/// what precedes it in `needle` has no room, does not hold it.
pub proof fn lemma_lacks_room(s: Seq<char>, needle: Seq<char>, k: int)
    requires
        0 <= k < needle.len(),
        forall|i: int| k <= i < s.len() ==> s[i] != needle[k],
    ensures
        !has_text(s, needle),
{
    if has_text(s, needle) {
        let at = choose|at: int| stands_at(s, needle, at);
        assert(s.subrange(at, at + needle.len())[k] == s[at + k]);
    }
}

/// Folding keeps the length of a text and goes by code points: each character from 65 to
/// 90 moves up by 32, and every other one stays what it is.
pub proof fn folding_moves_capitals_only(s: Seq<char>, i: int)
    requires
        0 <= i < s.len(),
    ensures
        lower(s).len() == s.len(),
        65 <= s[i] as int <= 90 ==> lower(s)[i] as int == s[i] as int + 32,
        !(65 <= s[i] as int <= 90) ==> lower(s)[i] == s[i],
{
}

/// All dots at the end of a text are trimmed, and nothing else is.
pub proof fn dots_at_the_end_are_trimmed(s: Seq<char>, dots: Seq<char>)
    requires
        s.len() == 0 || s.last() as int != 46,
        forall|i: int| 0 <= i < dots.len() ==> (#[trigger] dots[i]) as int == 46,
    ensures
        trim_dots(s + dots) == s,
    decreases dots.len(),
{
    if dots.len() == 0 {
        assert(s + dots == s);
    } else {
        assert((s + dots).last() == dots.last());
        assert((s + dots).drop_last() == s + dots.drop_last());
        dots_at_the_end_are_trimmed(s, dots.drop_last());
    }
}

/// White space is what Unicode calls so, by code point.
pub proof fn white_space_by_code_point(c: char)
    ensures
        is_space(c) <==> set![
            9u32, 10, 11, 12, 13, 32, 133, 160, 5760, 8192, 8193, 8194, 8195, 8196, 8197, 8198,
            8199, 8200, 8201, 8202, 8232, 8233, 8239, 8287, 12288,
        ].contains(c as u32),
{
}

/// All white space round a text is trimmed, and nothing inside it is.
pub proof fn space_around_is_trimmed(before: Seq<char>, s: Seq<char>, after: Seq<char>)
    requires
        forall|i: int| 0 <= i < before.len() ==> is_space(#[trigger] before[i]),
        forall|i: int| 0 <= i < after.len() ==> is_space(#[trigger] after[i]),
        s.len() > 0 ==> !is_space(s[0]) && !is_space(s.last()),
    ensures
        trim_spaces(before + s + after) == s,
    decreases before.len() + after.len(),
{
    let whole = before + s + after;
    if before.len() > 0 {
        assert(whole[0] == before[0]);
        assert(whole.skip(1) == before.skip(1) + s + after);
        space_around_is_trimmed(before.skip(1), s, after);
    } else if after.len() > 0 {
        assert(whole.last() == after.last());
        if s.len() == 0 {
            assert(whole == after);
            assert(whole.skip(1) == before + s + after.skip(1));
            space_around_is_trimmed(before, s, after.skip(1));
        } else {
            assert(whole[0] == s[0]);
            assert(whole.drop_last() == before + s + after.drop_last());
            space_around_is_trimmed(before, s, after.drop_last());
        }
    } else {
        assert(whole == s);
    }
}

/// Every text is what is left of it by trimming with white space round it.
pub proof fn only_white_space_is_trimmed(s: Seq<char>) -> (ends: (Seq<char>, Seq<char>))
    ensures
        s == ends.0 + trim_spaces(s) + ends.1,
        forall|i: int| 0 <= i < ends.0.len() ==> is_space(#[trigger] ends.0[i]),
        forall|i: int| 0 <= i < ends.1.len() ==> is_space(#[trigger] ends.1[i]),
        trim_spaces(s).len() > 0 ==> !is_space(trim_spaces(s)[0]) && !is_space(
            trim_spaces(s).last(),
        ),
    decreases s.len(),
{
    if s.len() > 0 && is_space(s[0]) {
        let (before, after) = only_white_space_is_trimmed(s.skip(1));
        assert(s == seq![s[0]] + s.skip(1));
        assert(seq![s[0]] + s.skip(1) == seq![s[0]] + before + trim_spaces(s) + after);
        (seq![s[0]] + before, after)
    } else if s.len() > 0 && is_space(s.last()) {
        let (before, after) = only_white_space_is_trimmed(s.drop_last());
        assert(s == s.drop_last().push(s.last()));
        assert(s.drop_last().push(s.last()) == before + trim_spaces(s) + after.push(s.last()));
        (before, after.push(s.last()))
    } else {
        assert(s == Seq::<char>::empty() + s + Seq::<char>::empty());
        (Seq::empty(), Seq::empty())
    }
}

/// A text without separators is one piece; what stands before the first separator is the
/// first piece, and the others are those of what stands behind it.
pub proof fn pieces_lie_between_separators(first: Seq<char>, rest: Seq<char>, c: char)
    requires
        forall|i: int| 0 <= i < first.len() ==> first[i] != c,
    ensures
        pieces(first, c) == seq![first],
        pieces(first.push(c) + rest, c) == seq![first] + pieces(rest, c),
{
    let whole = first.push(c) + rest;
    lemma_first_of_is(first, c, first.len() as int);
    lemma_first_of_is(whole, c, first.len() as int);
    assert(whole.take(first.len() as int) == first);
    assert(whole.skip(first.len() as int + 1) == rest);
}

/// A text holds another exactly where it is that other with something, or nothing, before
/// and behind it.
pub proof fn texts_are_found_where_they_stand(
    before: Seq<char>,
    needle: Seq<char>,
    after: Seq<char>,
    s: Seq<char>,
)
    ensures
        has_text(before + needle + after, needle),
        has_text(s, needle) ==> exists|a: Seq<char>, b: Seq<char>| s == #[trigger] (a + needle + b),
{
    let whole = before + needle + after;
    let at = before.len() as int;
    assert(whole.subrange(at, at + needle.len()) == needle);
    assert(stands_at(whole, needle, at));
    if has_text(s, needle) {
        let at = choose|at: int| stands_at(s, needle, at);
        let a = s.take(at);
        let b = s.skip(at + needle.len());
        assert(s == a + s.subrange(at, at + needle.len()) + b);
        assert(s == a + needle + b);
    }
}

/// A text ends with another exactly where it is something, or nothing, and that other
/// behind it; it begins with a character exactly where that one comes first.
pub proof fn ends_and_beginnings(s: Seq<char>, end: Seq<char>, c: char)
    ensures
        ends_with(s + end, end),
        ends_with(s, end) ==> end.len() <= s.len() && s == s.take(s.len() - end.len()) + end,
        begins_with(seq![c] + s, c),
        begins_with(s, c) ==> s == seq![c] + s.skip(1),
{
    assert((s + end).skip((s + end).len() - end.len()) == end);
    if ends_with(s, end) {
        let n = s.len() - end.len();
        assert(s == s.take(n) + s.skip(n));
    }
    if begins_with(s, c) {
        assert(s == seq![s[0]] + s.skip(1));
    }
}

/// The number that decimal digits stand for, the highest first.
pub open spec fn number_in(digits: Seq<char>) -> nat
    decreases digits.len(),
{
    if digits.len() == 0 {
        0
    } else {
        (10 * number_in(digits.drop_last()) + (digits.last() as int - 48)) as nat
    }
}

/// The decimal notation of a number consists of the digits 0 to 9, has no leading zero
/// but for zero itself, and stands for the number.
pub proof fn decimals_are_read_back(n: nat)
    ensures
        decimal(n).len() > 0,
        forall|i: int| 0 <= i < decimal(n).len() ==> 48 <= (#[trigger] decimal(n)[i]) as int <= 57,
        decimal(n)[0] as int == 48 ==> n == 0 && decimal(n).len() == 1,
        number_in(decimal(n)) == n,
    decreases n,
{
    if n < 10 {
        let one = decimal(n);
        assert(one.drop_last() == Seq::<char>::empty());
        assert(number_in(one.drop_last()) == 0);
        assert(one.last() as int == n + 48);
    } else {
        let before = decimal(n / 10);
        decimals_are_read_back(n / 10);
        let all = decimal(n);
        assert(all.drop_last() == before);
        assert(all.last() as int == n % 10 + 48);
        assert forall|i: int| 0 <= i < all.len() implies 48 <= (#[trigger] all[i]) as int <= 57 by {
            if i < before.len() {
                assert(all[i] == before[i]);
            }
        }
        assert(all[0] == before[0]);
    }
}

/// A host with a port is the host, a colon and the port in decimal digits.
pub proof fn ports_follow_a_colon(host: Seq<char>, port: u16)
    ensures
        ({
            let both = with_port(host, port);
            let digits = both.skip(host.len() as int + 1);
            &&& both.len() > host.len() + 1
            &&& both.take(host.len() as int) == host
            &&& both[host.len() as int] as int == 58
            &&& digits == decimal(port as nat)
            &&& number_in(digits) == port
        }),
{
    reveal_strlit(":");
    decimals_are_read_back(port as nat);
    let both = with_port(host, port);
    assert(both.skip(host.len() as int + 1) == decimal(port as nat));
}

} // verus!
