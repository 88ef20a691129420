//! A map from texts to values that keeps its keys in the order in which they came.
use vstd::prelude::*;

verus! {

/// The position of the first entry under `key`, or the number of entries.
pub open spec fn position<V>(entries: Seq<(Seq<char>, V)>, key: Seq<char>) -> int
    decreases entries.len(),
{
    if entries.len() == 0 || entries[0].0 == key {
        0
    } else {
        1 + position(entries.skip(1), key)
    }
}

/// Whether some entry stands under `key`.
pub open spec fn has_key<V>(entries: Seq<(Seq<char>, V)>, key: Seq<char>) -> bool {
    position(entries, key) < entries.len()
}

/// The value under `key`.
pub open spec fn value_at<V>(entries: Seq<(Seq<char>, V)>, key: Seq<char>) -> Option<V> {
    if has_key(entries, key) {
        Some(entries[position(entries, key)].1)
    } else {
        None
    }
}

/// Whether no key occurs twice.
pub open spec fn distinct_keys<V>(entries: Seq<(Seq<char>, V)>) -> bool {
    forall|i: int, j: int|
        0 <= i < j < entries.len() ==> (#[trigger] entries[i]).0 != (#[trigger] entries[j]).0
}

/// The entries after `value` has been filed under `key`: in place of the entry with
/// that key, or behind all others.
pub open spec fn filed<V>(entries: Seq<(Seq<char>, V)>, key: Seq<char>, value: V) -> Seq<
    (Seq<char>, V),
> {
    if has_key(entries, key) {
        entries.update(position(entries, key), (key, value))
    } else {
        entries.push((key, value))
    }
}

/// `position` is where `key` comes first.
pub proof fn lemma_position<V>(entries: Seq<(Seq<char>, V)>, key: Seq<char>)
    ensures
        0 <= position(entries, key) <= entries.len(),
        forall|k: int|
            0 <= k < position(entries, key) ==> (#[trigger] entries[k]).0 != key,
        has_key(entries, key) ==> entries[position(entries, key)].0 == key,
    decreases entries.len(),
{
    if entries.len() > 0 && entries[0].0 != key {
        lemma_position(entries.skip(1), key);
        assert forall|k: int| 0 <= k < position(entries, key) implies (
        #[trigger] entries[k]).0 != key by {
            if k > 0 {
                assert(entries.skip(1)[k - 1] == entries[k]);
            }
        }
    }
}

/// The position is the only one with those properties.
pub proof fn lemma_position_is<V>(entries: Seq<(Seq<char>, V)>, key: Seq<char>, at: int)
    requires
        0 <= at <= entries.len(),
        forall|k: int| 0 <= k < at ==> (#[trigger] entries[k]).0 != key,
        at < entries.len() ==> entries[at].0 == key,
    ensures
        position(entries, key) == at,
{
    lemma_position(entries, key);
}

/// Filing keeps the keys distinct, makes `key` lead to `value` and leaves every
/// other key as it was.
pub proof fn filing_changes_one_key<V>(
    entries: Seq<(Seq<char>, V)>,
    key: Seq<char>,
    value: V,
    other: Seq<char>,
)
    requires
        distinct_keys(entries),
    ensures
        distinct_keys(filed(entries, key, value)),
        value_at(filed(entries, key, value), key) == Some(value),
        other != key ==> value_at(filed(entries, key, value), other) == value_at(entries, other),
{
    lemma_position(entries, key);
    lemma_position(entries, other);
    let after = filed(entries, key, value);
    lemma_position(after, other);
    if has_key(entries, key) {
        lemma_position_is(after, key, position(entries, key));
        if other != key {
            lemma_position_is(after, other, position(entries, other));
        }
    } else {
        lemma_position_is(after, key, entries.len() as int);
        if other != key {
            if has_key(entries, other) {
                lemma_position_is(after, other, position(entries, other));
            } else {
                lemma_position_is(after, other, after.len() as int);
            }
        }
    }
}

/// The map.
#[derive(Debug, Clone)]
pub struct TextMap<V> {
    entries: Vec<(String, V)>,
}

impl<V> View for TextMap<V> {
    type V = Seq<(Seq<char>, V)>;

    closed spec fn view(&self) -> Seq<(Seq<char>, V)> {
        Seq::new(self.entries@.len(), |i: int| (self.entries@[i].0@, self.entries@[i].1))
    }
}

impl<V> TextMap<V> {
    /// A map without entries.
    pub fn new() -> (r: Self)
        ensures
            r@ == Seq::<(Seq<char>, V)>::empty(),
    {
        TextMap { entries: Vec::new() }
    }

    pub fn is_empty(&self) -> (r: bool)
        ensures
            r == (self@.len() == 0),
    {
        self.entries.is_empty()
    }

    pub fn len(&self) -> (r: usize)
        ensures
            r == self@.len(),
    {
        self.entries.len()
    }

    /// The key at a position.
    pub fn key(&self, i: usize) -> (r: &String)
        requires
            i < self@.len(),
        ensures
            r@ == self@[i as int].0,
    {
        &self.entries[i].0
    }

    /// The value at a position.
    pub fn value(&self, i: usize) -> (r: &V)
        requires
            i < self@.len(),
        ensures
            *r == self@[i as int].1,
    {
        &self.entries[i].1
    }

    /// The position of a key, or the number of entries.
    fn find(&self, key: &String) -> (at: usize)
        ensures
            at == position(self@, key@),
            at <= self@.len(),
    {
        let mut at: usize = 0;
        while at < self.entries.len() && !(self.entries[at].0 == *key)
            invariant
                at <= self.entries.len(),
                forall|k: int| 0 <= k < at ==> (#[trigger] self@[k]).0 != key@,
            decreases self.entries.len() - at,
        {
            at += 1;
        }
        proof {
            lemma_position_is(self@, key@, at as int);
        }
        at
    }

    /// The value under a key.
    pub fn get(&self, key: &String) -> (r: Option<&V>)
        ensures
            r is Some <==> has_key(self@, key@),
            r matches Some(value) ==> value_at(self@, key@) == Some(*value),
    {
        let at: usize = self.find(key);
        if at < self.entries.len() {
            Some(&self.entries[at].1)
        } else {
            None
        }
    }

    /// Files a value under a key, and hands back what stood there.
    pub fn insert(&mut self, key: String, value: V) -> (r: Option<V>)
        ensures
            final(self)@ == filed(old(self)@, key@, value),
            r == value_at(old(self)@, key@),
    {
        let at: usize = self.find(&key);
        if at < self.entries.len() {
            let mut entry = (key, value);
            std::mem::swap(&mut entry, &mut self.entries[at]);
            Some(entry.1)
        } else {
            self.entries.push((key, value));
            None
        }
    }
}

impl<V> Default for TextMap<V> {
    fn default() -> (r: Self)
        ensures
            r@ == Seq::<(Seq<char>, V)>::empty(),
    {
        TextMap::new()
    }
}

/// A value is found under its key wherever it stands, as long as no key occurs twice; under
/// a key that no entry has, nothing is found.
pub proof fn values_are_found_by_their_keys<V>(
    entries: Seq<(Seq<char>, V)>,
    i: int,
    other: Seq<char>,
)
    requires
        distinct_keys(entries),
        0 <= i < entries.len(),
    ensures
        value_at(entries, entries[i].0) == Some(entries[i].1),
        has_key(entries, other) <==> exists|k: int|
            0 <= k < entries.len() && (#[trigger] entries[k]).0 == other,
        value_at(entries, other) is Some <==> has_key(entries, other),
        forall|a: int, b: int|
            0 <= a < entries.len() && 0 <= b < entries.len() && a != b ==> (#[trigger] entries[a]).0
                != (#[trigger] entries[b]).0,
{
    lemma_position(entries, entries[i].0);
    lemma_position(entries, other);
    let at = position(entries, entries[i].0);
    if at < i {
        assert(entries[at].0 != entries[i].0);
    }
}

/// Filing under a new key adds one entry at the end; under a key that is there, it changes
/// the value of that entry alone, in its place.
pub proof fn filing_keeps_the_order<V>(entries: Seq<(Seq<char>, V)>, key: Seq<char>, value: V)
    ensures
        (forall|k: int| 0 <= k < entries.len() ==> (#[trigger] entries[k]).0 != key) ==> filed(
            entries,
            key,
            value,
        ) == entries.push((key, value)),
        (exists|k: int| 0 <= k < entries.len() && (#[trigger] entries[k]).0 == key) ==> {
            &&& filed(entries, key, value).len() == entries.len()
            &&& forall|k: int|
                0 <= k < entries.len() ==> (#[trigger] filed(entries, key, value)[k]).0
                    == entries[k].0 && (entries[k].0 != key ==> filed(entries, key, value)[k]
                    == entries[k])
        },
{
    lemma_position(entries, key);
    if exists|k: int| 0 <= k < entries.len() && (#[trigger] entries[k]).0 == key {
        let k = choose|k: int| 0 <= k < entries.len() && (#[trigger] entries[k]).0 == key;
        assert(entries[k].0 == key);
    } else if has_key(entries, key) {
        assert(entries[position(entries, key)].0 == key);
    }
}

} // verus!
