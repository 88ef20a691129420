//! Bookkeeping of a bounded pool of long-lived connections.
//!
//! A slot is reserved before a name is resolved or a handshake begins, so that many
//! different host names cannot create an unbounded number of connections in progress.
//! A slot stays reserved until its last borrower is gone, even where the connection has
//! been dropped from the pool meanwhile.
use crate::error::{DnsProxyError, ErrorView};
use crate::quic::config::QuicApplication;
use crate::text;
use vstd::prelude::*;

verus! {

/// What a connection is kept under.
#[derive(Debug, Clone)]
pub struct PoolKey {
    pub application: QuicApplication,
    pub hostname: String,
    pub port: u16,
}

/// The text of a [`PoolKey`].
#[verifier::ext_equal]
pub struct KeyView {
    pub application: QuicApplication,
    pub hostname: Seq<char>,
    pub port: u16,
}

impl View for PoolKey {
    type V = KeyView;

    open spec fn view(&self) -> KeyView {
        KeyView { application: self.application, hostname: self.hostname@, port: self.port }
    }
}

impl PoolKey {
    /// A key.
    pub fn new(application: QuicApplication, hostname: &str, port: u16) -> (r: Self)
        ensures
            r@ == (KeyView { application, hostname: hostname@, port }),
    {
        PoolKey { application, hostname: hostname.to_owned(), port }
    }

    /// Whether two keys are the same.
    fn same(&self, other: &PoolKey) -> (r: bool)
        ensures
            r == (self@ == other@),
    {
        self.application == other.application && self.port == other.port && text::same(
            self.hostname.as_str(),
            other.hostname.as_str(),
        )
    }
}

/// A connection that new requests can use.
#[derive(Debug)]
pub struct PoolEntry {
    pub key: PoolKey,
    /// When the connection was last asked for, on the caller's clock.
    pub last_used: u128,
}

/// A slot of the pool.
#[derive(Debug)]
pub struct PoolSlot {
    /// The number under which the caller knows the connection.
    pub id: u64,
    /// The connection, unless it is being opened or has been dropped from the pool.
    pub entry: Option<PoolEntry>,
    /// The requests that hold the slot.
    pub borrowers: u64,
}

/// The texts of a [`PoolEntry`].
#[verifier::ext_equal]
pub struct EntryView {
    pub key: KeyView,
    pub last_used: u128,
}

/// The texts of a [`PoolSlot`].
#[verifier::ext_equal]
pub struct SlotView {
    pub id: u64,
    pub entry: Option<EntryView>,
    pub borrowers: u64,
}

impl View for PoolSlot {
    type V = SlotView;

    open spec fn view(&self) -> SlotView {
        SlotView {
            id: self.id,
            entry: match self.entry {
                Some(entry) => Some(EntryView { key: entry.key@, last_used: entry.last_used }),
                None => None,
            },
            borrowers: self.borrowers,
        }
    }
}

/// The texts of slots.
pub open spec fn slots_view(slots: Seq<PoolSlot>) -> Seq<SlotView> {
    Seq::new(slots.len(), |i: int| slots[i]@)
}

impl SlotView {
    /// Whether the slot has the connection for a key.
    pub open spec fn serves(self, key: KeyView) -> bool {
        self.entry matches Some(entry) && entry.key == key
    }

    /// Whether the slot has a connection that nobody uses.
    pub open spec fn is_idle(self) -> bool {
        self.entry is Some && self.borrowers == 0
    }

    /// The slot without its connection.
    pub open spec fn emptied(self) -> SlotView {
        SlotView { entry: None, ..self }
    }
}

/// The position of the first slot of which `f` holds, or the number of slots.
pub open spec fn first_where(slots: Seq<SlotView>, f: spec_fn(SlotView) -> bool) -> int
    decreases slots.len(),
{
    if slots.len() == 0 || f(slots[0]) {
        0
    } else {
        1 + first_where(slots.skip(1), f)
    }
}

/// The position of the slot with the connection for a key.
pub open spec fn place(slots: Seq<SlotView>, key: KeyView) -> int {
    first_where(slots, |slot: SlotView| slot.serves(key))
}

/// The position of the slot with a number.
pub open spec fn slot_of(slots: Seq<SlotView>, id: u64) -> int {
    first_where(slots, |slot: SlotView| slot.id == id)
}

/// The slots after the one at a position has lost its connection: it is free unless
/// somebody holds it.
pub open spec fn dropped(slots: Seq<SlotView>, i: int) -> Seq<SlotView> {
    if slots[i].borrowers == 0 {
        slots.remove(i)
    } else {
        slots.update(i, slots[i].emptied())
    }
}

/// The slots without a connection for a key.
pub open spec fn forgotten(slots: Seq<SlotView>, key: KeyView) -> Seq<SlotView> {
    let i = place(slots, key);
    if i < slots.len() {
        dropped(slots, i)
    } else {
        slots
    }
}

/// The slots without the connections that are closed.
pub open spec fn without_closed(slots: Seq<SlotView>, closed: Seq<u64>) -> Seq<SlotView>
    decreases slots.len(),
{
    if slots.len() == 0 {
        slots
    } else {
        let before = without_closed(slots.drop_last(), closed);
        let last = slots.last();
        if last.entry is None || !closed.contains(last.id) {
            before.push(last)
        } else if last.borrowers == 0 {
            before
        } else {
            before.push(last.emptied())
        }
    }
}

/// Whether the slot at a position has an idle connection, and none has been idle for
/// longer.
pub open spec fn is_least_used(slots: Seq<SlotView>, i: int) -> bool {
    &&& 0 <= i < slots.len()
    &&& slots[i].is_idle()
    &&& forall|j: int|
        0 <= j < slots.len() && (#[trigger] slots[j]).is_idle() ==> slots[i].entry->0.last_used
            <= slots[j].entry->0.last_used
}

/// Whether `after` is `before` without one idle connection that was not used for the
/// longest time, where any is idle.
pub open spec fn evicts(before: Seq<SlotView>, after: Seq<SlotView>) -> bool {
    if exists|i: int| 0 <= i < before.len() && (#[trigger] before[i]).is_idle() {
        exists|i: int| #[trigger] is_least_used(before, i) && after == before.remove(i)
    } else {
        after == before
    }
}

/// A slot that is held while its connection is being opened.
pub open spec fn reservation(id: u64) -> SlotView {
    SlotView { id, entry: None, borrowers: 1 }
}

/// Whether a slot is reserved as it should be: a free one; or else, once closed
/// connections and the least used idle one are gone, one that became free.
pub open spec fn reserves(
    before: Seq<SlotView>,
    capacity: nat,
    id: u64,
    closed: Seq<u64>,
    after: Seq<SlotView>,
    granted: bool,
) -> bool {
    if before.len() < capacity {
        granted && after == before.push(reservation(id))
    } else {
        exists|rest: Seq<SlotView>| #[trigger]
            evicts(without_closed(before, closed), rest) && if rest.len() < capacity {
                granted && after == rest.push(reservation(id))
            } else {
                !granted && after == rest
            }
    }
}

/// The slots after the connection at a position has been lent once more.
pub open spec fn lent(slots: Seq<SlotView>, i: int, now: u128) -> Seq<SlotView> {
    slots.update(
        i,
        SlotView {
            id: slots[i].id,
            entry: Some(EntryView { key: slots[i].entry->0.key, last_used: now }),
            borrowers: (slots[i].borrowers + 1) as u64,
        },
    )
}

/// The slots after a borrower of a slot is gone: without a connection, the slot is free
/// once it was the last.
pub open spec fn returned(slots: Seq<SlotView>, id: u64) -> Seq<SlotView> {
    let i = slot_of(slots, id);
    if i >= slots.len() || slots[i].borrowers == 0 {
        slots
    } else if slots[i].borrowers == 1 && slots[i].entry is None {
        slots.remove(i)
    } else {
        slots.update(i, SlotView { borrowers: (slots[i].borrowers - 1) as u64, ..slots[i] })
    }
}

/// The slots after the connection for a key has been put into a slot.
pub open spec fn entered(slots: Seq<SlotView>, id: u64, key: KeyView, now: u128) -> Seq<SlotView> {
    let i = slot_of(slots, id);
    slots.update(i, SlotView { entry: Some(EntryView { key, last_used: now }), ..slots[i] })
}

/// Whether a slot is one of a pool that has given out so many leases.
pub open spec fn is_sound(slot: SlotView, issued: u64) -> bool {
    &&& slot.id < issued
    &&& slot.borrowers <= issued
    &&& slot.entry is Some || slot.borrowers > 0
}

/// Whether two slots have different numbers and serve different keys.
pub open spec fn are_apart(a: SlotView, b: SlotView) -> bool {
    &&& a.id != b.id
    &&& a.entry is Some && b.entry is Some ==> a.entry->0.key != b.entry->0.key
}

/// Whether slots are those of a pool that has given out so many leases.
pub open spec fn are_sound(slots: Seq<SlotView>, issued: u64) -> bool {
    &&& forall|i: int| 0 <= i < slots.len() ==> is_sound(#[trigger] slots[i], issued)
    &&& forall|i: int, j: int|
        0 <= i < j < slots.len() ==> are_apart(#[trigger] slots[i], #[trigger] slots[j])
}

/// `first_where` is the first position of which `f` holds.
proof fn lemma_first_where(slots: Seq<SlotView>, f: spec_fn(SlotView) -> bool)
    ensures
        0 <= first_where(slots, f) <= slots.len(),
        forall|k: int| 0 <= k < first_where(slots, f) ==> !f(#[trigger] slots[k]),
        first_where(slots, f) < slots.len() ==> f(slots[first_where(slots, f)]),
    decreases slots.len(),
{
    if slots.len() > 0 && !f(slots[0]) {
        lemma_first_where(slots.skip(1), f);
        assert forall|k: int| 0 <= k < first_where(slots, f) implies !f(#[trigger] slots[k]) by {
            if k > 0 {
                assert(slots.skip(1)[k - 1] == slots[k]);
            }
        }
    }
}

/// No other position is the first.
proof fn lemma_first_where_is(slots: Seq<SlotView>, f: spec_fn(SlotView) -> bool, at: int)
    requires
        0 <= at <= slots.len(),
        forall|k: int| 0 <= k < at ==> !f(#[trigger] slots[k]),
        at < slots.len() ==> f(slots[at]),
    ensures
        first_where(slots, f) == at,
{
    lemma_first_where(slots, f);
}

/// Whether a slot differs from all of some others.
spec fn is_new_among(slots: Seq<SlotView>, other: SlotView) -> bool {
    forall|i: int| 0 <= i < slots.len() ==> are_apart(#[trigger] slots[i], other)
}

/// What [`without_closed`] leaves was there before.
proof fn lemma_without_closed(slots: Seq<SlotView>, closed: Seq<u64>, issued: u64)
    requires
        are_sound(slots, issued),
    ensures
        are_sound(without_closed(slots, closed), issued),
        without_closed(slots, closed).len() <= slots.len(),
        forall|other: SlotView|
            is_new_among(slots, other) ==> #[trigger] is_new_among(
                without_closed(slots, closed),
                other,
            ),
    decreases slots.len(),
{
    if slots.len() > 0 {
        let shorter = slots.drop_last();
        let before = without_closed(shorter, closed);
        let last = slots.last();
        let after = without_closed(slots, closed);
        assert forall|i: int, j: int| 0 <= i < j < shorter.len() implies are_apart(
            #[trigger] shorter[i],
            #[trigger] shorter[j],
        ) by {
            assert(shorter[i] == slots[i] && shorter[j] == slots[j]);
        }
        lemma_without_closed(shorter, closed, issued);
        assert(last == slots[slots.len() - 1]);
        assert(is_new_among(shorter, last)) by {
            assert forall|i: int| 0 <= i < shorter.len() implies are_apart(
                #[trigger] shorter[i],
                last,
            ) by {
                assert(shorter[i] == slots[i]);
            }
        }
        assert(is_new_among(before, last));
        assert forall|other: SlotView| is_new_among(slots, other) implies #[trigger] is_new_among(
            after,
            other,
        ) by {
            assert(is_new_among(shorter, other)) by {
                assert forall|i: int| 0 <= i < shorter.len() implies are_apart(
                    #[trigger] shorter[i],
                    other,
                ) by {
                    assert(shorter[i] == slots[i]);
                }
            }
            assert(is_new_among(before, other));
            assert(are_apart(slots[slots.len() - 1], other));
        }
    }
}

/// Slots that lose one stay sound.
proof fn lemma_removed(slots: Seq<SlotView>, i: int, issued: u64)
    requires
        are_sound(slots, issued),
        0 <= i < slots.len(),
    ensures
        are_sound(slots.remove(i), issued),
{
}

/// Slots of which one is changed stay sound where the new one fits among the others.
proof fn lemma_updated(slots: Seq<SlotView>, i: int, slot: SlotView, issued: u64)
    requires
        are_sound(slots, issued),
        0 <= i < slots.len(),
        is_sound(slot, issued),
        forall|j: int| 0 <= j < slots.len() && j != i ==> are_apart(#[trigger] slots[j], slot),
    ensures
        are_sound(slots.update(i, slot), issued),
{
}

/// The slots of a pool stay sound when a connection is dropped.
proof fn lemma_dropped(slots: Seq<SlotView>, i: int, issued: u64)
    requires
        are_sound(slots, issued),
        0 <= i < slots.len(),
    ensures
        are_sound(dropped(slots, i), issued),
        dropped(slots, i).len() <= slots.len(),
{
    if slots[i].borrowers == 0 {
        lemma_removed(slots, i, issued);
    } else {
        lemma_updated(slots, i, slots[i].emptied(), issued);
    }
}

/// A slot that somebody holds stays reserved when its connection is dropped from the
/// pool: no number of failing upstreams makes room for more connections than the pool
/// may have.
pub proof fn borrowed_slots_stay_reserved(
    slots: Seq<SlotView>,
    key: KeyView,
    issued: u64,
    i: int,
)
    requires
        are_sound(slots, issued),
        0 <= i < slots.len(),
        slots[i].borrowers > 0,
    ensures
        exists|j: int|
            0 <= j < forgotten(slots, key).len() && (#[trigger] forgotten(slots, key)[j]).id
                == slots[i].id && forgotten(slots, key)[j].borrowers == slots[i].borrowers,
{
    let at = place(slots, key);
    lemma_first_where(slots, |slot: SlotView| slot.serves(key));
    let after = forgotten(slots, key);
    if at < slots.len() && slots[at].borrowers == 0 {
        let j = if i < at {
            i
        } else {
            i - 1
        };
        assert(after[j] == slots[i]);
    } else {
        assert(after[i].id == slots[i].id && after[i].borrowers == slots[i].borrowers);
    }
}

/// A full pool in which every slot is held refuses to reserve another one.
pub proof fn full_pools_refuse(
    slots: Seq<SlotView>,
    capacity: nat,
    id: u64,
    closed: Seq<u64>,
    after: Seq<SlotView>,
    granted: bool,
)
    requires
        slots.len() == capacity,
        forall|i: int| 0 <= i < slots.len() ==> (#[trigger] slots[i]).borrowers > 0,
        reserves(slots, capacity, id, closed, after, granted),
    ensures
        !granted,
        after.len() == capacity,
{
    lemma_held_slots_stay(slots, closed);
}

/// Slots that are held outlive their connections.
proof fn lemma_held_slots_stay(slots: Seq<SlotView>, closed: Seq<u64>)
    requires
        forall|i: int| 0 <= i < slots.len() ==> (#[trigger] slots[i]).borrowers > 0,
    ensures
        without_closed(slots, closed).len() == slots.len(),
        forall|i: int|
            0 <= i < slots.len() ==> (#[trigger] without_closed(slots, closed)[i]).borrowers > 0,
    decreases slots.len(),
{
    if slots.len() > 0 {
        assert forall|i: int| 0 <= i < slots.drop_last().len() implies (
        #[trigger] slots.drop_last()[i]).borrowers > 0 by {
            assert(slots.drop_last()[i] == slots[i]);
        }
        lemma_held_slots_stay(slots.drop_last(), closed);
        assert(slots.last() == slots[slots.len() - 1]);
    }
}

/// A slot that a request holds, as one of its borrowers. Another borrower asks the pool for
/// a lease of its own.
#[derive(Debug, PartialEq, Eq, Structural)]
pub struct PoolLease {
    /// The number of the slot.
    pub id: u64,
    /// Whether the connection is still to be opened.
    pub is_new: bool,
}

/// The error for a pool that has no slot left.
pub fn overloaded(hostname: &str, port: u16, protocol: &str) -> (r: DnsProxyError)
    ensures
        r@ == overload(hostname@, port, protocol@),
{
    DnsProxyError::Overloaded {
        upstream: text::join_port(hostname, port),
        protocol: protocol.to_owned(),
    }
}

/// The error for a pool that has no slot left.
pub open spec fn overload(hostname: Seq<char>, port: u16, protocol: Seq<char>) -> ErrorView {
    ErrorView::Overloaded { upstream: text::with_port(hostname, port), protocol }
}

/// A bounded pool of connections.
#[derive(Debug)]
pub struct LeasePool {
    slots: Vec<PoolSlot>,
    capacity: usize,
    issued: u64,
}

impl LeasePool {
    /// The slots that are held.
    pub closed spec fn slots(&self) -> Seq<SlotView> {
        slots_view(self.slots@)
    }

    /// The number of slots that may be held.
    pub closed spec fn capacity(&self) -> nat {
        self.capacity as nat
    }

    /// The number of leases that have been given out.
    pub closed spec fn issued(&self) -> u64 {
        self.issued
    }

    /// What holds at all times: no more slots are held than there may be, each has its
    /// own number, and there is at most one connection for a key.
    pub open spec fn inv(&self) -> bool {
        &&& self.slots().len() <= self.capacity()
        &&& are_sound(self.slots(), self.issued())
    }

    /// Whether a slot is held without a connection.
    pub open spec fn is_reserved(&self, id: u64) -> bool {
        let i = slot_of(self.slots(), id);
        i < self.slots().len() && self.slots()[i].entry is None
    }

    /// Whether `after` and `r` come of asking for the connection for a key: an open one
    /// is lent, or else a slot is reserved for a new one.
    pub open spec fn gets(
        &self,
        key: KeyView,
        closed: Seq<u64>,
        protocol: Seq<char>,
        now: u128,
        after: LeasePool,
        r: Result<PoolLease, DnsProxyError>,
    ) -> bool {
        let slots = self.slots();
        let at = place(slots, key);
        &&& after.capacity() == self.capacity()
        &&& after.issued() == self.issued() + if r is Ok {
            1int
        } else {
            0
        }
        &&& if at < slots.len() && !closed.contains(slots[at].id) {
            &&& r == Ok::<PoolLease, DnsProxyError>(
                PoolLease { id: slots[at].id, is_new: false },
            )
            &&& after.slots() == lent(slots, at, now)
        } else {
            &&& reserves(
                forgotten(slots, key),
                self.capacity(),
                self.issued(),
                closed,
                after.slots(),
                r is Ok,
            )
            &&& match r {
                Ok(lease) => lease == (PoolLease { id: self.issued(), is_new: true }),
                Err(error) => error@ == overload(key.hostname, key.port, protocol),
            }
        }
    }

    /// Whether `after` and `r` come of telling that the connection for which a slot was
    /// reserved is open: where there is another one by now, that one is lent and the slot
    /// is given back.
    pub open spec fn completes(
        &self,
        id: u64,
        key: KeyView,
        closed: Seq<u64>,
        now: u128,
        after: LeasePool,
        r: u64,
    ) -> bool {
        let slots = self.slots();
        let at = place(slots, key);
        &&& after.capacity() == self.capacity()
        &&& if at < slots.len() && !closed.contains(slots[at].id) {
            &&& r == slots[at].id
            &&& after.issued() == self.issued() + 1
            &&& after.slots() == returned(lent(slots, at, now), id)
        } else {
            &&& r == id
            &&& after.issued() == self.issued()
            &&& after.slots() == entered(forgotten(slots, key), id, key, now)
        }
    }

    /// An empty pool.
    pub fn new(capacity: usize) -> (r: Self)
        ensures
            r.inv(),
            r.slots() == Seq::<SlotView>::empty(),
            r.capacity() == capacity,
            r.issued() == 0,
    {
        LeasePool { slots: Vec::new(), capacity, issued: 0 }
    }

    /// The position of the slot with the connection for a key.
    fn find_key(&self, key: &PoolKey) -> (at: usize)
        ensures
            at == place(self.slots(), key@),
            at <= self.slots@.len(),
    {
        let mut at: usize = 0;
        while at < self.slots.len()
            invariant
                at <= self.slots.len(),
                forall|k: int| 0 <= k < at ==> !(#[trigger] self.slots()[k]).serves(key@),
            ensures
                at <= self.slots.len(),
                forall|k: int| 0 <= k < at ==> !(#[trigger] self.slots()[k]).serves(key@),
                at < self.slots.len() ==> self.slots()[at as int].serves(key@),
            decreases self.slots.len() - at,
        {
            let found = match &self.slots[at].entry {
                Some(entry) => entry.key.same(key),
                None => false,
            };
            if found {
                break ;
            }
            at += 1;
        }
        proof {
            lemma_first_where_is(
                self.slots(),
                |slot: SlotView| slot.serves(key@),
                at as int,
            );
        }
        at
    }

    /// The position of the slot with a number.
    fn find_slot(&self, id: u64) -> (at: usize)
        ensures
            at == slot_of(self.slots(), id),
            at <= self.slots@.len(),
            at < self.slots@.len() ==> self.slots@[at as int].id == id,
    {
        let mut at: usize = 0;
        while at < self.slots.len() && self.slots[at].id != id
            invariant
                at <= self.slots.len(),
                forall|k: int| 0 <= k < at ==> (#[trigger] self.slots()[k]).id != id,
            decreases self.slots.len() - at,
        {
            at += 1;
        }
        proof {
            lemma_first_where_is(self.slots(), |slot: SlotView| slot.id == id, at as int);
        }
        at
    }

    /// Whether a slot is held, so that its connection is still needed.
    pub fn holds(&self, id: u64) -> (r: bool)
        ensures
            r == (slot_of(self.slots(), id) < self.slots().len()),
    {
        self.find_slot(id) < self.slots.len()
    }

    /// Whether there are numbers left for another lease.
    pub fn can_lend(&self) -> (r: bool)
        ensures
            r == (self.issued() < u64::MAX),
    {
        self.issued < u64::MAX
    }

    /// Takes the connection out of a slot.
    fn drop_entry(&mut self, at: usize)
        requires
            old(self).inv(),
            at < old(self).slots().len(),
        ensures
            final(self).inv(),
            final(self).slots() == dropped(old(self).slots(), at as int),
            final(self).capacity() == old(self).capacity(),
            final(self).issued() == old(self).issued(),
    {
        proof {
            lemma_dropped(self.slots(), at as int, self.issued());
        }
        let ghost before = self.slots();
        if self.slots[at].borrowers == 0 {
            self.slots.remove(at);
            assert(self.slots() == before.remove(at as int));
        } else {
            let slot = PoolSlot {
                id: self.slots[at].id,
                entry: None,
                borrowers: self.slots[at].borrowers,
            };
            self.slots.set(at, slot);
            assert(self.slots() == before.update(at as int, before[at as int].emptied()));
        }
    }

    /// Drops the connection for a key. Who holds its slot keeps it.
    pub fn invalidate(&mut self, key: &PoolKey)
        requires
            old(self).inv(),
        ensures
            final(self).inv(),
            final(self).slots() == forgotten(old(self).slots(), key@),
            final(self).capacity() == old(self).capacity(),
            final(self).issued() == old(self).issued(),
    {
        let at: usize = self.find_key(key);
        if at < self.slots.len() {
            self.drop_entry(at);
        }
    }

    /// Drops the connections that are closed.
    fn drop_closed(&mut self, closed: &Vec<u64>)
        requires
            old(self).inv(),
        ensures
            final(self).inv(),
            final(self).slots() == without_closed(old(self).slots(), closed@),
            final(self).capacity() == old(self).capacity(),
            final(self).issued() == old(self).issued(),
    {
        let ghost all = self.slots();
        let ghost mut seen: int = 0;
        let mut at: usize = 0;
        assert(all.take(0) == Seq::<SlotView>::empty());
        assert(self.slots() == without_closed(all.take(0), closed@) + all.skip(0));
        while at < self.slots.len()
            invariant
                self.inv(),
                0 <= seen <= all.len(),
                at <= self.slots.len(),
                at == without_closed(all.take(seen), closed@).len(),
                self.slots() == without_closed(all.take(seen), closed@) + all.skip(seen),
                self.capacity() == old(self).capacity(),
                self.issued() == old(self).issued(),
            decreases all.len() - seen,
        {
            let ghost before = self.slots();
            let ghost kept = without_closed(all.take(seen), closed@);
            proof {
                assert(seen < all.len());
                assert(before[at as int] == all.skip(seen)[0]);
                assert(all.skip(seen)[0] == all[seen]);
                assert(all.take(seen + 1).drop_last() == all.take(seen));
                assert(all.take(seen + 1).last() == all[seen]);
                assert(all.skip(seen) == seq![all[seen]] + all.skip(seen + 1));
            }
            let gone = match &self.slots[at].entry {
                Some(_) => has_number(closed, self.slots[at].id),
                None => false,
            };
            if gone {
                let held = self.slots[at].borrowers > 0;
                self.drop_entry(at);
                if held {
                    at += 1;
                    assert(self.slots() == kept.push(all[seen].emptied()) + all.skip(seen + 1));
                } else {
                    assert(self.slots() == kept + all.skip(seen + 1));
                }
            } else {
                at += 1;
                assert(self.slots() == kept.push(all[seen]) + all.skip(seen + 1));
            }
            proof {
                seen = seen + 1;
            }
        }
        proof {
            assert(all.skip(seen).len() == 0);
            assert(all.take(seen) == all);
            assert(self.slots() == without_closed(all, closed@));
        }
    }

    /// Drops the idle connection that was not used for the longest time.
    fn evict(&mut self)
        requires
            old(self).inv(),
        ensures
            final(self).inv(),
            evicts(old(self).slots(), final(self).slots()),
            final(self).capacity() == old(self).capacity(),
            final(self).issued() == old(self).issued(),
    {
        let mut best: Option<(usize, u128)> = None;
        let mut i: usize = 0;
        while i < self.slots.len()
            invariant
                self.inv(),
                self == old(self),
                i <= self.slots@.len(),
                match best {
                    Some((at, last_used)) => {
                        &&& at < i
                        &&& self.slots()[at as int].is_idle()
                        &&& self.slots()[at as int].entry->0.last_used == last_used
                        &&& forall|j: int|
                            0 <= j < i && (#[trigger] self.slots()[j]).is_idle() ==> last_used
                                <= self.slots()[j].entry->0.last_used
                    },
                    None => forall|j: int|
                        0 <= j < i ==> !(#[trigger] self.slots()[j]).is_idle(),
                },
            decreases self.slots.len() - i,
        {
            let slot = &self.slots[i];
            assert(self.slots()[i as int] == slot@);
            if slot.borrowers == 0 {
                match &slot.entry {
                    Some(entry) => {
                        let better = match best {
                            Some((_, last_used)) => entry.last_used < last_used,
                            None => true,
                        };
                        if better {
                            best = Some((i, entry.last_used));
                        }
                    },
                    None => {},
                }
            }
            i += 1;
        }
        match best {
            Some((at, _)) => {
                assert(is_least_used(self.slots(), at as int));
                self.drop_entry(at);
            },
            None => {},
        }
    }

    /// Holds a slot for a connection that is to be opened.
    fn push_reservation(&mut self) -> (r: PoolLease)
        requires
            old(self).inv(),
            old(self).slots().len() < old(self).capacity(),
            old(self).issued() < u64::MAX,
        ensures
            final(self).inv(),
            final(self).slots() == old(self).slots().push(reservation(old(self).issued())),
            final(self).capacity() == old(self).capacity(),
            final(self).issued() == old(self).issued() + 1,
            r == (PoolLease { id: old(self).issued(), is_new: true }),
    {
        let id: u64 = self.issued;
        let ghost before = self.slots();
        self.slots.push(PoolSlot { id, entry: None, borrowers: 1 });
        self.issued = id + 1;
        assert(self.slots() == before.push(reservation(id)));
        PoolLease { id, is_new: true }
    }

    /// Reserves a slot: a free one; or else, once closed connections and the least used
    /// idle one are gone, one that became free.
    fn acquire_slot(&mut self, closed: &Vec<u64>) -> (r: Option<PoolLease>)
        requires
            old(self).inv(),
            old(self).issued() < u64::MAX,
        ensures
            final(self).inv(),
            reserves(
                old(self).slots(),
                old(self).capacity(),
                old(self).issued(),
                closed@,
                final(self).slots(),
                r is Some,
            ),
            r matches Some(lease) ==> lease == (PoolLease { id: old(self).issued(), is_new: true }),
            final(self).capacity() == old(self).capacity(),
            final(self).issued() == old(self).issued() + if r is Some {
                1int
            } else {
                0
            },
    {
        if self.slots.len() < self.capacity {
            return Some(self.push_reservation());
        }
        self.drop_closed(closed);
        let ghost open = self.slots();
        self.evict();
        let ghost rest = self.slots();
        proof {
            assert(evicts(open, rest));
        }
        if self.slots.len() < self.capacity {
            Some(self.push_reservation())
        } else {
            None
        }
    }

    /// Lends the connection in a slot once more.
    fn lend(&mut self, at: usize, now: u128) -> (r: PoolLease)
        requires
            old(self).inv(),
            at < old(self).slots().len(),
            old(self).slots()[at as int].entry is Some,
            old(self).issued() < u64::MAX,
        ensures
            final(self).inv(),
            final(self).slots() == lent(old(self).slots(), at as int, now),
            final(self).capacity() == old(self).capacity(),
            final(self).issued() == old(self).issued() + 1,
            r == (PoolLease { id: old(self).slots()[at as int].id, is_new: false }),
    {
        let ghost before = self.slots();
        let id: u64 = self.slots[at].id;
        let borrowers: u64 = self.slots[at].borrowers;
        let mut slot = PoolSlot { id, entry: None, borrowers: borrowers + 1 };
        std::mem::swap(&mut slot, &mut self.slots[at]);
        match slot.entry {
            Some(entry) => {
                let slot = PoolSlot {
                    id,
                    entry: Some(PoolEntry { key: entry.key, last_used: now }),
                    borrowers: borrowers + 1,
                };
                self.slots.set(at, slot);
            },
            None => {},
        }
        self.issued = self.issued + 1;
        proof {
            let after = lent(before, at as int, now);
            assert(self.slots() == after);
            assert(are_sound(before, self.issued));
            lemma_updated(before, at as int, after[at as int], self.issued);
        }
        PoolLease { id, is_new: false }
    }

    /// Asks for the connection for a key. An open one is lent; else a slot is reserved
    /// for a new one, before anything is done to open it. `closed` lists the slots whose
    /// connections are closed.
    pub fn get(&mut self, key: &PoolKey, closed: &Vec<u64>, protocol: &str, now: u128) -> (r: Result<
        PoolLease,
        DnsProxyError,
    >)
        requires
            old(self).inv(),
            old(self).issued() < u64::MAX,
        ensures
            final(self).inv(),
            old(self).gets(key@, closed@, protocol@, now, *final(self), r),
    {
        let at: usize = self.find_key(key);
        proof {
            lemma_first_where(self.slots(), |slot: SlotView| slot.serves(key@));
        }
        if at < self.slots.len() {
            if !has_number(closed, self.slots[at].id) {
                return Ok(self.lend(at, now));
            }
            self.drop_entry(at);
        }
        match self.acquire_slot(closed) {
            Some(lease) => Ok(lease),
            None => Err(overloaded(key.hostname.as_str(), key.port, protocol)),
        }
    }

    /// Gives a slot back.
    pub fn release(&mut self, id: u64)
        requires
            old(self).inv(),
        ensures
            final(self).inv(),
            final(self).slots() == returned(old(self).slots(), id),
            final(self).capacity() == old(self).capacity(),
            final(self).issued() == old(self).issued(),
    {
        let ghost before = self.slots();
        let at: usize = self.find_slot(id);
        if at >= self.slots.len() || self.slots[at].borrowers == 0 {
            return;
        }
        assert(before[at as int] == self.slots@[at as int]@);
        let borrowers: u64 = self.slots[at].borrowers;
        let mut slot = PoolSlot { id, entry: None, borrowers: borrowers - 1 };
        std::mem::swap(&mut slot, &mut self.slots[at]);
        match slot.entry {
            Some(entry) => {
                let slot = PoolSlot { id, entry: Some(entry), borrowers: borrowers - 1 };
                self.slots.set(at, slot);
            },
            None => {
                if borrowers == 1 {
                    self.slots.remove(at);
                }
            },
        }
        proof {
            let after = returned(before, id);
            assert(self.slots() == after);
            if borrowers == 1 && before[at as int].entry is None {
                lemma_removed(before, at as int, self.issued);
            } else {
                lemma_updated(before, at as int, after[at as int], self.issued);
            }
        }
    }

    /// Tells that the connection for which a slot was reserved is open. Where another
    /// request was faster, its connection is lent and the slot is given back; else the
    /// connection is kept in the slot. The result is the number of the slot to use.
    pub fn complete(&mut self, id: u64, key: PoolKey, closed: &Vec<u64>, now: u128) -> (r: u64)
        requires
            old(self).inv(),
            old(self).issued() < u64::MAX,
            old(self).is_reserved(id),
        ensures
            final(self).inv(),
            old(self).completes(id, key@, closed@, now, *final(self), r),
    {
        let at: usize = self.find_key(&key);
        proof {
            lemma_first_where(self.slots(), |slot: SlotView| slot.serves(key@));
        }
        if at < self.slots.len() {
            if !has_number(closed, self.slots[at].id) {
                let lease = self.lend(at, now);
                self.release(id);
                return lease.id;
            }
            self.drop_entry(at);
        }
        let ghost rest = self.slots();
        proof {
            lemma_forgotten(old(self).slots(), key@, self.issued(), id);
        }
        let slot_at: usize = self.find_slot(id);
        if slot_at < self.slots.len() {
            let borrowers: u64 = self.slots[slot_at].borrowers;
            let slot = PoolSlot {
                id,
                entry: Some(PoolEntry { key, last_used: now }),
                borrowers,
            };
            self.slots.set(slot_at, slot);
            proof {
                let after = entered(rest, id, key@, now);
                assert(self.slots() == after);
                lemma_updated(rest, slot_at as int, after[slot_at as int], self.issued);
            }
        }
        id
    }
}

/// Whether a list has a number.
fn has_number(numbers: &Vec<u64>, wanted: u64) -> (r: bool)
    ensures
        r == numbers@.contains(wanted),
{
    let mut i: usize = 0;
    while i < numbers.len()
        invariant
            i <= numbers.len(),
            forall|k: int| 0 <= k < i ==> numbers@[k] != wanted,
        decreases numbers.len() - i,
    {
        if numbers[i] == wanted {
            assert(numbers@[i as int] == wanted);
            return true;
        }
        i += 1;
    }
    false
}

/// After the connection for a key is gone, no slot serves the key.
proof fn lemma_unserved(slots: Seq<SlotView>, key: KeyView, issued: u64)
    requires
        are_sound(slots, issued),
    ensures
        forall|i: int|
            0 <= i < forgotten(slots, key).len() ==> !(#[trigger] forgotten(slots, key)[i]).serves(
                key,
            ),
{
    let serves = |slot: SlotView| slot.serves(key);
    lemma_first_where(slots, serves);
    let at = place(slots, key);
    let after = forgotten(slots, key);
    assert forall|i: int| 0 <= i < after.len() implies !(#[trigger] after[i]).serves(key) by {
        if at >= slots.len() {
            assert(!serves(slots[i]));
        } else if slots[at].borrowers == 0 {
            let k = if i < at {
                i
            } else {
                i + 1
            };
            assert(after[i] == slots[k]);
            if k < at {
                assert(are_apart(slots[k], slots[at]));
            } else {
                assert(are_apart(slots[at], slots[k]));
            }
        } else if i != at {
            assert(after[i] == slots[i]);
            if i < at {
                assert(are_apart(slots[i], slots[at]));
            } else {
                assert(are_apart(slots[at], slots[i]));
            }
        }
    }
}

/// After the connection for a key is gone, no slot serves the key, and a slot that was
/// reserved still is.
proof fn lemma_forgotten(slots: Seq<SlotView>, key: KeyView, issued: u64, id: u64)
    requires
        are_sound(slots, issued),
        slot_of(slots, id) < slots.len(),
        slots[slot_of(slots, id)].entry is None,
    ensures
        slot_of(forgotten(slots, key), id) < forgotten(slots, key).len(),
        forgotten(slots, key)[slot_of(forgotten(slots, key), id)].id == id,
        forall|i: int|
            0 <= i < forgotten(slots, key).len() ==> !(#[trigger] forgotten(slots, key)[i]).serves(
                key,
            ),
{
    let serves = |slot: SlotView| slot.serves(key);
    let has_id = |slot: SlotView| slot.id == id;
    lemma_first_where(slots, serves);
    lemma_first_where(slots, has_id);
    lemma_unserved(slots, key, issued);
    let at = place(slots, key);
    let held = slot_of(slots, id);
    let after = forgotten(slots, key);
    lemma_first_where(after, has_id);
    assert(is_sound(slots[held], issued));
    if at < slots.len() {
        assert(slots[at].serves(key));
        if slots[at].borrowers == 0 {
            let new_at = if held < at {
                held
            } else {
                held - 1
            };
            assert(after[new_at] == slots[held]);
            assert(has_id(after[new_at]));
        } else {
            assert(after[held].id == id);
            assert(has_id(after[held]));
        }
    } else {
        assert(has_id(after[held]));
    }
}

/// A slot that serves a key is the only one that does.
proof fn lemma_place(slots: Seq<SlotView>, key: KeyView, issued: u64, i: int)
    requires
        are_sound(slots, issued),
        0 <= i < slots.len(),
        slots[i].serves(key),
    ensures
        place(slots, key) == i,
{
    lemma_first_where(slots, |slot: SlotView| slot.serves(key));
    let at = place(slots, key);
    if at < i {
        assert(are_apart(slots[at], slots[i]));
    }
}

/// A connection that was opened is lent to later requests for the same key as long as it
/// stays open: nobody opens another one.
pub proof fn open_connections_are_reused(
    before: LeasePool,
    id: u64,
    key: KeyView,
    closed: Seq<u64>,
    now: u128,
    open: LeasePool,
    winner: u64,
    closed_later: Seq<u64>,
    protocol: Seq<char>,
    later: u128,
    after: LeasePool,
    r: Result<PoolLease, DnsProxyError>,
)
    requires
        before.inv(),
        before.is_reserved(id),
        before.completes(id, key, closed, now, open, winner),
        open.inv(),
        !closed_later.contains(winner),
        open.gets(key, closed_later, protocol, later, after, r),
    ensures
        r == Ok::<PoolLease, DnsProxyError>(PoolLease { id: winner, is_new: false }),
{
    let slots = before.slots();
    let at = place(slots, key);
    lemma_first_where(slots, |slot: SlotView| slot.serves(key));
    if at < slots.len() && !closed.contains(slots[at].id) {
        let held = slot_of(slots, id);
        lemma_first_where(slots, |slot: SlotView| slot.id == id);
        let more = lent(slots, at, now);
        let more_held = slot_of(more, id);
        lemma_first_where(more, |slot: SlotView| slot.id == id);
        let i = if more_held < at && more[more_held].borrowers == 1 && more[more_held].entry is None {
            at - 1
        } else {
            at
        };
        assert(more_held != at) by {
            if held < at {
                assert(are_apart(slots[held], slots[at]));
            } else if held > at {
                assert(are_apart(slots[at], slots[held]));
            }
        }
        assert(open.slots()[i] == more[at]);
        lemma_place(open.slots(), key, open.issued(), i);
    } else {
        lemma_forgotten(slots, key, before.issued(), id);
        let rest = forgotten(slots, key);
        let i = slot_of(rest, id);
        lemma_first_where(rest, |slot: SlotView| slot.id == id);
        assert(open.slots()[i].serves(key));
        lemma_place(open.slots(), key, open.issued(), i);
    }
}

/// A connection that was dropped from the pool is not lent again: the next request for
/// its key opens a new one or is refused.
pub proof fn dropped_connections_are_not_lent(
    before: LeasePool,
    key: KeyView,
    closed: Seq<u64>,
    protocol: Seq<char>,
    now: u128,
    middle: LeasePool,
    after: LeasePool,
    r: Result<PoolLease, DnsProxyError>,
)
    requires
        before.inv(),
        middle.slots() == forgotten(before.slots(), key),
        middle.issued() == before.issued(),
        middle.gets(key, closed, protocol, now, after, r),
    ensures
        match r {
            Ok(lease) => lease == (PoolLease { id: before.issued(), is_new: true }),
            Err(error) => error@ == overload(key.hostname, key.port, protocol),
        },
{
    lemma_unserved(before.slots(), key, before.issued());
    lemma_first_where(middle.slots(), |slot: SlotView| slot.serves(key));
}

/// Lending a connection once more adds one borrower and notes the time; every other slot,
/// and everything else of this one, stays.
pub proof fn lending_adds_a_borrower(slots: Seq<SlotView>, i: int, now: u128, other: int)
    requires
        0 <= i < slots.len(),
        slots[i].entry is Some,
        slots[i].borrowers < u64::MAX,
        0 <= other < slots.len(),
    ensures
        ({
            let after = lent(slots, i, now);
            &&& after.len() == slots.len()
            &&& after[i].id == slots[i].id
            &&& after[i].borrowers == slots[i].borrowers + 1
            &&& after[i].entry matches Some(entry) && entry.key == slots[i].entry->0.key
                && entry.last_used == now
            &&& other != i ==> after[other] == slots[other]
        }),
{
}

/// Giving a slot back takes one borrower away. A slot without a connection whose last
/// borrower is gone is free; one with a connection stays in the pool. Nothing else changes.
pub proof fn giving_back_takes_a_borrower_away(
    slots: Seq<SlotView>,
    issued: u64,
    i: int,
    other: int,
)
    requires
        are_sound(slots, issued),
        0 <= i < slots.len(),
        slots[i].borrowers > 0,
        0 <= other < slots.len(),
    ensures
        ({
            let after = returned(slots, slots[i].id);
            &&& slots[i].entry is Some || slots[i].borrowers > 1 ==> {
                &&& after.len() == slots.len()
                &&& after[i] == (SlotView {
                    borrowers: (slots[i].borrowers - 1) as u64,
                    ..slots[i]
                })
                &&& other != i ==> after[other] == slots[other]
            }
            &&& slots[i].entry is None && slots[i].borrowers == 1 ==> {
                &&& after.len() == slots.len() - 1
                &&& other < i ==> after[other] == slots[other]
                &&& other > i ==> after[other - 1] == slots[other]
            }
        }),
{
    lemma_slot(slots, issued, i);
}

/// A slot is found by its number.
proof fn lemma_slot(slots: Seq<SlotView>, issued: u64, i: int)
    requires
        are_sound(slots, issued),
        0 <= i < slots.len(),
    ensures
        slot_of(slots, slots[i].id) == i,
{
    let id = slots[i].id;
    lemma_first_where(slots, |slot: SlotView| slot.id == id);
    let at = slot_of(slots, id);
    if at < i {
        assert(are_apart(slots[at], slots[i]));
    }
}

/// What is lent and given back is as it was, but for the time at which it was asked for.
pub proof fn giving_back_undoes_lending(
    slots: Seq<SlotView>,
    issued: u64,
    i: int,
    now: u128,
)
    requires
        are_sound(slots, issued),
        0 <= i < slots.len(),
        slots[i].entry is Some,
        slots[i].borrowers < u64::MAX,
    ensures
        returned(lent(slots, i, now), slots[i].id) == slots.update(
            i,
            SlotView {
                entry: Some(EntryView { key: slots[i].entry->0.key, last_used: now }),
                ..slots[i]
            },
        ),
{
    let more = lent(slots, i, now);
    let id = slots[i].id;
    assert forall|k: int| 0 <= k < i implies (#[trigger] more[k]).id != id by {
        assert(are_apart(slots[k], slots[i]));
    }
    lemma_first_where_is(more, |slot: SlotView| slot.id == id, i);
}

/// Slots of a pool have different numbers, at most one of them serves a key, and each has a
/// connection or somebody who holds it.
pub proof fn slots_are_told_apart(slots: Seq<SlotView>, issued: u64, i: int, j: int, key: KeyView)
    requires
        are_sound(slots, issued),
        0 <= i < j < slots.len(),
    ensures
        slots[i].id != slots[j].id,
        slots[i].id < issued && slots[j].id < issued,
        !(slots[i].serves(key) && slots[j].serves(key)),
        slots[i].entry is Some || slots[i].borrowers > 0,
{
    assert(are_apart(slots[i], slots[j]));
    assert(is_sound(slots[i], issued) && is_sound(slots[j], issued));
}

/// A slot serves exactly the key of its connection: the application, the host and the port
/// must all be the same. It is idle exactly where it has a connection that nobody holds.
pub proof fn connections_serve_their_own_key(slot: SlotView, key: KeyView)
    ensures
        slot.serves(key) <==> (slot.entry matches Some(entry) && entry.key.application
            == key.application && entry.key.hostname == key.hostname && entry.key.port == key.port),
        slot.is_idle() <==> slot.entry is Some && slot.borrowers == 0,
        slot.emptied().entry is None && slot.emptied().id == slot.id && slot.emptied().borrowers
            == slot.borrowers,
{
}

/// A connection that serves a key and is open is lent to whoever asks for the key, and
/// nothing new is reserved.
pub proof fn open_connections_are_lent(
    pool: LeasePool,
    key: KeyView,
    closed: Seq<u64>,
    protocol: Seq<char>,
    now: u128,
    after: LeasePool,
    r: Result<PoolLease, DnsProxyError>,
    i: int,
)
    requires
        pool.inv(),
        0 <= i < pool.slots().len(),
        pool.slots()[i].serves(key),
        !closed.contains(pool.slots()[i].id),
        pool.slots()[i].borrowers < u64::MAX,
        pool.gets(key, closed, protocol, now, after, r),
    ensures
        r matches Ok(lease) && lease.id == pool.slots()[i].id && !lease.is_new,
        after.slots().len() == pool.slots().len(),
        after.slots()[i].borrowers == pool.slots()[i].borrowers + 1,
{
    lemma_place(pool.slots(), key, pool.issued(), i);
}

/// A pool that has room refuses nobody: a key that no connection serves gets a new slot with
/// a number that was never used, held once and without a connection, behind all others.
pub proof fn pools_with_room_refuse_nobody(
    pool: LeasePool,
    key: KeyView,
    closed: Seq<u64>,
    protocol: Seq<char>,
    now: u128,
    after: LeasePool,
    r: Result<PoolLease, DnsProxyError>,
)
    requires
        pool.inv(),
        pool.slots().len() < pool.capacity(),
        forall|i: int| 0 <= i < pool.slots().len() ==> !(#[trigger] pool.slots()[i]).serves(key),
        pool.gets(key, closed, protocol, now, after, r),
    ensures
        r matches Ok(lease) && lease.is_new && lease.id == pool.issued() && forall|i: int|
            0 <= i < pool.slots().len() ==> (#[trigger] pool.slots()[i]).id != lease.id,
        after.slots() == pool.slots().push(
            SlotView { id: pool.issued(), entry: None, borrowers: 1 },
        ),
{
    lemma_first_where(pool.slots(), |slot: SlotView| slot.serves(key));
    assert forall|i: int| 0 <= i < pool.slots().len() implies (#[trigger] pool.slots()[i]).id
        != pool.issued() by {
        assert(is_sound(pool.slots()[i], pool.issued()));
    }
}

/// A full pool in which some connection is idle refuses nobody either: the idle connection
/// that was not asked for the longest makes room, and no slot that somebody holds does.
pub proof fn idle_connections_make_room(
    pool: LeasePool,
    key: KeyView,
    protocol: Seq<char>,
    now: u128,
    after: LeasePool,
    r: Result<PoolLease, DnsProxyError>,
    idle: int,
)
    requires
        pool.inv(),
        pool.slots().len() == pool.capacity(),
        forall|i: int| 0 <= i < pool.slots().len() ==> !(#[trigger] pool.slots()[i]).serves(key),
        0 <= idle < pool.slots().len(),
        pool.slots()[idle].entry is Some,
        pool.slots()[idle].borrowers == 0,
        pool.gets(key, Seq::empty(), protocol, now, after, r),
    ensures
        r matches Ok(lease) && lease.is_new && lease.id == pool.issued(),
        exists|out: int|
            0 <= out < pool.slots().len() && (#[trigger] pool.slots()[out]).borrowers == 0
                && pool.slots()[out].entry is Some && pool.slots()[out].entry->0.last_used
                <= pool.slots()[idle].entry->0.last_used && after.slots() == pool.slots().remove(
                out,
            ).push(SlotView { id: pool.issued(), entry: None, borrowers: 1 }),
{
    let slots = pool.slots();
    lemma_first_where(slots, |slot: SlotView| slot.serves(key));
    lemma_nothing_closed(slots);
    assert(slots[idle].is_idle());
    let rest = choose|rest: Seq<SlotView>| #[trigger]
        evicts(without_closed(slots, Seq::empty()), rest) && if rest.len() < pool.capacity() {
            r is Ok && after.slots() == rest.push(reservation(pool.issued()))
        } else {
            !(r is Ok) && after.slots() == rest
        };
    let out = choose|i: int| #[trigger] is_least_used(slots, i) && rest == slots.remove(i);
    assert(slots[out].is_idle());
}

/// Where no connection is closed, none is dropped.
proof fn lemma_nothing_closed(slots: Seq<SlotView>)
    ensures
        without_closed(slots, Seq::empty()) == slots,
    decreases slots.len(),
{
    if slots.len() > 0 {
        lemma_nothing_closed(slots.drop_last());
        assert(slots.drop_last().push(slots.last()) == slots);
    }
}

/// Dropping what is closed leaves no closed connection: every slot that is left was there
/// before with its number and borrowers, those that are held are all left, and open
/// connections stay as they are.
pub proof fn closed_connections_are_dropped(slots: Seq<SlotView>, closed: Seq<u64>, i: int)
    ensures
        0 <= i < without_closed(slots, closed).len() ==> {
            let kept = without_closed(slots, closed)[i];
            &&& kept.entry is Some ==> !closed.contains(kept.id)
            &&& exists|k: int|
                0 <= k < slots.len() && (#[trigger] slots[k]).id == kept.id && slots[k].borrowers
                    == kept.borrowers && (kept.entry is Some ==> slots[k] == kept)
        },
        0 <= i < slots.len() && (slots[i].borrowers > 0 || (slots[i].entry is Some
            && !closed.contains(slots[i].id))) ==> exists|k: int|
            0 <= k < without_closed(slots, closed).len() && (#[trigger] without_closed(
                slots,
                closed,
            )[k]).id == slots[i].id && without_closed(slots, closed)[k].borrowers
                == slots[i].borrowers && (!closed.contains(slots[i].id) ==> without_closed(
                slots,
                closed,
            )[k] == slots[i]),
    decreases slots.len(),
{
    if slots.len() > 0 {
        let shorter = slots.drop_last();
        let before = without_closed(shorter, closed);
        let after = without_closed(slots, closed);
        let last = slots.last();
        closed_connections_are_dropped(shorter, closed, i);
        if 0 <= i < after.len() {
            let kept = after[i];
            if i < before.len() {
                assert(kept == before[i]);
                let k = choose|k: int|
                    0 <= k < shorter.len() && (#[trigger] shorter[k]).id == kept.id
                        && shorter[k].borrowers == kept.borrowers && (kept.entry is Some
                        ==> shorter[k] == kept);
                assert(slots[k] == shorter[k]);
            } else {
                assert(slots[slots.len() - 1].id == kept.id);
            }
        }
        if 0 <= i < slots.len() && (slots[i].borrowers > 0 || (slots[i].entry is Some
            && !closed.contains(slots[i].id))) {
            if i < shorter.len() {
                assert(shorter[i] == slots[i]);
                let k = choose|k: int|
                    0 <= k < before.len() && (#[trigger] before[k]).id == slots[i].id
                        && before[k].borrowers == slots[i].borrowers && (!closed.contains(
                        slots[i].id,
                    ) ==> before[k] == slots[i]);
                assert(after[k] == before[k]);
            } else {
                assert(slots[i] == last);
                assert(after[after.len() - 1].id == last.id);
            }
        }
    }
}

/// Whoever drops the connection for a key leaves no slot that serves it: one that nobody
/// holds is free, and one that is held keeps its number and its borrowers.
pub proof fn dropped_keys_are_not_served(
    slots: Seq<SlotView>,
    key: KeyView,
    issued: u64,
    i: int,
)
    requires
        are_sound(slots, issued),
    ensures
        0 <= i < forgotten(slots, key).len() ==> !forgotten(slots, key)[i].serves(key),
        0 <= i < slots.len() && slots[i].serves(key) && slots[i].borrowers == 0 ==> forgotten(
            slots,
            key,
        ) == slots.remove(i),
        0 <= i < slots.len() && slots[i].serves(key) && slots[i].borrowers > 0 ==> forgotten(
            slots,
            key,
        ) == slots.update(
            i,
            SlotView { id: slots[i].id, entry: None, borrowers: slots[i].borrowers },
        ),
        (forall|k: int| 0 <= k < slots.len() ==> !(#[trigger] slots[k]).serves(key)) ==> forgotten(
            slots,
            key,
        ) == slots,
{
    lemma_unserved(slots, key, issued);
    lemma_first_where(slots, |slot: SlotView| slot.serves(key));
    if 0 <= i < slots.len() && slots[i].serves(key) {
        lemma_place(slots, key, issued, i);
    }
}

/// A connection that is opened for a reserved slot is kept there under its key, where no
/// other serves the key, and the slot keeps its borrowers.
pub proof fn opened_connections_are_kept(
    pool: LeasePool,
    i: int,
    key: KeyView,
    closed: Seq<u64>,
    now: u128,
    after: LeasePool,
    r: u64,
)
    requires
        pool.inv(),
        0 <= i < pool.slots().len(),
        pool.slots()[i].entry is None,
        forall|k: int| 0 <= k < pool.slots().len() ==> !(#[trigger] pool.slots()[k]).serves(key),
        pool.completes(pool.slots()[i].id, key, closed, now, after, r),
    ensures
        r == pool.slots()[i].id,
        after.slots() == pool.slots().update(
            i,
            SlotView {
                id: pool.slots()[i].id,
                entry: Some(EntryView { key, last_used: now }),
                borrowers: pool.slots()[i].borrowers,
            },
        ),
{
    lemma_first_where(pool.slots(), |slot: SlotView| slot.serves(key));
    lemma_slot(pool.slots(), pool.issued(), i);
}

/// Of the idle connections one that was not asked for the longest leaves, where any is idle,
/// and nothing else changes.
pub proof fn the_least_used_connection_leaves(
    before: Seq<SlotView>,
    after: Seq<SlotView>,
    idle: int,
)
    requires
        evicts(before, after),
    ensures
        0 <= idle < before.len() && before[idle].entry is Some && before[idle].borrowers == 0
            ==> exists|out: int|
            0 <= out < before.len() && (#[trigger] before[out]).entry is Some
                && before[out].borrowers == 0 && before[out].entry->0.last_used
                <= before[idle].entry->0.last_used && after == before.remove(out),
        (forall|i: int|
            0 <= i < before.len() ==> (#[trigger] before[i]).entry is None || before[i].borrowers
                > 0) ==> after == before,
{
    if 0 <= idle < before.len() && before[idle].entry is Some && before[idle].borrowers == 0 {
        assert(before[idle].is_idle());
        let out = choose|i: int| #[trigger] is_least_used(before, i) && after == before.remove(i);
        assert(before[out].is_idle());
    }
}

/// A pool in which some connection is idle, open or closed, refuses nobody, and every slot
/// that somebody holds is still there afterwards with its borrowers.
pub proof fn idle_pools_refuse_nobody(
    slots: Seq<SlotView>,
    issued: u64,
    capacity: nat,
    closed: Seq<u64>,
    after: Seq<SlotView>,
    granted: bool,
    idle: int,
    held: int,
)
    requires
        are_sound(slots, issued),
        slots.len() <= capacity,
        0 <= idle < slots.len(),
        slots[idle].entry is Some,
        slots[idle].borrowers == 0,
        0 <= held < slots.len(),
        reserves(slots, capacity, issued, closed, after, granted),
    ensures
        granted,
        slots[held].borrowers > 0 ==> exists|k: int|
            0 <= k < after.len() && (#[trigger] after[k]).id == slots[held].id && after[k].borrowers
                == slots[held].borrowers,
        after.len() > 0 && after.last().id == issued && after.last().entry is None
            && after.last().borrowers == 1,
{
    if slots.len() < capacity {
        if slots[held].borrowers > 0 {
            assert(after[held] == slots[held]);
        }
    } else {
        let open = without_closed(slots, closed);
        let rest = choose|rest: Seq<SlotView>| #[trigger]
            evicts(open, rest) && if rest.len() < capacity {
                granted && after == rest.push(reservation(issued))
            } else {
                !granted && after == rest
            };
        lemma_without_closed(slots, closed, issued);
        if closed.contains(slots[idle].id) {
            lemma_closed_idle_slots_are_free(slots, closed, idle);
        } else {
            closed_connections_are_dropped(slots, closed, idle);
            let k = choose|k: int|
                0 <= k < open.len() && (#[trigger] open[k]).id == slots[idle].id
                    && open[k].borrowers == slots[idle].borrowers && (!closed.contains(
                    slots[idle].id,
                ) ==> open[k] == slots[idle]);
            assert(open[k].is_idle());
        }
        assert(rest.len() < capacity);
        if slots[held].borrowers > 0 {
            closed_connections_are_dropped(slots, closed, held);
            let k = choose|k: int|
                0 <= k < open.len() && (#[trigger] open[k]).id == slots[held].id
                    && open[k].borrowers == slots[held].borrowers && (!closed.contains(
                    slots[held].id,
                ) ==> open[k] == slots[held]);
            if rest == open {
                assert(after[k] == open[k]);
            } else {
                let out = choose|i: int| #[trigger]
                    is_least_used(open, i) && rest == open.remove(i);
                assert(open[out].is_idle());
                if k < out {
                    assert(after[k] == open[k]);
                } else {
                    assert(after[k - 1] == open[k]);
                }
            }
        }
    }
}

/// A closed connection that nobody holds frees its slot.
proof fn lemma_closed_idle_slots_are_free(slots: Seq<SlotView>, closed: Seq<u64>, i: int)
    requires
        0 <= i < slots.len(),
        slots[i].entry is Some,
        slots[i].borrowers == 0,
        closed.contains(slots[i].id),
    ensures
        without_closed(slots, closed).len() < slots.len(),
    decreases slots.len(),
{
    let shorter = slots.drop_last();
    if i < shorter.len() {
        assert(shorter[i] == slots[i]);
        lemma_closed_idle_slots_are_free(shorter, closed, i);
    } else {
        lemma_no_more_slots(shorter, closed);
    }
}

/// Dropping what is closed adds no slot.
proof fn lemma_no_more_slots(slots: Seq<SlotView>, closed: Seq<u64>)
    ensures
        without_closed(slots, closed).len() <= slots.len(),
    decreases slots.len(),
{
    if slots.len() > 0 {
        lemma_no_more_slots(slots.drop_last(), closed);
    }
}

/// Of two requests that open a connection to the same upstream, the second to be done uses
/// the connection of the first: that one has a borrower more, and the slot of the second is
/// free again where nobody else holds it.
pub proof fn the_first_connection_is_shared(
    pool: LeasePool,
    i: int,
    mine: int,
    key: KeyView,
    closed: Seq<u64>,
    now: u128,
    after: LeasePool,
    r: u64,
)
    requires
        pool.inv(),
        0 <= i < pool.slots().len(),
        pool.slots()[i].serves(key),
        !closed.contains(pool.slots()[i].id),
        pool.slots()[i].borrowers < u64::MAX,
        0 <= mine < pool.slots().len(),
        pool.slots()[mine].entry is None,
        pool.slots()[mine].borrowers == 1,
        pool.completes(pool.slots()[mine].id, key, closed, now, after, r),
    ensures
        r == pool.slots()[i].id,
        after.slots().len() == pool.slots().len() - 1,
        exists|k: int|
            0 <= k < after.slots().len() && (#[trigger] after.slots()[k]).id == pool.slots()[i].id
                && after.slots()[k].borrowers == pool.slots()[i].borrowers + 1
                && after.slots()[k].serves(key),
{
    let slots = pool.slots();
    lemma_place(slots, key, pool.issued(), i);
    let more = lent(slots, i, now);
    let id = slots[mine].id;
    assert forall|k: int| 0 <= k < mine implies (#[trigger] more[k]).id != id by {
        assert(are_apart(slots[k], slots[mine]));
    }
    lemma_first_where_is(more, |slot: SlotView| slot.id == id, mine);
    let k = if i < mine {
        i
    } else {
        i - 1
    };
    assert(after.slots()[k] == more[i]);
}

/// A pool that is full reports the host and the port that were asked for, and the protocol.
pub proof fn overloads_name_the_upstream(hostname: Seq<char>, port: u16, protocol: Seq<char>)
    ensures
        overload(hostname, port, protocol) == (ErrorView::Overloaded {
            upstream: hostname + seq![':'] + text::decimal(port as nat),
            protocol,
        }),
{
    reveal_strlit(":");
    assert(":"@ == seq![':']);
}

/// The texts of keys and slots are those of their own fields, and those of slots keep their
/// order.
pub proof fn slots_show_their_own_fields(key: PoolKey, slots: Seq<PoolSlot>, i: int)
    requires
        0 <= i < slots.len(),
    ensures
        key@.application == key.application && key@.hostname == key.hostname@ && key@.port
            == key.port,
        slots_view(slots).len() == slots.len(),
        slots_view(slots)[i].id == slots[i].id,
        slots_view(slots)[i].borrowers == slots[i].borrowers,
        slots[i].entry is None <==> slots_view(slots)[i].entry is None,
        slots[i].entry matches Some(entry) ==> slots_view(slots)[i].entry->0.key == entry.key@
            && slots_view(slots)[i].entry->0.last_used == entry.last_used,
{
}

/// A slot is reserved where it is there under its number and has no connection.
pub proof fn reserved_slots_have_no_connection(pool: LeasePool, i: int)
    requires
        pool.inv(),
        0 <= i < pool.slots().len(),
    ensures
        pool.is_reserved(pool.slots()[i].id) <==> pool.slots()[i].entry is None,
        slot_of(pool.slots(), pool.slots()[i].id) == i,
        pool.slots().len() <= pool.capacity(),
{
    lemma_slot(pool.slots(), pool.issued(), i);
}

/// A connection that is closed is never lent: whoever asks for its key gets a new slot or is
/// refused, and is not refused where nobody held the closed connection.
pub proof fn closed_connections_are_opened_again(
    pool: LeasePool,
    key: KeyView,
    closed: Seq<u64>,
    protocol: Seq<char>,
    now: u128,
    after: LeasePool,
    r: Result<PoolLease, DnsProxyError>,
    i: int,
)
    requires
        pool.inv(),
        0 <= i < pool.slots().len(),
        pool.slots()[i].serves(key),
        closed.contains(pool.slots()[i].id),
        pool.gets(key, closed, protocol, now, after, r),
    ensures
        r matches Ok(lease) ==> lease.is_new && lease.id == pool.issued(),
        pool.slots()[i].borrowers == 0 ==> r is Ok,
        r matches Err(error) ==> error@ == overload(key.hostname, key.port, protocol),
{
    lemma_place(pool.slots(), key, pool.issued(), i);
}

} // verus!
