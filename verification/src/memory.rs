//! The in-memory tier: a bounded table of byte strings that expire.
use crate::time::{Duration, Timestamp};
use vstd::hash_map::StringHashMap;
use vstd::prelude::*;

verus! {

/// A stored byte string and the instant at which it was stored.
#[derive(Debug)]
pub struct CacheEntry {
    pub data: Vec<u8>,
    pub timestamp: Timestamp,
}

/// What a `CacheEntry` stands for: its bytes and its instant, in nanoseconds
/// since the Unix epoch.
#[verifier::ext_equal]
pub struct EntryView {
    pub data: Seq<u8>,
    pub timestamp: int,
}

impl View for CacheEntry {
    type V = EntryView;

    open spec fn view(&self) -> EntryView {
        EntryView { data: self.data@, timestamp: self.timestamp@ }
    }
}

/// What a `MemoryCache` stands for: its entries by key, the time to live in
/// nanoseconds, and the number of entries at which a write evicts.
#[verifier::ext_equal]
pub struct CacheView {
    pub entries: Map<Seq<char>, EntryView>,
    pub ttl: int,
    pub max_items: nat,
}

impl CacheView {
    /// The bytes that a read of `key` at the instant `now` gives: those stored,
    /// as long as they are younger than the time to live.
    pub open spec fn lookup(self, key: Seq<char>, now: int) -> Option<Seq<u8>> {
        if self.entries.contains_key(key) && now - self.entries[key].timestamp < self.ttl {
            Some(self.entries[key].data)
        } else {
            None
        }
    }

    /// Whether `key` was stored at an instant that lies after `now`.
    pub open spec fn stored_after(self, key: Seq<char>, now: int) -> bool {
        self.entries.contains_key(key) && self.entries[key].timestamp > now
    }

    /// Whether `key` is stored and no entry is older than its own.
    pub open spec fn is_oldest(self, key: Seq<char>) -> bool {
        &&& self.entries.contains_key(key)
        &&& forall|other: Seq<char>| #[trigger]
            self.entries.contains_key(other) ==> self.entries[key].timestamp
                <= self.entries[other].timestamp
    }

    /// Whether a write has to make room first.
    pub open spec fn is_full(self) -> bool {
        self.entries.len() >= self.max_items
    }

    /// The cache without `key`.
    pub open spec fn without(self, key: Seq<char>) -> CacheView {
        CacheView { entries: self.entries.remove(key), ..self }
    }

    /// The cache with `data` stored under `key` at the instant `now`.
    pub open spec fn with(self, key: Seq<char>, data: Seq<u8>, now: int) -> CacheView {
        CacheView {
            entries: self.entries.insert(key, EntryView { data, timestamp: now }),
            ..self
        }
    }

    /// Whether `after` may be the cache that a write of `data` under `key` at
    /// the instant `now` leaves: one oldest entry goes if the cache was full,
    /// whichever one among equally old entries, and the new entry comes in.
    pub open spec fn may_become(
        self,
        key: Seq<char>,
        data: Seq<u8>,
        now: int,
        after: CacheView,
    ) -> bool {
        if self.is_full() && self.entries.len() > 0 {
            exists|victim: Seq<char>| #[trigger]
                self.is_oldest(victim) && after == self.without(victim).with(key, data, now)
        } else {
            after == self.with(key, data, now)
        }
    }

    /// Whether the cache keeps to its size: at most `max_items` entries, or a
    /// single one where `max_items` is zero.
    pub open spec fn is_bounded(self) -> bool {
        &&& self.entries.dom().finite()
        &&& self.entries.len() <= self.max_items || self.entries.len() <= 1
    }
}

/// A key with its entry.
struct Slot {
    key: String,
    entry: CacheEntry,
}

/// Entries in a row, and the position of each by its key.
struct Table {
    slots: Vec<Slot>,
    index: StringHashMap<usize>,
}

impl Table {
    spec fn wf(self) -> bool {
        &&& forall|i: int|
            0 <= i < self.slots@.len() ==> self.index@.contains_key(
                (#[trigger] self.slots@[i]).key@,
            ) && self.index@[self.slots@[i].key@] == i
        &&& forall|k: Seq<char>| #[trigger]
            self.index@.contains_key(k) ==> self.index@[k] < self.slots@.len()
                && self.slots@[self.index@[k] as int].key@ == k
    }

    spec fn entries(self) -> Map<Seq<char>, EntryView> {
        Map::new(
            |k: Seq<char>| self.index@.contains_key(k),
            |k: Seq<char>| self.slots@[self.index@[k] as int].entry@,
        )
    }

    /// The table has as many keys as slots.
    proof fn lemma_len(self)
        requires
            self.wf(),
        ensures
            self.entries().dom().finite(),
            self.entries().len() == self.slots@.len(),
    {
        let keys = self.slots@.map_values(|s: Slot| s.key@);
        assert(keys.no_duplicates()) by {
            assert forall|i: int, j: int|
                0 <= i < keys.len() && 0 <= j < keys.len() && i != j implies keys[i] != keys[j] by {
                assert(keys[i] == self.slots@[i].key@);
                assert(keys[j] == self.slots@[j].key@);
            }
        }
        assert(self.entries().dom() =~= keys.to_set()) by {
            assert forall|k: Seq<char>| self.entries().dom().contains(k) implies keys.to_set().contains(
                k,
            ) by {
                assert(self.index@.contains_key(k));
                assert(keys[self.index@[k] as int] == k);
            }
            assert forall|k: Seq<char>| keys.to_set().contains(k) implies self.entries().dom().contains(
                k,
            ) by {
                let i = choose|i: int| 0 <= i < keys.len() && keys[i] == k;
                assert(self.slots@[i].key@ == k);
            }
        }
        keys.unique_seq_to_set();
    }

    fn new() -> (table: Table)
        ensures
            table.wf(),
            table.slots@.len() == 0,
            table.entries() == Map::<Seq<char>, EntryView>::empty(),
    {
        let table = Table { slots: Vec::new(), index: StringHashMap::new() };
        assert(table.entries() =~= Map::<Seq<char>, EntryView>::empty());
        table
    }

    fn find(&self, key: &str) -> (found: Option<&CacheEntry>)
        requires
            self.wf(),
        ensures
            match found {
                Some(entry) => self.entries().contains_key(key@) && entry@ == self.entries()[key@],
                None => !self.entries().contains_key(key@),
            },
    {
        match self.index.get(key) {
            Some(at) => Some(&self.slots[*at].entry),
            None => None,
        }
    }

    /// The position of an oldest entry.
    fn oldest(&self) -> (at: usize)
        requires
            self.slots@.len() > 0,
        ensures
            at < self.slots@.len(),
            forall|j: int|
                0 <= j < self.slots@.len() ==> self.slots@[at as int].entry.timestamp@
                    <= (#[trigger] self.slots@[j]).entry.timestamp@,
    {
        let mut at: usize = 0;
        let mut i: usize = 1;
        while i < self.slots.len()
            invariant
                at < i <= self.slots@.len(),
                forall|j: int|
                    0 <= j < i ==> self.slots@[at as int].entry.timestamp@ <= (
                    #[trigger] self.slots@[j]).entry.timestamp@,
            decreases self.slots@.len() - i,
        {
            if self.slots[i].entry.timestamp.is_before(&self.slots[at].entry.timestamp) {
                at = i;
            }
            i = i + 1;
        }
        at
    }

    /// Takes out the slot at `at`; the last slot moves to its place.
    fn take(&mut self, at: usize)
        requires
            old(self).wf(),
            at < old(self).slots@.len(),
        ensures
            final(self).wf(),
            final(self).slots@.len() == old(self).slots@.len() - 1,
            final(self).entries() == old(self).entries().remove(old(self).slots@[at as int].key@),
    {
        let ghost before = *self;
        let slot = self.slots.swap_remove(at);
        self.index.remove(slot.key.as_str());
        if at < self.slots.len() {
            let moved: String = self.slots[at].key.clone();
            self.index.insert(moved, at);
        }
        proof {
            let n = before.slots@.len() - 1;
            assert(slot == before.slots@[at as int]);
            assert(before.slots@[n].key@ == before.slots@.last().key@);
            assert forall|i: int| 0 <= i < self.slots@.len() implies self.index@.contains_key(
                (#[trigger] self.slots@[i]).key@,
            ) && self.index@[self.slots@[i].key@] == i by {
                if i == at {
                } else {
                    assert(self.slots@[i] == before.slots@[i]);
                }
            }
            assert forall|k: Seq<char>| #[trigger] self.index@.contains_key(k) implies self.index@[k]
                < self.slots@.len() && self.slots@[self.index@[k] as int].key@ == k by {
                if at < n && k == before.slots@[n].key@ {
                } else {
                    assert(before.index@.contains_key(k));
                    let i = before.index@[k] as int;
                    assert(before.slots@[i].key@ == k);
                }
            }
            assert(self.entries() =~= before.entries().remove(before.slots@[at as int].key@));
        }
    }

    /// Stores `entry` under `key`, in place of what was there.
    fn put(&mut self, key: String, entry: CacheEntry)
        requires
            old(self).wf(),
        ensures
            final(self).wf(),
            final(self).slots@.len() == old(self).slots@.len() + (if old(
                self,
            ).entries().contains_key(key@) {
                0int
            } else {
                1int
            }),
            final(self).entries() == old(self).entries().insert(key@, entry@),
    {
        let ghost before = *self;
        let place: Option<usize> = match self.index.get(key.as_str()) {
            Some(at) => Some(*at),
            None => None,
        };
        match place {
            Some(at) => {
                let ghost text = key@;
                self.slots.set(at, Slot { key, entry });
                proof {
                    assert(before.slots@[at as int].key@ == text);
                    assert forall|i: int| 0 <= i < self.slots@.len() implies (
                    #[trigger] self.slots@[i]).key@ == before.slots@[i].key@ by {}
                    assert forall|k: Seq<char>| #[trigger]
                        self.index@.contains_key(k) implies self.index@[k] < self.slots@.len()
                        && self.slots@[self.index@[k] as int].key@ == k by {
                        assert(before.slots@[before.index@[k] as int].key@ == k);
                    }
                    assert(self.entries() =~= before.entries().insert(text, entry@));
                }
            },
            None => {
                let ghost text = key@;
                let at: usize = self.slots.len();
                let copy: String = key.clone();
                self.slots.push(Slot { key, entry });
                self.index.insert(copy, at);
                proof {
                    assert forall|i: int|
                        0 <= i < self.slots@.len() implies self.index@.contains_key(
                        (#[trigger] self.slots@[i]).key@,
                    ) && self.index@[self.slots@[i].key@] == i by {
                        if i < at {
                            assert(self.slots@[i] == before.slots@[i]);
                        }
                    }
                    assert forall|k: Seq<char>| #[trigger]
                        self.index@.contains_key(k) implies self.index@[k] < self.slots@.len()
                        && self.slots@[self.index@[k] as int].key@ == k by {
                        if k != text {
                            assert(before.index@.contains_key(k));
                        }
                    }
                    assert(self.entries() =~= before.entries().insert(text, entry@));
                }
            },
        }
    }
}

/// The clock was read before an instant that it had already shown: the age of
/// an entry cannot be told.
#[derive(Clone, Copy, Debug, PartialEq, Eq, Structural)]
pub struct ClockWentBack;

/// The bytes behind an optional byte string.
pub open spec fn bytes_view(bytes: Option<Vec<u8>>) -> Option<Seq<u8>> {
    match bytes {
        Some(data) => Some(data@),
        None => None,
    }
}

/// A copy of a byte string.
pub(crate) fn copy_bytes(bytes: &Vec<u8>) -> (copy: Vec<u8>)
    ensures
        copy@ == bytes@,
{
    let copy: Vec<u8> = bytes.clone();
    assert(copy@ =~= bytes@);
    copy
}

/// A table of byte strings by key. An entry is served while it is younger than
/// the time to live; a write into a full table first evicts an oldest entry.
pub struct MemoryCache {
    table: Table,
    ttl: Duration,
    max_items: usize,
}

impl View for MemoryCache {
    type V = CacheView;

    closed spec fn view(&self) -> CacheView {
        CacheView {
            entries: self.table.entries(),
            ttl: self.ttl@,
            max_items: self.max_items as nat,
        }
    }
}

impl MemoryCache {
    #[verifier::type_invariant]
    spec fn inv(self) -> bool {
        &&& self.table.wf()
        &&& self.table.slots@.len() <= self.max_items || self.table.slots@.len() <= 1
    }

    /// An empty cache whose entries live for `ttl`, and which evicts from
    /// `max_items` entries on.
    pub fn new(ttl: Duration, max_items: usize) -> (cache: MemoryCache)
        ensures
            cache@ == (CacheView {
                entries: Map::<Seq<char>, EntryView>::empty(),
                ttl: ttl@,
                max_items: max_items as nat,
            }),
            cache@.is_bounded(),
    {
        let table = Table::new();
        proof {
            table.lemma_len();
        }
        MemoryCache { table, ttl, max_items }
    }

    /// The number of entries, expired ones included.
    pub fn len(&self) -> (len: usize)
        ensures
            len == self@.entries.len(),
            self@.is_bounded(),
    {
        proof {
            use_type_invariant(self);
            self.table.lemma_len();
        }
        self.table.slots.len()
    }

    /// Whether `key` was stored at an instant that lies after `now`.
    pub fn stored_after(&self, key: &str, now: Timestamp) -> (after: bool)
        ensures
            after == self@.stored_after(key@, now@),
    {
        proof {
            use_type_invariant(self);
        }
        match self.table.find(key) {
            Some(entry) => now.is_before(&entry.timestamp),
            None => false,
        }
    }

    /// The bytes stored under `key`, unless they have expired at the instant
    /// `now`.
    pub fn get_at(&self, key: &str, now: Timestamp) -> (found: Option<Vec<u8>>)
        requires
            !self@.stored_after(key@, now@),
        ensures
            bytes_view(found) == self@.lookup(key@, now@),
    {
        proof {
            use_type_invariant(self);
        }
        match self.table.find(key) {
            Some(entry) => {
                if entry.timestamp.is_within(&self.ttl, &now) {
                    Some(copy_bytes(&entry.data))
                } else {
                    None
                }
            },
            None => None,
        }
    }

    /// The bytes stored under `key`, unless they have expired by now. Fails
    /// where the clock reads earlier than when they were stored.
    pub fn get(&self, key: &str) -> (found: Result<Option<Vec<u8>>, ClockWentBack>)
        ensures
            exists|now: Timestamp|
                call_ensures(Timestamp::now_in::<MemoryCache>, (self,), now)
                    && now.distance.nanos < 1_000_000_000 && #[trigger] self.read_at(
                    key@,
                    now@,
                    found,
                ),
            !self@.entries.contains_key(key@) ==> found == Ok::<Option<Vec<u8>>, ClockWentBack>(
                None,
            ),
    {
        let now: Timestamp = Timestamp::now_in(self);
        let found = if self.stored_after(key, now) {
            Err(ClockWentBack)
        } else {
            Ok(self.get_at(key, now))
        };
        assert(self.read_at(key@, now@, found));
        found
    }

    /// Whether `found` is what a read of `key` gives when the clock shows `now`.
    pub open spec fn read_at(
        &self,
        key: Seq<char>,
        now: int,
        found: Result<Option<Vec<u8>>, ClockWentBack>,
    ) -> bool {
        match found {
            Ok(bytes) => !self@.stored_after(key, now) && bytes_view(bytes) == self@.lookup(
                key,
                now,
            ),
            Err(_) => self@.stored_after(key, now),
        }
    }

    /// Stores `value` under `key` as of the instant `now`, after evicting an
    /// oldest entry if the cache is full.
    pub fn set_at(&mut self, key: String, value: Vec<u8>, now: Timestamp)
        ensures
            old(self)@.may_become(key@, value@, now@, final(self)@),
            final(self)@.is_bounded(),
    {
        proof {
            use_type_invariant(&*self);
            self.table.lemma_len();
        }
        let ghost before = self@;
        let ghost name = key@;
        let ghost data = value@;
        let mut table = Table::new();
        std::mem::swap(&mut table, &mut self.table);
        if table.slots.len() >= self.max_items && table.slots.len() > 0 {
            let at: usize = table.oldest();
            let ghost victim = table.slots@[at as int].key@;
            proof {
                assert(before.is_oldest(victim)) by {
                    assert forall|other: Seq<char>| #[trigger]
                        before.entries.contains_key(other) implies before.entries[victim].timestamp
                        <= before.entries[other].timestamp by {
                        assert(table.index@.contains_key(other));
                        assert(table.slots@[table.index@[other] as int].key@ == other);
                    }
                }
            }
            table.take(at);
            table.put(key, CacheEntry { data: value, timestamp: now });
            self.table = table;
            proof {
                self.table.lemma_len();
                assert(self@ =~= before.without(victim).with(name, data, now@));
            }
        } else {
            table.put(key, CacheEntry { data: value, timestamp: now });
            self.table = table;
            proof {
                self.table.lemma_len();
                assert(self@ =~= before.with(name, data, now@));
            }
        }
    }

    /// Stores `value` under `key` as of now, after evicting an oldest entry if
    /// the cache is full.
    pub fn set(&mut self, key: String, value: Vec<u8>)
        ensures
            exists|now: Timestamp|
                call_ensures(Timestamp::now_in::<MemoryCache>, (&*old(self),), now)
                    && now.distance.nanos < 1_000_000_000 && #[trigger] old(self)@.may_become(
                    key@,
                    value@,
                    now@,
                    final(self)@,
                ),
            final(self)@.is_bounded(),
    {
        let now: Timestamp = Timestamp::now_in(&*self);
        self.set_at(key, value, now);
    }

    /// Forgets what is stored under `key`.
    pub fn remove(&mut self, key: &str)
        ensures
            final(self)@ == old(self)@.without(key@),
            final(self)@.is_bounded(),
    {
        proof {
            use_type_invariant(&*self);
            self.table.lemma_len();
        }
        let ghost before = self@;
        let mut table = Table::new();
        std::mem::swap(&mut table, &mut self.table);
        let place: Option<usize> = match table.index.get(key) {
            Some(at) => Some(*at),
            None => None,
        };
        match place {
            Some(at) => {
                table.take(at);
            },
            None => {
                assert(table.entries() =~= table.entries().remove(key@));
            },
        }
        self.table = table;
        proof {
            self.table.lemma_len();
            assert(self@ =~= before.without(key@));
        }
    }
}

/// What was written is read back while it is younger than the time to live,
/// and not any longer.
pub proof fn law_read_after_write(
    before: CacheView,
    after: CacheView,
    key: Seq<char>,
    data: Seq<u8>,
    stored: int,
    now: int,
)
    requires
        before.may_become(key, data, stored, after),
    ensures
        after.lookup(key, now) == (if now - stored < before.ttl {
            Some(data)
        } else {
            None
        }),
{
}

/// A write with room to spare leaves every other key as it was.
pub proof fn law_write_with_room_keeps_others(
    before: CacheView,
    after: CacheView,
    key: Seq<char>,
    data: Seq<u8>,
    stored: int,
    other: Seq<char>,
    now: int,
)
    requires
        before.may_become(key, data, stored, after),
        !before.is_full(),
        other != key,
    ensures
        after.entries.contains_key(other) == before.entries.contains_key(other),
        after.lookup(other, now) == before.lookup(other, now),
{
}

/// A write costs at most one other key, and only a full cache loses one: the
/// one that goes is an oldest one, and every other key stays as it was.
pub proof fn law_write_evicts_one_oldest(
    before: CacheView,
    after: CacheView,
    key: Seq<char>,
    data: Seq<u8>,
    stored: int,
    lost: Seq<char>,
    other: Seq<char>,
)
    requires
        before.may_become(key, data, stored, after),
        before.entries.contains_key(lost),
        !after.entries.contains_key(lost),
        other != lost,
        other != key,
    ensures
        before.is_full(),
        before.is_oldest(lost),
        lost != key,
        after.entries.contains_key(other) == before.entries.contains_key(other),
        before.entries.contains_key(other) ==> after.entries[other] == before.entries[other],
{
}

/// A full cache that gets a key it does not hold gives up exactly one entry, so
/// its size stays the same.
pub proof fn law_full_cache_keeps_its_size(
    before: CacheView,
    after: CacheView,
    key: Seq<char>,
    data: Seq<u8>,
    stored: int,
)
    requires
        before.entries.dom().finite(),
        before.may_become(key, data, stored, after),
        before.is_full(),
        before.entries.len() > 0,
        !before.entries.contains_key(key),
    ensures
        after.entries.len() == before.entries.len(),
{
    let victim = choose|victim: Seq<char>| #[trigger]
        before.is_oldest(victim) && after == before.without(victim).with(key, data, stored);
    assert(after.entries.dom() =~= before.entries.dom().remove(victim).insert(key));
}

/// No write takes the cache over its size.
pub proof fn law_writes_keep_the_bound(
    before: CacheView,
    after: CacheView,
    key: Seq<char>,
    data: Seq<u8>,
    stored: int,
)
    requires
        before.is_bounded(),
        before.may_become(key, data, stored, after),
    ensures
        after.is_bounded(),
{
    if before.is_full() && before.entries.len() > 0 {
        let victim = choose|victim: Seq<char>| #[trigger]
            before.is_oldest(victim) && after == before.without(victim).with(key, data, stored);
        assert(after.entries.dom() =~= before.entries.dom().remove(victim).insert(key));
    } else {
        assert(after.entries.dom() =~= before.entries.dom().insert(key));
    }
}

/// A removed key is not found, whatever the clock shows, and every other key
/// is found as before.
pub proof fn law_removed_key_is_gone(cache: CacheView, key: Seq<char>, other: Seq<char>, now: int)
    ensures
        cache.without(key).lookup(key, now) is None,
        other != key ==> cache.without(key).lookup(other, now) == cache.lookup(other, now),
{
}

/// A key that is not found is not found later either, until it is written.
pub proof fn law_expiry_is_final(cache: CacheView, key: Seq<char>, now: int, later: int)
    requires
        cache.lookup(key, now) is None,
        now <= later,
    ensures
        cache.lookup(key, later) is None,
{
}

/// A write leaves its bytes and its instant under its key, and does not touch the
/// limits of the cache.
pub proof fn law_writes_store_their_bytes(
    before: CacheView,
    after: CacheView,
    key: Seq<char>,
    data: Seq<u8>,
    stored: int,
)
    requires
        before.may_become(key, data, stored, after),
    ensures
        after.entries.contains_key(key),
        after.entries[key].data == data,
        after.entries[key].timestamp == stored,
        after.ttl == before.ttl,
        after.max_items == before.max_items,
{
}

/// A write only ever loses a key of a cache that has reached its size, and one
/// that was stored no later than any other.
pub proof fn law_writes_lose_only_the_oldest(
    before: CacheView,
    after: CacheView,
    key: Seq<char>,
    data: Seq<u8>,
    stored: int,
    lost: Seq<char>,
    other: Seq<char>,
)
    requires
        before.may_become(key, data, stored, after),
        before.entries.contains_key(lost),
        before.entries.contains_key(other),
        !after.entries.contains_key(lost),
    ensures
        before.entries.len() >= before.max_items,
        before.entries[lost].timestamp <= before.entries[other].timestamp,
        lost != key,
{
}

/// A write loses one key at most.
pub proof fn law_writes_lose_one_key_at_most(
    before: CacheView,
    after: CacheView,
    key: Seq<char>,
    data: Seq<u8>,
    stored: int,
    lost: Seq<char>,
    other: Seq<char>,
)
    requires
        before.may_become(key, data, stored, after),
        before.entries.contains_key(lost),
        before.entries.contains_key(other),
        !after.entries.contains_key(lost),
        !after.entries.contains_key(other),
    ensures
        lost == other,
{
}

/// What is under another key after a write was there before it, byte for byte and
/// as of the same instant.
pub proof fn law_writes_bring_nothing_else(
    before: CacheView,
    after: CacheView,
    key: Seq<char>,
    data: Seq<u8>,
    stored: int,
    other: Seq<char>,
)
    requires
        before.may_become(key, data, stored, after),
        after.entries.contains_key(other),
        other != key,
    ensures
        before.entries.contains_key(other),
        after.entries[other].data == before.entries[other].data,
        after.entries[other].timestamp == before.entries[other].timestamp,
{
}

/// A write into a cache that has reached its size takes out an entry stored no
/// later than any other; only where that is the entry of its own key does every
/// other key stay.
pub proof fn law_writes_make_room_in_a_full_cache(
    before: CacheView,
    after: CacheView,
    key: Seq<char>,
    data: Seq<u8>,
    stored: int,
)
    requires
        before.may_become(key, data, stored, after),
        before.entries.len() >= before.max_items,
        before.entries.len() > 0,
    ensures
        exists|victim: Seq<char>| #[trigger]
            before.entries.contains_key(victim) && (victim == key || !after.entries.contains_key(
                victim,
            )) && forall|other: Seq<char>| #[trigger]
                before.entries.contains_key(other) ==> before.entries[victim].timestamp
                    <= before.entries[other].timestamp,
{
    let victim = choose|victim: Seq<char>| #[trigger]
        before.is_oldest(victim) && after == before.without(victim).with(key, data, stored);
    assert(before.entries.contains_key(victim));
}

/// `set_at` stores the bytes as of its instant, brings nothing else in, and loses
/// at most one key: where the cache has reached its size, and one that was stored
/// no later than any other.
pub proof fn law_set_at_evicts_the_oldest(
    cache: &mut MemoryCache,
    key: String,
    value: Vec<u8>,
    now: Timestamp,
)
    requires
        call_ensures(MemoryCache::set_at, (cache, key, value, now), ()),
    ensures
        final(cache)@.entries.contains_key(key@),
        final(cache)@.entries[key@].data == value@,
        final(cache)@.entries[key@].timestamp == now@,
        final(cache)@.ttl == old(cache)@.ttl,
        final(cache)@.max_items == old(cache)@.max_items,
        final(cache)@.entries.len() <= old(cache)@.max_items || final(cache)@.entries.len() <= 1,
        forall|other: Seq<char>|
            other != key@ && #[trigger] final(cache)@.entries.contains_key(other) ==> old(cache)@.entries.contains_key(other) && final(cache)@.entries[other] == old(cache)@.entries[other],
        forall|lost: Seq<char>, other: Seq<char>|
            #![trigger old(cache)@.entries.contains_key(lost), old(cache)@.entries.contains_key(other)]
            old(cache)@.entries.contains_key(lost) && !final(cache)@.entries.contains_key(lost)
                && old(cache)@.entries.contains_key(other) ==> old(cache)@.entries.len() >= old(cache)@.max_items && old(cache)@.entries[lost].timestamp <= old(cache)@.entries[other].timestamp && (final(cache)@.entries.contains_key(other) || other
                == lost),
{
}

/// `get_at` gives the stored bytes if and only if less than the time to live has
/// passed since they were stored.
pub proof fn law_get_at_serves_until_the_time_to_live(
    cache: &MemoryCache,
    key: &str,
    now: Timestamp,
    found: Option<Vec<u8>>,
)
    requires
        call_ensures(MemoryCache::get_at, (cache, key, now), found),
    ensures
        found is Some <==> cache@.entries.contains_key(key@) && now@
            - cache@.entries[key@].timestamp < cache@.ttl,
        found matches Some(data) ==> data@ == cache@.entries[key@].data,
{
}

/// A key is stored after an instant if and only if its own instant is later.
pub proof fn law_stored_after_compares_instants(
    cache: &MemoryCache,
    key: &str,
    now: Timestamp,
    after: bool,
)
    requires
        call_ensures(MemoryCache::stored_after, (cache, key, now), after),
    ensures
        after <==> cache@.entries.contains_key(key@) && now@ < cache@.entries[key@].timestamp,
{
}

/// `get` judges the age of an entry by an instant that the clock gave for this very
/// cache: what has expired by then is not served, what has not is.
pub proof fn law_get_goes_by_the_clock(
    cache: &MemoryCache,
    key: &str,
    found: Result<Option<Vec<u8>>, ClockWentBack>,
)
    requires
        call_ensures(MemoryCache::get, (cache, key), found),
    ensures
        exists|now: Timestamp|
            call_ensures(Timestamp::now, (), now) && #[trigger] call_ensures(
                Timestamp::now_in::<MemoryCache>,
                (cache,),
                now,
            ) && (match found {
                Ok(Some(data)) => {
                    &&& cache@.entries.contains_key(key@)
                    &&& cache@.entries[key@].timestamp <= now@
                    &&& now@ - cache@.entries[key@].timestamp < cache@.ttl
                    &&& data@ == cache@.entries[key@].data
                },
                Ok(None) => cache@.entries.contains_key(key@) ==> cache@.entries[key@].timestamp
                    <= now@ && now@ - cache@.entries[key@].timestamp >= cache@.ttl,
                Err(_) => cache@.entries.contains_key(key@) && now@
                    < cache@.entries[key@].timestamp,
            }),
{
    let now = choose|now: Timestamp|
        call_ensures(Timestamp::now_in::<MemoryCache>, (cache,), now) && now.distance.nanos
            < 1_000_000_000 && #[trigger] cache.read_at(key@, now@, found);
    assert(call_ensures(Timestamp::now_in::<MemoryCache>, (cache,), now));
}

/// `set` stores the bytes as of an instant that the clock gave for the cache as it
/// was.
pub proof fn law_set_goes_by_the_clock(cache: &mut MemoryCache, key: String, value: Vec<u8>)
    requires
        call_ensures(MemoryCache::set, (cache, key, value), ()),
    ensures
        final(cache)@.entries.contains_key(key@),
        final(cache)@.entries[key@].data == value@,
        exists|now: Timestamp|
            call_ensures(Timestamp::now, (), now) && #[trigger] call_ensures(
                Timestamp::now_in::<MemoryCache>,
                (&*old(cache),),
                now,
            ) && final(cache)@.entries[key@].timestamp == now@ && old(cache)@.may_become(key@, value@, now@, final(cache)@),
{
    let now = choose|now: Timestamp|
        call_ensures(Timestamp::now_in::<MemoryCache>, (&*old(cache),), now) && now.distance.nanos
            < 1_000_000_000 && #[trigger] old(cache)@.may_become(
            key@,
            value@,
            now@,
            final(cache)@,
        );
    assert(call_ensures(Timestamp::now_in::<MemoryCache>, (&*old(cache),), now));
}

/// `remove` takes out its key and leaves every other one as it was.
pub proof fn law_remove_takes_out_one_key(cache: &mut MemoryCache, key: &str)
    requires
        call_ensures(MemoryCache::remove, (cache, key), ()),
    ensures
        !final(cache)@.entries.contains_key(key@),
        forall|other: Seq<char>|
            other != key@ ==> final(cache)@.entries.contains_key(other) == #[trigger] old(cache)@.entries.contains_key(other),
        forall|other: Seq<char>|
            other != key@ && #[trigger] old(cache)@.entries.contains_key(other) ==> final(cache)@.entries[other] == old(cache)@.entries[other],
        final(cache)@.ttl == old(cache)@.ttl,
        final(cache)@.max_items == old(cache)@.max_items,
{
}

} // verus!
