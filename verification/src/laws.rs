//! What holds of the tiers together.
use crate::database::Statement;
use crate::error::CacheErrorView;
use crate::http::{bare, change_response, read_response, ResponseView};
use crate::memory::{law_read_after_write, CacheView};
use crate::redis_pool::set_ex_words;
use crate::service::{
    change_outcome, fetch_fill, fetch_outcome, read_outcome, CacheService, SetStep,
};
use vstd::prelude::*;

verus! {

/// Whether a reply of Redis does not contradict that `value` is stored: it has
/// that value, or it has lost it, or it fails.
pub open spec fn does_not_contradict(
    reply: Result<Option<Seq<u8>>, Seq<char>>,
    value: Seq<u8>,
) -> bool {
    reply matches Ok(Some(data)) ==> data == value
}

/// A read after a write answers with what was written, at any later instant,
/// whether memory still has it, Redis has it, or only the database.
pub proof fn law_service_reads_what_was_written(
    before: CacheView,
    after: CacheView,
    key: Seq<char>,
    value: Seq<u8>,
    stored: int,
    now: int,
    redis: Result<Option<Seq<u8>>, Seq<char>>,
    database: Result<Option<Seq<u8>>, Seq<char>>,
)
    requires
        before.may_become(key, value, stored, after),
        does_not_contradict(redis, value),
        database == Ok::<Option<Seq<u8>>, Seq<char>>(Some(value)),
    ensures
        read_outcome(after, key, now, redis, database) == Ok::<Seq<u8>, CacheErrorView>(value),
        read_response(read_outcome(after, key, now, redis, database)) == (ResponseView {
            status: 200,
            body: value,
        }),
{
    law_read_after_write(before, after, key, value, stored, now);
}

/// Within the time to live, a read after a write answers with what was written,
/// whatever the stores reply and whether or not they took the write.
pub proof fn law_fresh_writes_are_read_from_memory(
    before: CacheView,
    after: CacheView,
    key: Seq<char>,
    value: Seq<u8>,
    stored: int,
    now: int,
    redis: Result<Option<Seq<u8>>, Seq<char>>,
    database: Result<Option<Seq<u8>>, Seq<char>>,
)
    requires
        before.may_become(key, value, stored, after),
        now - stored < before.ttl,
    ensures
        read_outcome(after, key, now, redis, database) == Ok::<Seq<u8>, CacheErrorView>(value),
{
    law_read_after_write(before, after, key, value, stored, now);
}

/// A read of a key that no tier has is refused with the key, and answered with
/// a bare `404`; so it is after a delete.
pub proof fn law_deleted_key_is_not_found(
    before: CacheView,
    key: Seq<char>,
    now: int,
    redis: Result<Option<Seq<u8>>, Seq<char>>,
    database: Result<Option<Seq<u8>>, Seq<char>>,
)
    requires
        redis matches Ok(found) ==> found is None,
        database == Ok::<Option<Seq<u8>>, Seq<char>>(None),
    ensures
        read_outcome(before.without(key), key, now, redis, database) == Err::<
            Seq<u8>,
            CacheErrorView,
        >(CacheErrorView::NotFound(key)),
        read_response(read_outcome(before.without(key), key, now, redis, database)) == bare(404),
{
}

/// A failure of Redis never shows in the answer to a read: it is the answer of
/// a Redis that has nothing.
pub proof fn law_redis_failure_is_hidden_from_reads(
    memory: CacheView,
    key: Seq<char>,
    now: int,
    failure: Seq<char>,
    database: Result<Option<Seq<u8>>, Seq<char>>,
    ttl: u64,
)
    ensures
        read_outcome(memory, key, now, Err(failure), database) == read_outcome(
            memory,
            key,
            now,
            Ok(None),
            database,
        ),
        fetch_fill(key, Err(failure), database, ttl) == fetch_fill(key, Ok(None), database, ttl),
        read_outcome(memory, key, now, Err(failure), database) matches Err(e) ==> !(e is Redis),
{
}

/// A read that asks the stores stores what it answers with, and stores nothing
/// where it fails; once that is in memory, the next read within the time to
/// live has it from there.
pub proof fn law_reads_fill_the_tiers_above(
    before: CacheView,
    after: CacheView,
    key: Seq<char>,
    stored: int,
    now: int,
    redis: Result<Option<Seq<u8>>, Seq<char>>,
    database: Result<Option<Seq<u8>>, Seq<char>>,
    ttl: u64,
)
    ensures
        match fetch_outcome(key, redis, database) {
            Ok(data) => {
                &&& fetch_fill(key, redis, database, ttl) matches Some(fill)
                &&& fill.key == key
                &&& fill.data == data
                &&& redis == Ok::<Option<Seq<u8>>, Seq<char>>(Some(data)) ==> fill.redis is None
                &&& !(redis matches Ok(Some(_))) ==> fill.redis == Some(
                    set_ex_words(key, data, ttl),
                )
                &&& before.may_become(fill.key, fill.data, stored, after) && now - stored
                    < before.ttl ==> after.lookup(key, now) == Some(data)
            },
            Err(_) => fetch_fill(key, redis, database, ttl) is None,
        },
{
}

/// A change succeeds if and only if both stores take it, and is answered `200`
/// then and `500` otherwise, never with a body.
pub proof fn law_changes_need_both_stores(
    database: Result<(), Seq<char>>,
    redis: Result<(), Seq<char>>,
)
    ensures
        change_outcome(database, redis) is Ok <==> database is Ok && redis is Ok,
        change_response(change_outcome(database, redis)) == bare(
            if database is Ok && redis is Ok {
                200
            } else {
                500
            },
        ),
{
}

/// What the three tiers hold; the maps are what the two stores have under each
/// key.
pub struct Tiers {
    pub memory: CacheView,
    pub redis: Map<Seq<char>, Seq<u8>>,
    pub database: Map<Seq<char>, Seq<u8>>,
}

impl Tiers {
    /// Whether the upper tiers hold nothing under `key` but what the database
    /// holds.
    pub open spec fn agree_on(self, key: Seq<char>) -> bool {
        &&& self.memory.entries.contains_key(key) ==> self.database.contains_key(key)
            && self.memory.entries[key].data == self.database[key]
        &&& self.redis.contains_key(key) ==> self.database.contains_key(key) && self.redis[key]
            == self.database[key]
    }

    /// What a store that holds `map` replies to a read of `key`.
    pub open spec fn reply(map: Map<Seq<char>, Seq<u8>>, key: Seq<char>) -> Result<
        Option<Seq<u8>>,
        Seq<char>,
    > {
        if map.contains_key(key) {
            Ok(Some(map[key]))
        } else {
            Ok(None)
        }
    }

    /// The answer to a read of `key` at the instant `now`.
    pub open spec fn read(self, key: Seq<char>, now: int) -> Result<Seq<u8>, CacheErrorView> {
        read_outcome(
            self.memory,
            key,
            now,
            Tiers::reply(self.redis, key),
            Tiers::reply(self.database, key),
        )
    }

    /// Whether `after` may be what a write of `value` under `key` leaves, where
    /// each of the two stores may take it or not and memory may not have it yet.
    pub open spec fn write_may_leave(
        self,
        key: Seq<char>,
        value: Seq<u8>,
        now: int,
        after: Tiers,
    ) -> bool {
        &&& self.memory.may_become(key, value, now, after.memory) || after.memory == self.memory
        &&& after.redis == self.redis.insert(key, value) || after.redis == self.redis
        &&& after.database == self.database.insert(key, value) || after.database == self.database
    }

    /// Whether `after` may be what a write of `value` under `key` leaves, where
    /// both stores take it.
    pub open spec fn write_leaves(
        self,
        key: Seq<char>,
        value: Seq<u8>,
        now: int,
        after: Tiers,
    ) -> bool {
        &&& self.memory.may_become(key, value, now, after.memory)
        &&& after.redis == self.redis.insert(key, value)
        &&& after.database == self.database.insert(key, value)
    }

    /// What a delete of `key` leaves, where both stores take it.
    pub open spec fn deleted(self, key: Seq<char>) -> Tiers {
        Tiers {
            memory: self.memory.without(key),
            redis: self.redis.remove(key),
            database: self.database.remove(key),
        }
    }

    /// Whether `after` may be what a delete of `key` leaves, where it may end
    /// before it has come to every tier.
    pub open spec fn delete_may_leave(self, key: Seq<char>, after: Tiers) -> bool {
        &&& after.memory == self.memory.without(key) || after.memory == self.memory
        &&& after.redis == self.redis.remove(key) || after.redis == self.redis
        &&& after.database == self.database.remove(key) || after.database == self.database
    }

    /// Whether `after` may be what a read of `key` leaves that stores what it
    /// found, in memory at the instant `now`, where Redis may take it or not and
    /// memory may not have it yet.
    pub open spec fn read_may_leave(self, key: Seq<char>, ttl: u64, now: int, after: Tiers) -> bool {
        &&& fetch_fill(
            key,
            Tiers::reply(self.redis, key),
            Tiers::reply(self.database, key),
            ttl,
        ) matches Some(fill)
        &&& self.memory.may_become(fill.key, fill.data, now, after.memory) || after.memory
            == self.memory
        &&& after.redis == self.redis || (fill.redis is Some && after.redis == self.redis.insert(
            fill.key,
            fill.data,
        ))
        &&& after.database == self.database
    }

    /// Whether `after` may be left where memory and Redis lose entries, by
    /// eviction or expiry, and nothing else happens.
    pub open spec fn loss_may_leave(self, after: Tiers) -> bool {
        &&& after.memory.entries.submap_of(self.memory.entries)
        &&& after.memory.ttl == self.memory.ttl
        &&& after.memory.max_items == self.memory.max_items
        &&& after.redis.submap_of(self.redis)
        &&& after.database == self.database
    }

    /// Whether `self` may come after `before` by one step that neither writes
    /// nor deletes `key`: a loss, a read of any key, or a write or delete of
    /// another one, whether or not the stores take it.
    pub open spec fn follows(self, before: Tiers, key: Seq<char>) -> bool {
        ||| before.loss_may_leave(self)
        ||| exists|read: Seq<char>, ttl: u64, now: int| #[trigger]
            before.read_may_leave(read, ttl, now, self)
        ||| exists|other: Seq<char>, value: Seq<u8>, now: int|
            other != key && #[trigger] before.write_may_leave(other, value, now, self)
        ||| exists|other: Seq<char>| other != key && #[trigger] before.delete_may_leave(other, self)
    }
}

/// Where the tiers agree on a key, a read of it answers with what the database
/// holds, and with a refusal if and only if it holds nothing.
pub proof fn law_reads_show_the_database(tiers: Tiers, key: Seq<char>, now: int)
    requires
        tiers.agree_on(key),
    ensures
        tiers.read(key, now) == (if tiers.database.contains_key(key) {
            Ok::<Seq<u8>, CacheErrorView>(tiers.database[key])
        } else {
            Err(CacheErrorView::NotFound(key))
        }),
{
}

/// A write that both stores take makes the tiers agree on its key, whatever they
/// held before.
pub proof fn law_writes_bring_agreement(
    before: Tiers,
    after: Tiers,
    key: Seq<char>,
    value: Seq<u8>,
    now: int,
)
    requires
        before.write_leaves(key, value, now, after),
    ensures
        after.agree_on(key),
        after.database.contains_key(key),
        after.database[key] == value,
{
    lemma_memory_after_write(before.memory, after.memory, key, value, now);
}

/// A write leaves the tiers in agreement on every other key, whether or not the
/// stores take it.
pub proof fn law_writes_keep_agreement_on_others(
    before: Tiers,
    after: Tiers,
    key: Seq<char>,
    value: Seq<u8>,
    now: int,
    other: Seq<char>,
)
    requires
        before.write_may_leave(key, value, now, after),
        before.agree_on(other),
        other != key,
    ensures
        after.agree_on(other),
        Tiers::reply(after.database, other) == Tiers::reply(before.database, other),
{
    if after.memory != before.memory {
        lemma_memory_after_write(before.memory, after.memory, key, value, now);
    }
}

/// A delete that both stores take makes the tiers agree on its key, under which
/// nothing is left.
pub proof fn law_deletes_bring_agreement(before: Tiers, key: Seq<char>)
    ensures
        before.deleted(key).agree_on(key),
        !before.deleted(key).database.contains_key(key),
{
}

/// A delete leaves the tiers in agreement on every other key, whether or not the
/// stores take it.
pub proof fn law_deletes_keep_agreement_on_others(
    before: Tiers,
    after: Tiers,
    key: Seq<char>,
    other: Seq<char>,
)
    requires
        before.delete_may_leave(key, after),
        before.agree_on(other),
        other != key,
    ensures
        after.agree_on(other),
        Tiers::reply(after.database, other) == Tiers::reply(before.database, other),
{
}

/// What a read stores leaves the tiers in agreement on every key on which they
/// agreed, its own included, and the database as it was.
pub proof fn law_reads_keep_agreement(
    before: Tiers,
    after: Tiers,
    read: Seq<char>,
    ttl: u64,
    now: int,
    key: Seq<char>,
)
    requires
        before.read_may_leave(read, ttl, now, after),
        before.agree_on(key),
    ensures
        after.agree_on(key),
        after.database == before.database,
{
    let fill = fetch_fill(
        read,
        Tiers::reply(before.redis, read),
        Tiers::reply(before.database, read),
        ttl,
    )->Some_0;
    if after.memory != before.memory {
        lemma_memory_after_write(before.memory, after.memory, fill.key, fill.data, now);
    }
}

/// Losing entries in memory or Redis leaves the tiers in agreement.
pub proof fn law_losses_keep_agreement(before: Tiers, after: Tiers, key: Seq<char>)
    requires
        before.loss_may_leave(after),
        before.agree_on(key),
    ensures
        after.agree_on(key),
        after.database == before.database,
{
}

/// No step but a write or a delete of a key disturbs the agreement on it, or
/// changes what the database holds under it.
pub proof fn law_other_steps_keep_agreement(before: Tiers, after: Tiers, key: Seq<char>)
    requires
        after.follows(before, key),
        before.agree_on(key),
    ensures
        after.agree_on(key),
        Tiers::reply(after.database, key) == Tiers::reply(before.database, key),
{
    if before.loss_may_leave(after) {
        law_losses_keep_agreement(before, after, key);
    } else if exists|read: Seq<char>, ttl: u64, now: int| #[trigger]
        before.read_may_leave(read, ttl, now, after) {
        let (read, ttl, now) = choose|read: Seq<char>, ttl: u64, now: int| #[trigger]
            before.read_may_leave(read, ttl, now, after);
        law_reads_keep_agreement(before, after, read, ttl, now, key);
    } else if exists|other: Seq<char>, value: Seq<u8>, now: int|
        other != key && #[trigger] before.write_may_leave(other, value, now, after) {
        let (other, value, now) = choose|other: Seq<char>, value: Seq<u8>, now: int|
            other != key && #[trigger] before.write_may_leave(other, value, now, after);
        law_writes_keep_agreement_on_others(before, after, other, value, now, key);
    } else {
        let other = choose|other: Seq<char>|
            other != key && #[trigger] before.delete_may_leave(other, after);
        law_deletes_keep_agreement_on_others(before, after, other, key);
    }
}

/// Whether each of `states` follows on the one before it by a step that neither
/// writes nor deletes `key`.
pub open spec fn spared(states: Seq<Tiers>, key: Seq<char>) -> bool {
    forall|i: int| 1 <= i < states.len() ==> (#[trigger] states[i]).follows(states[i - 1], key)
}

/// However many steps come after a write that both stores took, as long as none
/// of them writes or deletes its key, a read answers with what was written.
pub proof fn law_reads_show_the_last_write(
    before: Tiers,
    states: Seq<Tiers>,
    key: Seq<char>,
    value: Seq<u8>,
    stored: int,
    now: int,
)
    requires
        states.len() > 0,
        before.write_leaves(key, value, stored, states[0]),
        spared(states, key),
    ensures
        states.last().read(key, now) == Ok::<Seq<u8>, CacheErrorView>(value),
        read_response(states.last().read(key, now)) == (ResponseView { status: 200, body: value }),
{
    law_writes_bring_agreement(before, states[0], key, value, stored);
    lemma_agreement_lasts(states, key);
    law_reads_show_the_database(states.last(), key, now);
    assert(Tiers::reply(states[0].database, key) == Ok::<Option<Seq<u8>>, Seq<char>>(Some(value)));
}

/// Whether each of `states` follows on the one before it by a step that does not
/// write `key`; it may delete it again, whether or not the stores take that.
pub open spec fn unwritten(states: Seq<Tiers>, key: Seq<char>) -> bool {
    forall|i: int|
        1 <= i < states.len() ==> (#[trigger] states[i]).follows(states[i - 1], key)
            || states[i - 1].delete_may_leave(key, states[i])
}

/// However many steps come after a delete that both stores took, as long as none
/// of them writes its key, a read is refused and answered `404`.
pub proof fn law_reads_refuse_what_was_deleted(
    before: Tiers,
    states: Seq<Tiers>,
    key: Seq<char>,
    now: int,
)
    requires
        states.len() > 0,
        states[0] == before.deleted(key),
        unwritten(states, key),
    ensures
        states.last().read(key, now) == Err::<Seq<u8>, CacheErrorView>(
            CacheErrorView::NotFound(key),
        ),
        read_response(states.last().read(key, now)) == bare(404),
{
    law_deletes_bring_agreement(before, key);
    lemma_absence_lasts(states, key);
    law_reads_show_the_database(states.last(), key, now);
}

proof fn lemma_absence_lasts(states: Seq<Tiers>, key: Seq<char>)
    requires
        states.len() > 0,
        states[0].agree_on(key),
        !states[0].database.contains_key(key),
        unwritten(states, key),
    ensures
        states.last().agree_on(key),
        !states.last().database.contains_key(key),
    decreases states.len(),
{
    if states.len() > 1 {
        let rest = states.drop_last();
        assert forall|i: int| 1 <= i < rest.len() implies (#[trigger] rest[i]).follows(
            rest[i - 1],
            key,
        ) || rest[i - 1].delete_may_leave(key, rest[i]) by {
            assert(states[i].follows(states[i - 1], key) || states[i - 1].delete_may_leave(
                key,
                states[i],
            ));
        }
        lemma_absence_lasts(rest, key);
        let n = states.len() - 1;
        assert(states[n].follows(states[n - 1], key) || states[n - 1].delete_may_leave(
            key,
            states[n],
        ));
        if states[n].follows(states[n - 1], key) {
            law_other_steps_keep_agreement(states[n - 1], states[n], key);
        }
    }
}

proof fn lemma_agreement_lasts(states: Seq<Tiers>, key: Seq<char>)
    requires
        states.len() > 0,
        states[0].agree_on(key),
        spared(states, key),
    ensures
        states.last().agree_on(key),
        Tiers::reply(states.last().database, key) == Tiers::reply(states[0].database, key),
    decreases states.len(),
{
    if states.len() > 1 {
        let rest = states.drop_last();
        assert forall|i: int| 1 <= i < rest.len() implies (#[trigger] rest[i]).follows(
            rest[i - 1],
            key,
        ) by {
            assert(states[i].follows(states[i - 1], key));
        }
        lemma_agreement_lasts(rest, key);
        let n = states.len() - 1;
        assert(states[n].follows(states[n - 1], key));
        law_other_steps_keep_agreement(states[n - 1], states[n], key);
    }
}

/// After a write, memory holds the new value, and of other keys nothing new.
proof fn lemma_memory_after_write(
    before: CacheView,
    after: CacheView,
    key: Seq<char>,
    value: Seq<u8>,
    now: int,
)
    requires
        before.may_become(key, value, now, after),
    ensures
        after.entries.contains_key(key),
        after.entries[key].data == value,
        forall|k: Seq<char>| #[trigger]
            after.entries.contains_key(k) && k != key ==> before.entries.contains_key(k)
                && after.entries[k] == before.entries[k],
{
}

/// What a database that holds `rows` holds once it has run `statement`, whose
/// parameters are a key and, in a write, the bytes for it.
pub open spec fn rows_after(
    statement: Statement,
    rows: Map<Seq<char>, Seq<u8>>,
) -> Map<Seq<char>, Seq<u8>> {
    if statement.sql@ == "DELETE FROM cached_data WHERE key = $1"@ {
        rows.remove(statement.key@)
    } else if statement.sql@ == "INSERT INTO cached_data (key, data) VALUES ($1, $2) 
                 ON CONFLICT (key) DO UPDATE SET data = EXCLUDED.data"@ && statement.data is Some {
        rows.insert(statement.key@, statement.data->Some_0@)
    } else {
        rows
    }
}

/// Once the database has run the statement of a write, it holds all bytes of the
/// value under the key, and every other row as before.
pub proof fn law_writes_reach_the_database(
    service: &CacheService,
    key: &str,
    value: &Vec<u8>,
    step: SetStep,
    rows: Map<Seq<char>, Seq<u8>>,
)
    requires
        call_ensures(CacheService::set, (service, key, value), step),
    ensures
        rows_after(step.database, rows) == rows.insert(key@, value@),
{
    reveal_strlit("DELETE FROM cached_data WHERE key = $1");
    reveal_strlit(
        "INSERT INTO cached_data (key, data) VALUES ($1, $2) 
                 ON CONFLICT (key) DO UPDATE SET data = EXCLUDED.data",
    );
    assert(step.database.sql@[0] == 'I');
    assert("DELETE FROM cached_data WHERE key = $1"@[0] == 'D');
}

/// Once the database has run the statement of a delete, the row of the key is
/// gone, and every other row is as before.
pub proof fn law_deletes_reach_the_database(
    service: &CacheService,
    key: &str,
    statement: Statement,
    rows: Map<Seq<char>, Seq<u8>>,
)
    requires
        call_ensures(CacheService::delete, (service, key), statement),
    ensures
        rows_after(statement, rows) == rows.remove(key@),
{
}

/// The statement of a read changes no row and names the row that a write of the
/// same key wrote and a delete of it takes out.
pub proof fn law_reads_find_the_row_of_their_key(
    key: &str,
    value: &Vec<u8>,
    read: Statement,
    write: Statement,
    delete: Statement,
    rows: Map<Seq<char>, Seq<u8>>,
)
    requires
        call_ensures(Statement::select, (key,), read),
        call_ensures(Statement::upsert, (key, value), write),
        call_ensures(Statement::delete, (key,), delete),
    ensures
        rows_after(read, rows) == rows,
        rows_after(write, rows).contains_key(read.key@),
        rows_after(write, rows)[read.key@] == value@,
        !rows_after(delete, rows).contains_key(read.key@),
        rows_after(delete, rows_after(write, rows)) == rows.remove(key@),
{
    reveal_strlit("SELECT data FROM cached_data WHERE key = $1");
    reveal_strlit("DELETE FROM cached_data WHERE key = $1");
    reveal_strlit(
        "INSERT INTO cached_data (key, data) VALUES ($1, $2) 
                 ON CONFLICT (key) DO UPDATE SET data = EXCLUDED.data",
    );
    assert(read.sql@[0] == 'S');
    assert(write.sql@[0] == 'I');
    assert(delete.sql@[0] == 'D');
    assert(rows.insert(key@, value@).remove(key@) =~= rows.remove(key@));
}

} // verus!
