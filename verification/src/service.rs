//! What the service does for a read, a write and a delete: which tiers it asks,
//! what it answers for each combination of their replies, and what it stores.
use crate::config::Config;
use crate::database::{
    answer_view, delete_of, select_of, upsert_of, Answer, DatabasePool, Statement,
};
use crate::error::{data_view, done_view, CacheError, CacheErrorView};
use crate::memory::{
    bytes_view, copy_bytes, CacheView, ClockWentBack, EntryView, MemoryCache,
};
use crate::redis_pool::{
    command_words, del_words, depends_on_build, get_words, is_foreign, redis_url_fault,
    set_ex_words, RedisPool,
};
use crate::text::decimal;
use crate::time::{Duration, Timestamp};
use redis::Cmd;
use vstd::prelude::*;
use vstd::utf8::encode_utf8;

verus! {

/// What a store replies to a read: the bytes, if it has any, or the text of an
/// error.
pub type Reply = Result<Option<Vec<u8>>, String>;

/// What a `Reply` stands for.
pub open spec fn reply_view(reply: Reply) -> Result<Option<Seq<u8>>, Seq<char>> {
    match reply {
        Ok(bytes) => Ok(bytes_view(bytes)),
        Err(text) => Err(text@),
    }
}

/// How a read goes on after the memory tier: it is over, or both stores are
/// asked at once.
pub enum GetStep {
    Found(Vec<u8>),
    Fetch { redis: Cmd, database: Statement },
}

/// What is stored after a read, while its answer is already on its way: first,
/// if there is a command, in Redis, whatever comes of it, and then in memory.
pub struct Fill {
    pub redis: Option<Cmd>,
    pub key: String,
    pub data: Vec<u8>,
}

/// What a `Fill` stands for.
#[verifier::ext_equal]
pub struct FillView {
    pub redis: Option<Seq<Seq<u8>>>,
    pub key: Seq<char>,
    pub data: Seq<u8>,
}

impl View for Fill {
    type V = FillView;

    open spec fn view(&self) -> FillView {
        FillView {
            redis: match self.redis {
                Some(command) => Some(command_words(command)),
                None => None,
            },
            key: self.key@,
            data: self.data@,
        }
    }
}

/// What an optional `Fill` stands for.
pub open spec fn fill_view(fill: Option<Fill>) -> Option<FillView> {
    match fill {
        Some(fill) => Some(fill@),
        None => None,
    }
}

/// The end of a read that asked the stores: its answer and what to store.
pub struct GetEnd {
    pub result: Result<Vec<u8>, CacheError>,
    pub fill: Option<Fill>,
}

/// What a write asks of the two stores, both at once.
pub struct SetStep {
    pub database: Statement,
    pub redis: Cmd,
}

/// The answer to a read of `key` for the replies of the two stores: what Redis
/// has; where it has nothing or fails, what the database has; and the error of
/// the database alone.
pub open spec fn fetch_outcome(
    key: Seq<char>,
    redis: Result<Option<Seq<u8>>, Seq<char>>,
    database: Result<Option<Seq<u8>>, Seq<char>>,
) -> Result<Seq<u8>, CacheErrorView> {
    match redis {
        Ok(Some(data)) => Ok(data),
        _ => match database {
            Ok(Some(data)) => Ok(data),
            Ok(None) => Err(CacheErrorView::NotFound(key)),
            Err(text) => Err(CacheErrorView::Database(text)),
        },
    }
}

/// What such a read stores: what it found, in every tier above the one where it
/// was found.
pub open spec fn fetch_fill(
    key: Seq<char>,
    redis: Result<Option<Seq<u8>>, Seq<char>>,
    database: Result<Option<Seq<u8>>, Seq<char>>,
    redis_ttl: u64,
) -> Option<FillView> {
    match redis {
        Ok(Some(data)) => Some(FillView { redis: None, key, data }),
        _ => match database {
            Ok(Some(data)) => Some(
                FillView { redis: Some(set_ex_words(key, data, redis_ttl)), key, data },
            ),
            _ => None,
        },
    }
}

/// The answer to a read of `key` at the instant `now`, for the replies that the
/// stores give if they are asked.
pub open spec fn read_outcome(
    memory: CacheView,
    key: Seq<char>,
    now: int,
    redis: Result<Option<Seq<u8>>, Seq<char>>,
    database: Result<Option<Seq<u8>>, Seq<char>>,
) -> Result<Seq<u8>, CacheErrorView> {
    match memory.lookup(key, now) {
        Some(data) => Ok(data),
        None => fetch_outcome(key, redis, database),
    }
}

/// The answer to a write or a delete for the answers of the two stores: the
/// error of the database comes before that of Redis.
pub open spec fn change_outcome(
    database: Result<(), Seq<char>>,
    redis: Result<(), Seq<char>>,
) -> Result<(), CacheErrorView> {
    match database {
        Err(text) => Err(CacheErrorView::Database(text)),
        Ok(()) => match redis {
            Err(text) => Err(CacheErrorView::Redis(text)),
            Ok(()) => Ok(()),
        },
    }
}

/// The memory tier, and how the service reaches its two stores.
pub struct CacheService {
    pub memory_cache: MemoryCache,
    pub redis_pool: RedisPool,
    pub db: DatabasePool,
    pub config: Config,
}

impl CacheService {
    /// Whether the memory tier, empty as yet, and the database pool are set up
    /// by `config`.
    pub open spec fn is_set_up_by(&self, config: Config) -> bool {
        &&& self.memory_cache@ == (CacheView {
            entries: Map::<Seq<char>, EntryView>::empty(),
            ttl: config.memory_cache_ttl * 1_000_000_000,
            max_items: config.max_memory_items as nat,
        })
        &&& self.db.url@ == config.database_url@
        &&& self.db.max_connections == 100
        &&& self.db.min_connections == 20
        &&& self.db.acquire_timeout == (Duration { secs: 3, nanos: 0 })
        &&& self.db.idle_timeout is None
        &&& self.config == config
    }

    /// Whether only the memory tier differs from `before`.
    pub open spec fn differs_in_memory_only(&self, before: CacheService) -> bool {
        &&& self.redis_pool == before.redis_pool
        &&& self.db == before.db
        &&& self.config == before.config
    }

    /// A service set up by `config`, given the Redis pool for it.
    pub fn with_pool(config: Config, pool: Result<RedisPool, CacheError>) -> (service: Result<
        CacheService,
        CacheError,
    >)
        ensures
            match service {
                Ok(service) => {
                    &&& pool == Ok::<RedisPool, CacheError>(service.redis_pool)
                    &&& service.is_set_up_by(config)
                },
                Err(e) => pool == Err::<RedisPool, CacheError>(e),
            },
    {
        let memory_cache = MemoryCache::new(
            Duration::from_secs(config.memory_cache_ttl),
            config.max_memory_items,
        );
        match pool {
            Ok(redis_pool) => {
                let db = DatabasePool::for_service(config.database_url.as_str());
                Ok(CacheService { memory_cache, redis_pool, db, config })
            },
            Err(e) => Err(e),
        }
    }

    /// A service set up by `config`, or the error with which its Redis URL is
    /// refused.
    pub fn new(config: Config) -> (service: Result<CacheService, CacheError>)
        ensures
            match service {
                Ok(service) => {
                    &&& service.is_set_up_by(config)
                    &&& service.redis_pool.serves(config.redis_url@)
                },
                Err(e) => e is Redis,
            },
            !depends_on_build(config.redis_url@) ==> (match service {
                Ok(_) => redis_url_fault(config.redis_url@) is None,
                Err(e) => redis_url_fault(config.redis_url@) matches Some(text) && e@
                    == CacheErrorView::Redis(text),
            }),
            is_foreign(config.redis_url@) ==> (service matches Err(e) && e@
                == CacheErrorView::Redis("Redis URL did not parse- InvalidClientConfig"@)),
    {
        let pool = RedisPool::new(config.redis_url.as_str());
        CacheService::with_pool(config, pool)
    }

    /// The service once its Redis pool has been filled, or the error of the
    /// failure to fill it, which comes before the database is reached for.
    pub fn after_redis(self, redis: Answer) -> (service: Result<CacheService, CacheError>)
        ensures
            match service {
                Ok(service) => redis is Ok && service == self,
                Err(e) => {
                    &&& redis matches Err(detail)
                    &&& e@ == CacheErrorView::Redis(
                        "Pool creation failed"@ + " - IoError: "@ + detail@,
                    )
                },
            },
    {
        match redis {
            Ok(()) => Ok(self),
            Err(detail) => Err(CacheError::Redis(RedisPool::creation_failed(detail))),
        }
    }

    /// The service once the database has been reached too, or the error of the
    /// failure to reach it.
    pub fn after_database(self, database: Answer) -> (service: Result<CacheService, CacheError>)
        ensures
            match service {
                Ok(service) => database is Ok && service == self,
                Err(e) => {
                    &&& database matches Err(text)
                    &&& e@ == CacheErrorView::Database(text@)
                },
            },
    {
        match database {
            Ok(()) => Ok(self),
            Err(text) => Err(CacheError::Database(text)),
        }
    }

    /// Whether `step` is how a read of `key` begins at the instant `now`.
    pub open spec fn begins_with(&self, key: Seq<char>, now: int, step: GetStep) -> bool {
        match step {
            GetStep::Found(data) => self.memory_cache@.lookup(key, now) == Some(data@),
            GetStep::Fetch { redis, database } => {
                &&& self.memory_cache@.lookup(key, now) is None
                &&& command_words(redis) == get_words(key)
                &&& database@ == select_of(key)
            },
        }
    }

    /// Begins a read of `key` at the instant `now`.
    pub fn get_at(&self, key: &str, now: Timestamp) -> (step: GetStep)
        requires
            !self.memory_cache@.stored_after(key@, now@),
        ensures
            self.begins_with(key@, now@, step),
    {
        match self.memory_cache.get_at(key, now) {
            Some(data) => GetStep::Found(data),
            None => GetStep::Fetch {
                redis: self.redis_pool.get(key),
                database: Statement::select(key),
            },
        }
    }

    /// Begins a read of `key`. Fails where the clock reads earlier than when the
    /// key was stored in memory.
    pub fn get(&self, key: &str) -> (step: Result<GetStep, ClockWentBack>)
        ensures
            match step {
                Ok(step) => exists|now: Timestamp|
                    call_ensures(Timestamp::now_in::<CacheService>, (self,), now)
                        && now.distance.nanos < 1_000_000_000 && !self.memory_cache@.stored_after(key@, now@)
                        && #[trigger] self.begins_with(key@, now@, step),
                Err(_) => exists|now: Timestamp|
                    call_ensures(Timestamp::now_in::<CacheService>, (self,), now)
                        && now.distance.nanos < 1_000_000_000 && #[trigger] self.memory_cache@.stored_after(key@, now@),
            },
    {
        let now: Timestamp = Timestamp::now_in(self);
        if self.memory_cache.stored_after(key, now) {
            Err(ClockWentBack)
        } else {
            Ok(self.get_at(key, now))
        }
    }

    /// Ends a read of `key` that asked both stores.
    pub fn finish_get(&self, key: &str, redis: Reply, database: Reply) -> (end: GetEnd)
        ensures
            data_view(end.result) == fetch_outcome(key@, reply_view(redis), reply_view(database)),
            fill_view(end.fill) == fetch_fill(
                key@,
                reply_view(redis),
                reply_view(database),
                self.config.redis_cache_ttl,
            ),
    {
        match redis {
            Ok(Some(data)) => {
                let copy: Vec<u8> = copy_bytes(&data);
                GetEnd {
                    result: Ok(data),
                    fill: Some(Fill { redis: None, key: key.to_owned(), data: copy }),
                }
            },
            _ => match database {
                Ok(Some(data)) => {
                    let copy: Vec<u8> = copy_bytes(&data);
                    let command: Cmd = self.redis_pool.set_ex(
                        key,
                        copy.as_slice(),
                        self.config.redis_cache_ttl,
                    );
                    GetEnd {
                        result: Ok(data),
                        fill: Some(Fill { redis: Some(command), key: key.to_owned(), data: copy }),
                    }
                },
                Ok(None) => GetEnd {
                    result: Err(CacheError::NotFound(key.to_owned())),
                    fill: None,
                },
                Err(text) => GetEnd { result: Err(CacheError::Database(text)), fill: None },
            },
        }
    }

    /// Stores in memory what a read found, as of the instant `now`.
    pub fn fill_at(&mut self, key: String, data: Vec<u8>, now: Timestamp)
        ensures
            old(self).memory_cache@.may_become(key@, data@, now@, final(self).memory_cache@),
            final(self).memory_cache@.is_bounded(),
            final(self).differs_in_memory_only(*old(self)),
    {
        self.memory_cache.set_at(key, data, now);
    }

    /// Stores in memory what a read found.
    pub fn fill(&mut self, key: String, data: Vec<u8>)
        ensures
            exists|now: Timestamp|
                call_ensures(Timestamp::now_in::<CacheService>, (&*old(self),), now)
                    && now.distance.nanos < 1_000_000_000 && #[trigger] old(self).memory_cache@.may_become(
                    key@,
                    data@,
                    now@,
                    final(self).memory_cache@,
                ),
            final(self).memory_cache@.is_bounded(),
            final(self).differs_in_memory_only(*old(self)),
    {
        let now: Timestamp = Timestamp::now_in(&*self);
        self.fill_at(key, data, now);
    }

    /// Begins a write of `value` under `key`.
    pub fn set(&self, key: &str, value: &Vec<u8>) -> (step: SetStep)
        ensures
            step.database@ == upsert_of(key@, value@),
            command_words(step.redis) == set_ex_words(key@, value@, self.config.redis_cache_ttl),
    {
        SetStep {
            database: Statement::upsert(key, value),
            redis: self.redis_pool.set_ex(key, value.as_slice(), self.config.redis_cache_ttl),
        }
    }

    /// Ends a write at the instant `now`: the value goes into memory, whatever
    /// the stores answered.
    pub fn finish_set_at(
        &mut self,
        key: String,
        value: Vec<u8>,
        database: Answer,
        redis: Answer,
        now: Timestamp,
    ) -> (result: Result<(), CacheError>)
        ensures
            done_view(result) == change_outcome(answer_view(database), answer_view(redis)),
            old(self).memory_cache@.may_become(key@, value@, now@, final(self).memory_cache@),
            final(self).memory_cache@.is_bounded(),
            final(self).differs_in_memory_only(*old(self)),
    {
        self.memory_cache.set_at(key, value, now);
        both_done(database, redis)
    }

    /// Ends a write: the value goes into memory, whatever the stores answered.
    pub fn finish_set(
        &mut self,
        key: String,
        value: Vec<u8>,
        database: Answer,
        redis: Answer,
    ) -> (result: Result<(), CacheError>)
        ensures
            done_view(result) == change_outcome(answer_view(database), answer_view(redis)),
            exists|now: Timestamp|
                call_ensures(Timestamp::now_in::<CacheService>, (&*old(self),), now)
                    && now.distance.nanos < 1_000_000_000 && #[trigger] old(self).memory_cache@.may_become(
                    key@,
                    value@,
                    now@,
                    final(self).memory_cache@,
                ),
            final(self).memory_cache@.is_bounded(),
            final(self).differs_in_memory_only(*old(self)),
    {
        let now: Timestamp = Timestamp::now_in(&*self);
        self.finish_set_at(key, value, database, redis, now)
    }

    /// Begins a delete of `key`: the database comes first.
    pub fn delete(&self, key: &str) -> (statement: Statement)
        ensures
            statement@ == delete_of(key@),
    {
        Statement::delete(key)
    }

    /// Goes on with a delete of `key` once the database has answered: Redis is
    /// asked only where the database did not fail.
    pub fn delete_from_redis(&self, key: &str, database: Answer) -> (next: Result<Cmd, CacheError>)
        ensures
            match next {
                Ok(command) => database is Ok && command_words(command) == del_words(key@),
                Err(e) => {
                    &&& database matches Err(text)
                    &&& e@ == CacheErrorView::Database(text@)
                },
            },
            next matches Err(e) ==> forall|redis: Result<(), Seq<char>>| #[trigger]
                change_outcome(answer_view(database), redis) == Err::<(), CacheErrorView>(e@),
    {
        match database {
            Ok(()) => Ok(self.redis_pool.del(key)),
            Err(text) => Err(CacheError::Database(text)),
        }
    }

    /// Ends a delete of `key` once Redis has answered too: memory lets go of the
    /// key only where Redis did not fail.
    pub fn finish_delete(&mut self, key: &str, redis: Answer) -> (result: Result<(), CacheError>)
        ensures
            match result {
                Ok(()) => {
                    &&& redis is Ok
                    &&& final(self).memory_cache@ == old(self).memory_cache@.without(key@)
                },
                Err(e) => {
                    &&& redis matches Err(text)
                    &&& e@ == CacheErrorView::Redis(text@)
                    &&& *final(self) == *old(self)
                },
            },
            done_view(result) == change_outcome(Ok(()), answer_view(redis)),
            final(self).differs_in_memory_only(*old(self)),
    {
        match redis {
            Ok(()) => {
                self.memory_cache.remove(key);
                Ok(())
            },
            Err(text) => Err(CacheError::Redis(text)),
        }
    }
}

/// The answer to a change for the answers of the two stores.
fn both_done(database: Answer, redis: Answer) -> (result: Result<(), CacheError>)
    ensures
        done_view(result) == change_outcome(answer_view(database), answer_view(redis)),
{
    match database {
        Err(text) => Err(CacheError::Database(text)),
        Ok(()) => match redis {
            Err(text) => Err(CacheError::Redis(text)),
            Ok(()) => Ok(()),
        },
    }
}

/// A service has an empty memory tier with the limits of its settings, and pools
/// for the addresses in them.
pub proof fn law_services_keep_to_their_settings(
    config: Config,
    service: Result<CacheService, CacheError>,
)
    requires
        call_ensures(CacheService::new, (config,), service),
        service is Ok,
    ensures
        service->Ok_0.memory_cache@.entries.len() == 0,
        forall|key: Seq<char>| !#[trigger] service->Ok_0.memory_cache@.entries.contains_key(key),
        service->Ok_0.memory_cache@.ttl == config.memory_cache_ttl * 1_000_000_000,
        service->Ok_0.memory_cache@.max_items == config.max_memory_items,
        service->Ok_0.redis_pool.url@ == config.redis_url@,
        service->Ok_0.redis_pool.max_size == 100,
        service->Ok_0.redis_pool.min_idle == Some(20u32),
        service->Ok_0.db.url@ == config.database_url@,
        service->Ok_0.db.max_connections == 100,
        service->Ok_0.db.min_connections == 20,
        service->Ok_0.db.acquire_timeout == (Duration { secs: 3, nanos: 0 }),
        service->Ok_0.db.idle_timeout is None,
        service->Ok_0.config == config,
{
}

/// A service is set up alike around any pool that is handed to it, and a failure
/// to make that pool is handed on.
pub proof fn law_services_are_set_up_around_their_pool(
    config: Config,
    pool: Result<RedisPool, CacheError>,
    service: Result<CacheService, CacheError>,
)
    requires
        call_ensures(CacheService::with_pool, (config, pool), service),
    ensures
        match service {
            Ok(service) => {
                &&& pool == Ok::<RedisPool, CacheError>(service.redis_pool)
                &&& service.memory_cache@.entries == Map::<Seq<char>, EntryView>::empty()
                &&& service.memory_cache@.ttl == config.memory_cache_ttl * 1_000_000_000
                &&& service.memory_cache@.max_items == config.max_memory_items
                &&& service.db.url@ == config.database_url@
                &&& service.db.max_connections == 100
                &&& service.db.min_connections == 20
                &&& service.db.acquire_timeout == (Duration { secs: 3, nanos: 0 })
                &&& service.db.idle_timeout is None
                &&& service.config == config
            },
            Err(e) => pool == Err::<RedisPool, CacheError>(e),
        },
{
}

/// A read at an instant is over if and only if memory holds the key and less than
/// the time to live has passed since it was stored; it then gives those bytes, and
/// otherwise asks both stores for the key itself.
pub proof fn law_reads_begin_in_memory(
    service: &CacheService,
    key: &str,
    now: Timestamp,
    step: GetStep,
)
    requires
        call_ensures(CacheService::get_at, (service, key, now), step),
    ensures
        step is Found <==> service.memory_cache@.entries.contains_key(key@) && now@
            - service.memory_cache@.entries[key@].timestamp < service.memory_cache@.ttl,
        step matches GetStep::Found(data) ==> data@ == service.memory_cache@.entries[key@].data,
        step matches GetStep::Fetch { redis, database } ==> {
            &&& command_words(redis) == seq![encode_utf8("GET"@), encode_utf8(key@)]
            &&& database.sql@ == "SELECT data FROM cached_data WHERE key = $1"@
            &&& database.key@ == key@
            &&& database.data is None
        },
{
}

/// A read goes by an instant that the clock gave for this very service: bytes are
/// served from memory only if they have not expired by then, and both stores are
/// asked for the key itself if they have.
pub proof fn law_reads_go_by_the_clock(
    service: &CacheService,
    key: &str,
    step: Result<GetStep, ClockWentBack>,
)
    requires
        call_ensures(CacheService::get, (service, key), step),
    ensures
        exists|now: Timestamp|
            call_ensures(Timestamp::now, (), now) && #[trigger] call_ensures(
                Timestamp::now_in::<CacheService>,
                (service,),
                now,
            ) && (match step {
                Ok(GetStep::Found(data)) => {
                    &&& service.memory_cache@.entries.contains_key(key@)
                    &&& service.memory_cache@.entries[key@].timestamp <= now@
                    &&& now@ - service.memory_cache@.entries[key@].timestamp
                        < service.memory_cache@.ttl
                    &&& data@ == service.memory_cache@.entries[key@].data
                },
                Ok(GetStep::Fetch { redis, database }) => {
                    &&& service.memory_cache@.entries.contains_key(key@)
                        ==> service.memory_cache@.entries[key@].timestamp <= now@ && now@
                        - service.memory_cache@.entries[key@].timestamp
                        >= service.memory_cache@.ttl
                    &&& command_words(redis) == seq![encode_utf8("GET"@), encode_utf8(key@)]
                    &&& database.sql@ == "SELECT data FROM cached_data WHERE key = $1"@
                    &&& database.key@ == key@
                    &&& database.data is None
                },
                Err(_) => service.memory_cache@.entries.contains_key(key@) && now@
                    < service.memory_cache@.entries[key@].timestamp,
            }),
{
    let now = match step {
        Ok(begun) => choose|now: Timestamp|
            call_ensures(Timestamp::now_in::<CacheService>, (service,), now) && now.distance.nanos < 1_000_000_000
                && !service.memory_cache@.stored_after(key@, now@)
                && #[trigger] service.begins_with(key@, now@, begun),
        Err(_) => choose|now: Timestamp|
            call_ensures(Timestamp::now_in::<CacheService>, (service,), now) && now.distance.nanos < 1_000_000_000
                && #[trigger] service.memory_cache@.stored_after(key@, now@),
    };
    assert(call_ensures(Timestamp::now_in::<CacheService>, (service,), now));
}

/// A read that asked the stores gives the bytes that Redis replied, or else those
/// that the database replied, or else fails as the database did; a failure of
/// Redis never shows.
pub proof fn law_reads_end_with_what_a_store_has(
    service: &CacheService,
    key: &str,
    redis: Reply,
    database: Reply,
    end: GetEnd,
)
    requires
        call_ensures(CacheService::finish_get, (service, key, redis, database), end),
    ensures
        redis matches Ok(Some(data)) ==> (end.result matches Ok(found) && found@ == data@),
        !(redis matches Ok(Some(_))) ==> (match database {
            Ok(Some(data)) => end.result matches Ok(found) && found@ == data@,
            Ok(None) => end.result matches Err(CacheError::NotFound(name)) && name@ == key@,
            Err(text) => end.result matches Err(CacheError::Database(why)) && why@ == text@,
        }),
{
}

/// A read that asked the stores stores what it gives, and nothing where it fails:
/// under its key in memory, and in Redis too, for the time to live of the
/// settings, if and only if Redis did not have it.
pub proof fn law_reads_store_what_they_give(
    service: &CacheService,
    key: &str,
    redis: Reply,
    database: Reply,
    end: GetEnd,
)
    requires
        call_ensures(CacheService::finish_get, (service, key, redis, database), end),
    ensures
        end.fill is Some <==> end.result is Ok,
        end.fill matches Some(fill) ==> {
            &&& fill.key@ == key@
            &&& end.result matches Ok(found) && fill.data@ == found@
            &&& fill.redis is None <==> (redis matches Ok(Some(_)))
            &&& fill.redis matches Some(command) ==> command_words(command) == seq![
                encode_utf8("SETEX"@),
                encode_utf8(key@),
                encode_utf8(decimal(service.config.redis_cache_ttl as nat)),
                fill.data@,
            ]
        },
{
    if let Some(fill) = end.fill {
        if let Some(command) = fill.redis {
            assert(command_words(command) =~= seq![
                encode_utf8("SETEX"@),
                encode_utf8(key@),
                encode_utf8(decimal(service.config.redis_cache_ttl as nat)),
                fill.data@,
            ]);
        }
    }
}

/// A write hands its key and all bytes of its value to both stores, to Redis for
/// the time to live of the settings.
pub proof fn law_writes_hand_on_key_and_value(
    service: &CacheService,
    key: &str,
    value: &Vec<u8>,
    step: SetStep,
)
    requires
        call_ensures(CacheService::set, (service, key, value), step),
    ensures
        step.database.sql@ == "INSERT INTO cached_data (key, data) VALUES ($1, $2) 
                 ON CONFLICT (key) DO UPDATE SET data = EXCLUDED.data"@,
        step.database.key@ == key@,
        step.database.data matches Some(data) && data@ == value@,
        command_words(step.redis) == seq![
            encode_utf8("SETEX"@),
            encode_utf8(key@),
            encode_utf8(decimal(service.config.redis_cache_ttl as nat)),
            value@,
        ],
{
}

/// A delete names its key to the database, and then, unless the database failed,
/// to Redis.
pub proof fn law_deletes_name_their_key(
    service: &CacheService,
    key: &str,
    statement: Statement,
    database: Answer,
    next: Result<Cmd, CacheError>,
)
    requires
        call_ensures(CacheService::delete, (service, key), statement),
        call_ensures(CacheService::delete_from_redis, (service, key, database), next),
    ensures
        statement.sql@ == "DELETE FROM cached_data WHERE key = $1"@,
        statement.key@ == key@,
        statement.data is None,
        match database {
            Ok(()) => next matches Ok(command) && command_words(command) == seq![
                encode_utf8("DEL"@),
                encode_utf8(key@),
            ],
            Err(text) => next matches Err(CacheError::Database(why)) && why@ == text@,
        },
{
}

/// A delete that Redis has taken leaves memory without its key and otherwise as it
/// was; one that Redis has refused fails with its text and leaves the service as
/// it was.
pub proof fn law_deletes_end_in_memory(
    service: &mut CacheService,
    key: &str,
    redis: Answer,
    result: Result<(), CacheError>,
)
    requires
        call_ensures(CacheService::finish_delete, (service, key, redis), result),
    ensures
        match redis {
            Ok(()) => {
                &&& result is Ok
                &&& final(service).memory_cache@.entries
                    == old(service).memory_cache@.entries.remove(key@)
                &&& final(service).memory_cache@.ttl == old(service).memory_cache@.ttl
                &&& final(service).memory_cache@.max_items == old(service).memory_cache@.max_items
            },
            Err(text) => {
                &&& result matches Err(CacheError::Redis(why))
                &&& why@ == text@
                &&& *final(service) == *old(service)
            },
        },
        final(service).redis_pool == old(service).redis_pool,
        final(service).db == old(service).db,
        final(service).config == old(service).config,
{
}

/// A write succeeds if and only if both stores took it, and fails with the text of
/// the database before that of Redis; memory holds its bytes as of its instant
/// either way.
pub proof fn law_writes_end_with_both_answers(
    service: &mut CacheService,
    key: String,
    value: Vec<u8>,
    database: Answer,
    redis: Answer,
    now: Timestamp,
    result: Result<(), CacheError>,
)
    requires
        call_ensures(
            CacheService::finish_set_at,
            (service, key, value, database, redis, now),
            result,
        ),
    ensures
        match database {
            Err(text) => result matches Err(CacheError::Database(why)) && why@ == text@,
            Ok(()) => match redis {
                Err(text) => result matches Err(CacheError::Redis(why)) && why@ == text@,
                Ok(()) => result is Ok,
            },
        },
        final(service).memory_cache@.entries.contains_key(key@),
        final(service).memory_cache@.entries[key@].data == value@,
        final(service).memory_cache@.entries[key@].timestamp == now@,
        old(service).memory_cache@.may_become(
            key@,
            value@,
            now@,
            final(service).memory_cache@,
        ),
        final(service).redis_pool == old(service).redis_pool,
        final(service).db == old(service).db,
        final(service).config == old(service).config,
{
}

/// A write that goes by the clock ends as one at an instant does, with an instant
/// that the clock gave for the service as it was.
pub proof fn law_writes_go_by_the_clock(
    service: &mut CacheService,
    key: String,
    value: Vec<u8>,
    database: Answer,
    redis: Answer,
    result: Result<(), CacheError>,
)
    requires
        call_ensures(CacheService::finish_set, (service, key, value, database, redis), result),
    ensures
        match database {
            Err(text) => result matches Err(CacheError::Database(why)) && why@ == text@,
            Ok(()) => match redis {
                Err(text) => result matches Err(CacheError::Redis(why)) && why@ == text@,
                Ok(()) => result is Ok,
            },
        },
        final(service).memory_cache@.entries.contains_key(key@),
        final(service).memory_cache@.entries[key@].data == value@,
        exists|now: Timestamp|
            call_ensures(Timestamp::now, (), now) && #[trigger] call_ensures(
                Timestamp::now_in::<CacheService>,
                (&*old(service),),
                now,
            ) && final(service).memory_cache@.entries[key@].timestamp == now@
                && old(service).memory_cache@.may_become(
                key@,
                value@,
                now@,
                final(service).memory_cache@,
            ),
        final(service).redis_pool == old(service).redis_pool,
        final(service).db == old(service).db,
        final(service).config == old(service).config,
{
    let now = choose|now: Timestamp|
        call_ensures(Timestamp::now_in::<CacheService>, (&*old(service),), now)
            && now.distance.nanos < 1_000_000_000 && #[trigger] old(service).memory_cache@.may_become(
            key@,
            value@,
            now@,
            final(service).memory_cache@,
        );
    assert(call_ensures(Timestamp::now_in::<CacheService>, (&*old(service),), now));
}

/// What a read found is in memory afterwards, as of the instant given.
pub proof fn law_fills_store_what_was_found(
    service: &mut CacheService,
    key: String,
    data: Vec<u8>,
    now: Timestamp,
)
    requires
        call_ensures(CacheService::fill_at, (service, key, data, now), ()),
    ensures
        final(service).memory_cache@.entries.contains_key(key@),
        final(service).memory_cache@.entries[key@].data == data@,
        final(service).memory_cache@.entries[key@].timestamp == now@,
        final(service).redis_pool == old(service).redis_pool,
        final(service).db == old(service).db,
        final(service).config == old(service).config,
{
}

/// What a read found is in memory afterwards, as of an instant that the clock
/// gave for the service as it was.
pub proof fn law_fills_go_by_the_clock(service: &mut CacheService, key: String, data: Vec<u8>)
    requires
        call_ensures(CacheService::fill, (service, key, data), ()),
    ensures
        final(service).memory_cache@.entries.contains_key(key@),
        final(service).memory_cache@.entries[key@].data == data@,
        exists|now: Timestamp|
            call_ensures(Timestamp::now, (), now) && #[trigger] call_ensures(
                Timestamp::now_in::<CacheService>,
                (&*old(service),),
                now,
            ) && final(service).memory_cache@.entries[key@].timestamp == now@,
        final(service).redis_pool == old(service).redis_pool,
        final(service).db == old(service).db,
        final(service).config == old(service).config,
{
    let now = choose|now: Timestamp|
        call_ensures(Timestamp::now_in::<CacheService>, (&*old(service),), now)
            && now.distance.nanos < 1_000_000_000 && #[trigger] old(service).memory_cache@.may_become(
            key@,
            data@,
            now@,
            final(service).memory_cache@,
        );
    assert(call_ensures(Timestamp::now_in::<CacheService>, (&*old(service),), now));
}

} // verus!
