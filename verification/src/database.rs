//! The database tier: how its connection pool is set up and which statements it
//! is sent.
use crate::memory::copy_bytes;
use crate::time::Duration;
use vstd::prelude::*;

verus! {

/// Reads the row of a key.
pub const SELECT_DATA: &'static str = "SELECT data FROM cached_data WHERE key = $1";

/// Writes the row of a key, whether or not there is one.
pub const UPSERT_DATA: &'static str = "INSERT INTO cached_data (key, data) VALUES ($1, $2) 
                 ON CONFLICT (key) DO UPDATE SET data = EXCLUDED.data";

/// Deletes the row of a key.
pub const DELETE_DATA: &'static str = "DELETE FROM cached_data WHERE key = $1";

/// What a store answers to a change: that it is done, or the text of an error.
pub type Answer = Result<(), String>;

/// What an `Answer` stands for.
pub open spec fn answer_view(answer: Answer) -> Result<(), Seq<char>> {
    match answer {
        Ok(()) => Ok(()),
        Err(text) => Err(text@),
    }
}

/// A statement with its parameters: `key` is the first, `data`, where there is
/// one, the second.
#[derive(Debug)]
pub struct Statement {
    pub sql: &'static str,
    pub key: String,
    pub data: Option<Vec<u8>>,
}

/// What a `Statement` stands for.
#[verifier::ext_equal]
pub struct StatementView {
    pub sql: Seq<char>,
    pub key: Seq<char>,
    pub data: Option<Seq<u8>>,
}

impl View for Statement {
    type V = StatementView;

    open spec fn view(&self) -> StatementView {
        StatementView {
            sql: self.sql@,
            key: self.key@,
            data: match self.data {
                Some(data) => Some(data@),
                None => None,
            },
        }
    }
}

/// The statement that reads `key`.
pub open spec fn select_of(key: Seq<char>) -> StatementView {
    StatementView { sql: SELECT_DATA@, key, data: None }
}

/// The statement that writes `value` under `key`.
pub open spec fn upsert_of(key: Seq<char>, value: Seq<u8>) -> StatementView {
    StatementView { sql: UPSERT_DATA@, key, data: Some(value) }
}

/// The statement that deletes `key`.
pub open spec fn delete_of(key: Seq<char>) -> StatementView {
    StatementView { sql: DELETE_DATA@, key, data: None }
}

impl Statement {
    /// The statement that reads `key`.
    pub fn select(key: &str) -> (statement: Statement)
        ensures
            statement@ == select_of(key@),
    {
        Statement { sql: SELECT_DATA, key: key.to_owned(), data: None }
    }

    /// The statement that writes `value` under `key`.
    pub fn upsert(key: &str, value: &Vec<u8>) -> (statement: Statement)
        ensures
            statement@ == upsert_of(key@, value@),
    {
        Statement { sql: UPSERT_DATA, key: key.to_owned(), data: Some(copy_bytes(value)) }
    }

    /// The statement that deletes `key`.
    pub fn delete(key: &str) -> (statement: Statement)
        ensures
            statement@ == delete_of(key@),
    {
        Statement { sql: DELETE_DATA, key: key.to_owned(), data: None }
    }
}

/// How a pool of database connections is set up. Without an idle timeout the
/// pool keeps the one that its client has by default.
#[derive(Debug)]
pub struct DatabasePool {
    pub url: String,
    pub max_connections: u32,
    pub min_connections: u32,
    pub acquire_timeout: Duration,
    pub idle_timeout: Option<Duration>,
}

impl DatabasePool {
    /// The pool that serves requests.
    pub fn for_service(url: &str) -> (pool: DatabasePool)
        ensures
            pool.url@ == url@,
            pool.max_connections == 100,
            pool.min_connections == 20,
            pool.acquire_timeout == (Duration { secs: 3, nanos: 0 }),
            pool.idle_timeout is None,
    {
        DatabasePool {
            url: url.to_owned(),
            max_connections: 100,
            min_connections: 20,
            acquire_timeout: Duration::from_secs(3),
            idle_timeout: None,
        }
    }

    /// The pool that sets up the tables before requests are served.
    pub fn for_migrations(url: &str) -> (pool: DatabasePool)
        ensures
            pool.url@ == url@,
            pool.max_connections == 32,
            pool.min_connections == 4,
            pool.acquire_timeout == (Duration { secs: 3, nanos: 0 }),
            pool.idle_timeout == Some(Duration { secs: 60, nanos: 0 }),
    {
        DatabasePool {
            url: url.to_owned(),
            max_connections: 32,
            min_connections: 4,
            acquire_timeout: Duration::from_secs(3),
            idle_timeout: Some(Duration::from_secs(60)),
        }
    }
}

/// The statements that read, write and delete a key carry that key itself, whole,
/// and the one that writes carries all bytes of the value.
pub proof fn law_statements_carry_key_and_value(
    key: &str,
    value: &Vec<u8>,
    read: Statement,
    write: Statement,
    delete: Statement,
)
    requires
        call_ensures(Statement::select, (key,), read),
        call_ensures(Statement::upsert, (key, value), write),
        call_ensures(Statement::delete, (key,), delete),
    ensures
        read.key@ == key@,
        write.key@ == key@,
        delete.key@ == key@,
        write.data matches Some(data) && data@ == value@,
        read.data is None,
        delete.data is None,
{
}

/// Each statement has the text that does what it is for.
pub proof fn law_statements_have_their_text(
    key: &str,
    value: &Vec<u8>,
    read: Statement,
    write: Statement,
    delete: Statement,
)
    requires
        call_ensures(Statement::select, (key,), read),
        call_ensures(Statement::upsert, (key, value), write),
        call_ensures(Statement::delete, (key,), delete),
    ensures
        read.sql@ == "SELECT data FROM cached_data WHERE key = $1"@,
        write.sql@ == "INSERT INTO cached_data (key, data) VALUES ($1, $2) 
                 ON CONFLICT (key) DO UPDATE SET data = EXCLUDED.data"@,
        delete.sql@ == "DELETE FROM cached_data WHERE key = $1"@,
{
}

/// Two statements of one kind are the same only for the same key and the same
/// value, and no statement is of two kinds.
pub proof fn law_statements_tell_requests_apart(
    key: Seq<char>,
    other: Seq<char>,
    value: Seq<u8>,
    other_value: Seq<u8>,
)
    ensures
        select_of(key) == select_of(other) ==> key == other,
        delete_of(key) == delete_of(other) ==> key == other,
        upsert_of(key, value) == upsert_of(other, other_value) ==> key == other && value
            == other_value,
        select_of(key) != delete_of(other),
        select_of(key) != upsert_of(other, other_value),
        delete_of(key) != upsert_of(other, other_value),
{
    reveal_strlit("SELECT data FROM cached_data WHERE key = $1");
    reveal_strlit("DELETE FROM cached_data WHERE key = $1");
    assert(SELECT_DATA@[0] == 'S');
    assert(DELETE_DATA@[0] == 'D');
}

} // verus!
