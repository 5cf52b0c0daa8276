//! The Redis tier: how its connection pool is set up and which commands it is
//! sent.
use crate::error::{CacheError, CacheErrorView};
use crate::text::decimal;
use redis::Cmd;
use vstd::prelude::*;
use vstd::utf8::encode_utf8;

verus! {

/// A command of the `redis` crate, as that crate holds it.
#[verifier::external_type_specification]
#[verifier::external_body]
pub struct ExCmd(redis::Cmd);

/// The words that a command is made of, each as bytes, its own name first.
pub uninterp spec fn command_words(command: redis::Cmd) -> Seq<Seq<u8>>;

/// `redis::cmd`: a command whose only word is `name`.
#[verifier::external_body]
fn new_command(name: &str) -> (command: Cmd)
    ensures
        command_words(command) == seq![encode_utf8(name@)],
{
    redis::cmd(name)
}

/// `redis::Cmd::arg` with a string slice: one more word, the bytes of `text`.
#[verifier::external_body]
fn push_text(command: &mut Cmd, text: &str)
    ensures
        command_words(*final(command)) == command_words(*old(command)).push(encode_utf8(text@)),
{
    command.arg(text);
}

/// `redis::Cmd::arg` with a `u64`: one more word, the decimal digits of `n`.
#[verifier::external_body]
fn push_number(command: &mut Cmd, n: u64)
    ensures
        command_words(*final(command)) == command_words(*old(command)).push(
            encode_utf8(decimal(n as nat)),
        ),
{
    command.arg(n);
}

/// `redis::Cmd::arg` with a slice of bytes: one more word, those bytes.
#[verifier::external_body]
fn push_bytes(command: &mut Cmd, bytes: &[u8])
    ensures
        command_words(*final(command)) == command_words(*old(command)).push(bytes@),
{
    command.arg(bytes);
}

/// `redis::Cmd::get` with a string slice: the words `GET` and `key`.
#[verifier::external_body]
fn get_command(key: &str) -> (command: Cmd)
    ensures
        command_words(command) == seq![encode_utf8("GET"@), encode_utf8(key@)],
{
    Cmd::get(key)
}

/// `redis::Cmd::del` with a string slice: the words `DEL` and `key`.
#[verifier::external_body]
fn del_command(key: &str) -> (command: Cmd)
    ensures
        command_words(command) == seq![encode_utf8("DEL"@), encode_utf8(key@)],
{
    Cmd::del(key)
}

/// The text of the `redis::RedisError` that `From` makes of the kind `IoError`,
/// a description and a detail: the three in that order, as its `Display` sets
/// them.
#[verifier::external_body]
fn io_error_text(description: &'static str, detail: String) -> (text: String)
    ensures
        text@ == description@ + " - IoError: "@ + detail@,
{
    redis::RedisError::from((redis::ErrorKind::IoError, description, detail)).to_string()
}

/// The text of the error with which a URL is refused, `None` where it is taken.
pub uninterp spec fn redis_url_fault(url: Seq<char>) -> Option<Seq<char>>;

/// `c` in lower case, if it is an ASCII letter.
pub open spec fn lower(c: char) -> char {
    if 'A' <= c <= 'Z' {
        (c as int + 32) as char
    } else {
        c
    }
}

/// What stands before the first colon of `url`, in lower case and without blanks
/// and control characters.
pub open spec fn scheme(url: Seq<char>) -> Seq<char>
    decreases url.len(),
{
    if url.len() == 0 || url[0] == ':' {
        Seq::empty()
    } else if url[0] <= ' ' {
        scheme(url.skip(1))
    } else {
        seq![lower(url[0])] + scheme(url.skip(1))
    }
}

/// Whether `url` has one of the schemes that are taken on some platforms, or in
/// some builds of the `redis` crate, and not in others.
pub open spec fn depends_on_build(url: Seq<char>) -> bool {
    url.contains(':') && (scheme(url) == "rediss"@ || scheme(url) == "redis+unix"@ || scheme(url)
        == "unix"@)
}

/// Whether `url` has no scheme, or one that is not of Redis.
pub open spec fn is_foreign(url: Seq<char>) -> bool {
    !url.contains(':') || (scheme(url) != "redis"@ && !depends_on_build(url))
}

/// `bb8_redis::RedisConnectionManager::new`, which reads the URL and opens no
/// connection: whether it takes the URL, and the text of its error if not. That
/// depends on the URL alone and is named, but for the schemes `rediss`,
/// `redis+unix` and `unix`, where it depends on the platform and on how the
/// crate was built and is left open. A URL without a scheme, or with any but
/// these three and `redis`, is refused with one and the same text.
#[verifier::external_body]
fn check_redis_url(url: &str) -> (check: Result<(), String>)
    ensures
        !depends_on_build(url@) ==> (match check {
            Ok(()) => redis_url_fault(url@) is None,
            Err(text) => redis_url_fault(url@) == Some(text@),
        }),
        is_foreign(url@) ==> check is Err && check->Err_0@
            == "Redis URL did not parse- InvalidClientConfig"@,
{
    match bb8_redis::RedisConnectionManager::new(url) {
        Ok(_) => Ok(()),
        Err(e) => Err(e.to_string()),
    }
}

/// How the pool of Redis connections is set up.
#[derive(Debug)]
pub struct RedisPool {
    pub url: String,
    pub max_size: u32,
    pub min_idle: Option<u32>,
}

/// The words of the command that reads `key`.
pub open spec fn get_words(key: Seq<char>) -> Seq<Seq<u8>> {
    seq![encode_utf8("GET"@), encode_utf8(key)]
}

/// The words of the command that stores `value` under `key` for `ttl` seconds.
pub open spec fn set_ex_words(key: Seq<char>, value: Seq<u8>, ttl: u64) -> Seq<Seq<u8>> {
    seq![encode_utf8("SETEX"@), encode_utf8(key), encode_utf8(decimal(ttl as nat)), value]
}

/// The words of the command that deletes `key`.
pub open spec fn del_words(key: Seq<char>) -> Seq<Seq<u8>> {
    seq![encode_utf8("DEL"@), encode_utf8(key)]
}

impl RedisPool {
    /// Whether the pool is set up for `url` with the sizes that the service
    /// uses.
    pub open spec fn serves(&self, url: Seq<char>) -> bool {
        &&& self.url@ == url
        &&& self.max_size == 100
        &&& self.min_idle == Some(20u32)
    }

    /// A pool for `redis_url`, given whether that URL was taken.
    pub fn from_check(redis_url: &str, check: Result<(), String>) -> (pool: Result<
        RedisPool,
        CacheError,
    >)
        ensures
            match pool {
                Ok(pool) => check is Ok && pool.serves(redis_url@),
                Err(e) => check matches Err(text) && e@ == CacheErrorView::Redis(text@),
            },
    {
        match check {
            Ok(()) => Ok(
                RedisPool { url: redis_url.to_owned(), max_size: 100, min_idle: Some(20) },
            ),
            Err(text) => Err(CacheError::Redis(text)),
        }
    }

    /// A pool for `redis_url`, or the error with which that URL is refused.
    pub fn new(redis_url: &str) -> (pool: Result<RedisPool, CacheError>)
        ensures
            match pool {
                Ok(pool) => pool.serves(redis_url@),
                Err(e) => e is Redis,
            },
            !depends_on_build(redis_url@) ==> (match pool {
                Ok(_) => redis_url_fault(redis_url@) is None,
                Err(e) => redis_url_fault(redis_url@) matches Some(text) && e@
                    == CacheErrorView::Redis(text),
            }),
            is_foreign(redis_url@) ==> (pool matches Err(e) && e@ == CacheErrorView::Redis(
                "Redis URL did not parse- InvalidClientConfig"@,
            )),
    {
        RedisPool::from_check(redis_url, check_redis_url(redis_url))
    }

    /// The command that reads `key`.
    pub fn get(&self, key: &str) -> (command: Cmd)
        ensures
            command_words(command) == get_words(key@),
    {
        get_command(key)
    }

    /// The command that stores `value` under `key` for `ttl` seconds.
    pub fn set_ex(&self, key: &str, value: &[u8], ttl: u64) -> (command: Cmd)
        ensures
            command_words(command) == set_ex_words(key@, value@, ttl),
    {
        let mut command: Cmd = new_command("SETEX");
        push_text(&mut command, key);
        push_number(&mut command, ttl);
        push_bytes(&mut command, value);
        assert(command_words(command) =~= set_ex_words(key@, value@, ttl));
        command
    }

    /// The command that deletes `key`.
    pub fn del(&self, key: &str) -> (command: Cmd)
        ensures
            command_words(command) == del_words(key@),
    {
        del_command(key)
    }

    /// The text of the failure to fill the pool, for the cause `detail`.
    pub fn creation_failed(detail: String) -> (text: String)
        ensures
            text@ == "Pool creation failed"@ + " - IoError: "@ + detail@,
    {
        io_error_text("Pool creation failed", detail)
    }

    /// The text of the failure to get a connection out of the pool, for the
    /// cause `detail`.
    pub fn connection_failed(detail: String) -> (text: String)
        ensures
            text@ == "Failed to get connection"@ + " - IoError: "@ + detail@,
    {
        io_error_text("Failed to get connection", detail)
    }
}

/// A text that begins with `redis:` has the scheme `redis`, so that whether it is
/// taken depends on it alone.
pub proof fn law_redis_urls_are_decided(url: Seq<char>)
    requires
        "redis:"@.is_prefix_of(url),
    ensures
        scheme(url) == "redis"@,
        !depends_on_build(url),
        !is_foreign(url),
{
    reveal_strlit("redis:");
    reveal_strlit("redis");
    reveal_strlit("rediss");
    reveal_strlit("redis+unix");
    reveal_strlit("unix");
    assert(forall|i: int| 0 <= i < 6 ==> url[i] == "redis:"@[i]);
    assert(url[5] == ':');
    let s1 = url.skip(1);
    let s2 = s1.skip(1);
    let s3 = s2.skip(1);
    let s4 = s3.skip(1);
    let s5 = s4.skip(1);
    assert(s5[0] == ':');
    assert(scheme(s5) =~= Seq::<char>::empty());
    assert(scheme(s4) =~= seq!['s']);
    assert(scheme(s3) =~= seq!['i', 's']);
    assert(scheme(s2) =~= seq!['d', 'i', 's']);
    assert(scheme(s1) =~= seq!['e', 'd', 'i', 's']);
    assert(scheme(url) =~= "redis"@);
    assert("unix"@.len() == 4);
}

/// The three commands name a key by the same word, and two keys never share
/// one: what is stored under a key is read and deleted under that key alone.
pub proof fn law_commands_agree_on_keys(
    written: Seq<char>,
    value: Seq<u8>,
    ttl: u64,
    key: Seq<char>,
)
    ensures
        get_words(key)[1] == del_words(key)[1],
        get_words(key)[1] == set_ex_words(key, value, ttl)[1],
        get_words(key)[1] == set_ex_words(written, value, ttl)[1] ==> key == written,
{
    vstd::utf8::encode_utf8_decode_utf8(key);
    vstd::utf8::encode_utf8_decode_utf8(written);
}

/// Every command names the key by its own bytes, whole, and the one that stores
/// carries the time to live and all bytes of the value after it.
pub proof fn law_commands_carry_key_and_value(
    pool: &RedisPool,
    key: &str,
    value: &[u8],
    ttl: u64,
    read: Cmd,
    write: Cmd,
    delete: Cmd,
)
    requires
        call_ensures(RedisPool::get, (pool, key), read),
        call_ensures(RedisPool::set_ex, (pool, key, value, ttl), write),
        call_ensures(RedisPool::del, (pool, key), delete),
    ensures
        command_words(read) == seq![encode_utf8("GET"@), encode_utf8(key@)],
        command_words(write) == seq![
            encode_utf8("SETEX"@),
            encode_utf8(key@),
            encode_utf8(decimal(ttl as nat)),
            value@,
        ],
        command_words(delete) == seq![encode_utf8("DEL"@), encode_utf8(key@)],
{
}

/// A pool is for the whole URL that it was asked for, with its own sizes, and is
/// there if and only if that URL was taken; if not, the text says why.
pub proof fn law_pools_are_for_their_url(
    url: &str,
    check: Result<(), String>,
    pool: Result<RedisPool, CacheError>,
)
    requires
        call_ensures(RedisPool::from_check, (url, check), pool),
    ensures
        match check {
            Ok(()) => {
                &&& pool matches Ok(pool)
                &&& pool.url@ == url@
                &&& pool.max_size == 100
                &&& pool.min_idle == Some(20u32)
            },
            Err(text) => pool matches Err(CacheError::Redis(why)) && why@ == text@,
        },
{
}

/// Whether a URL that begins with `redis:` gets a pool depends on that URL alone,
/// and a URL without a colon never gets one.
pub proof fn law_pools_are_made_for_redis_urls(url: &str, pool: Result<RedisPool, CacheError>)
    requires
        call_ensures(RedisPool::new, (url,), pool),
    ensures
        pool matches Ok(pool) ==> pool.url@ == url@ && pool.max_size == 100 && pool.min_idle
            == Some(20u32),
        "redis:"@.is_prefix_of(url@) ==> (match redis_url_fault(url@) {
            None => pool is Ok,
            Some(text) => pool matches Err(CacheError::Redis(why)) && why@ == text,
        }),
        !url@.contains(':') ==> (pool matches Err(CacheError::Redis(why)) && why@
            == "Redis URL did not parse- InvalidClientConfig"@),
{
    if "redis:"@.is_prefix_of(url@) {
        law_redis_urls_are_decided(url@);
    }
}

/// The scheme of a URL is what stands before its first colon, without blanks and
/// control characters and with its capitals made small.
pub proof fn law_scheme_stands_before_the_first_colon(start: Seq<char>, rest: Seq<char>)
    requires
        !start.contains(':'),
    ensures
        scheme(start + seq![':'] + rest) == start.filter(|c: char| c > ' ').map_values(
            |c: char|
                if 'A' <= c <= 'Z' {
                    (c as int + 32) as char
                } else {
                    c
                },
        ),
    decreases start.len(),
{
    let url = start + seq![':'] + rest;
    let kept = |c: char| c > ' ';
    let small = |c: char|
        if 'A' <= c <= 'Z' {
            (c as int + 32) as char
        } else {
            c
        };
    reveal(Seq::filter);
    if start.len() == 0 {
        assert(url[0] == ':');
        assert(start.filter(kept).map_values(small) =~= Seq::<char>::empty());
    } else {
        let tail = start.skip(1);
        let first = seq![start[0]];
        assert(start.contains(start[0]));
        assert(!tail.contains(':')) by {
            if tail.contains(':') {
                let i = choose|i: int| 0 <= i < tail.len() && tail[i] == ':';
                assert(start[i + 1] == ':');
            }
        }
        law_scheme_stands_before_the_first_colon(tail, rest);
        assert(url.skip(1) =~= tail + seq![':'] + rest);
        assert(start =~= first + tail);
        Seq::filter_distributes_over_add(first, tail, kept);
        assert(first.drop_last() =~= Seq::<char>::empty());
        assert(first.drop_last().filter(kept) =~= Seq::<char>::empty());
        if start[0] > ' ' {
            assert(first.filter(kept) =~= first);
            assert(scheme(url) =~= start.filter(kept).map_values(small));
        } else {
            assert(first.filter(kept) =~= Seq::<char>::empty());
            assert(start.filter(kept) =~= tail.filter(kept));
        }
    }
}

/// A URL is of Redis, or depends on the build, or is foreign, by whether it has a
/// colon and by its scheme.
pub proof fn law_schemes_decide_about_urls(url: Seq<char>)
    ensures
        is_foreign(url) <==> !url.contains(':') || !(scheme(url) == "redis"@ || scheme(url)
            == "rediss"@ || scheme(url) == "redis+unix"@ || scheme(url) == "unix"@),
        depends_on_build(url) <==> url.contains(':') && (scheme(url) == "rediss"@ || scheme(url)
            == "redis+unix"@ || scheme(url) == "unix"@),
{
    reveal_strlit("redis");
    reveal_strlit("rediss");
    reveal_strlit("redis+unix");
    reveal_strlit("unix");
}

} // verus!
