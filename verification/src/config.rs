//! The settings of the service.
use crate::text::{number, parse_number};
use vstd::prelude::*;

verus! {

/// The settings of the service; times to live are in seconds.
#[derive(Debug)]
pub struct Config {
    pub redis_url: String,
    pub database_url: String,
    pub memory_cache_ttl: u64,
    pub redis_cache_ttl: u64,
    pub max_memory_items: usize,
}

/// The text of a setting: what was given, or else its default.
pub open spec fn text_setting(given: Option<String>, default: Seq<char>) -> Seq<char> {
    match given {
        Some(text) => text@,
        None => default,
    }
}

/// The number of a setting: what was given, if it spells a number of at most
/// `max`, or else its default.
pub open spec fn number_setting(given: Option<String>, default: nat, max: nat) -> Option<nat> {
    match given {
        Some(text) => number(text@, max),
        None => Some(default),
    }
}

fn text_or(given: Option<String>, default: &str) -> (text: String)
    ensures
        text@ == text_setting(given, default@),
{
    match given {
        Some(text) => text,
        None => default.to_owned(),
    }
}

fn number_or(given: &Option<String>, default: u64, max: u64) -> (parsed: Option<u64>)
    ensures
        match parsed {
            Some(n) => number_setting(*given, default as nat, max as nat) == Some(n as nat),
            None => number_setting(*given, default as nat, max as nat) is None,
        },
        default <= max ==> (parsed matches Some(n) ==> n <= max),
{
    match given {
        Some(text) => parse_number(text.as_str(), max),
        None => Some(default),
    }
}

impl Config {
    /// The settings out of the texts given for them, each of which may be
    /// missing; `None` if a number is spelt wrongly or does not fit.
    pub fn from_vars(
        redis_url: Option<String>,
        database_url: Option<String>,
        memory_cache_ttl: Option<String>,
        redis_cache_ttl: Option<String>,
        max_memory_items: Option<String>,
    ) -> (config: Option<Config>)
        ensures
            match config {
                Some(config) => {
                    &&& config.redis_url@ == text_setting(redis_url, "redis://127.0.0.1/"@)
                    &&& config.database_url@ == text_setting(
                        database_url,
                        "postgres://localhost/cache"@,
                    )
                    &&& number_setting(memory_cache_ttl, 60, u64::MAX as nat) == Some(
                        config.memory_cache_ttl as nat,
                    )
                    &&& number_setting(redis_cache_ttl, 300, u64::MAX as nat) == Some(
                        config.redis_cache_ttl as nat,
                    )
                    &&& number_setting(max_memory_items, 10000, usize::MAX as nat) == Some(
                        config.max_memory_items as nat,
                    )
                },
                None => {
                    ||| number_setting(memory_cache_ttl, 60, u64::MAX as nat) is None
                    ||| number_setting(redis_cache_ttl, 300, u64::MAX as nat) is None
                    ||| number_setting(max_memory_items, 10000, usize::MAX as nat) is None
                },
            },
    {
        let memory_ttl: u64 = match number_or(&memory_cache_ttl, 60, u64::MAX) {
            Some(n) => n,
            None => {
                return None;
            },
        };
        let redis_ttl: u64 = match number_or(&redis_cache_ttl, 300, u64::MAX) {
            Some(n) => n,
            None => {
                return None;
            },
        };
        let max_items: u64 = match number_or(&max_memory_items, 10000, usize::MAX as u64) {
            Some(n) => n,
            None => {
                return None;
            },
        };
        Some(
            Config {
                redis_url: text_or(redis_url, "redis://127.0.0.1/"),
                database_url: text_or(database_url, "postgres://localhost/cache"),
                memory_cache_ttl: memory_ttl,
                redis_cache_ttl: redis_ttl,
                max_memory_items: max_items as usize,
            },
        )
    }
}

/// Settings that were given are taken as they are given, and those that were not
/// have their defaults.
pub proof fn law_settings_are_what_was_given(
    redis_url: Option<String>,
    database_url: Option<String>,
    memory_cache_ttl: Option<String>,
    redis_cache_ttl: Option<String>,
    max_memory_items: Option<String>,
    config: Option<Config>,
)
    requires
        call_ensures(
            Config::from_vars,
            (redis_url, database_url, memory_cache_ttl, redis_cache_ttl, max_memory_items),
            config,
        ),
        config is Some,
    ensures
        redis_url matches Some(url) ==> config->Some_0.redis_url@ == url@,
        redis_url is None ==> config->Some_0.redis_url@ == "redis://127.0.0.1/"@,
        database_url matches Some(url) ==> config->Some_0.database_url@ == url@,
        database_url is None ==> config->Some_0.database_url@ == "postgres://localhost/cache"@,
        memory_cache_ttl matches Some(text) ==> number(text@, u64::MAX as nat) == Some(
            config->Some_0.memory_cache_ttl as nat,
        ),
        memory_cache_ttl is None ==> config->Some_0.memory_cache_ttl == 60,
        redis_cache_ttl matches Some(text) ==> number(text@, u64::MAX as nat) == Some(
            config->Some_0.redis_cache_ttl as nat,
        ),
        redis_cache_ttl is None ==> config->Some_0.redis_cache_ttl == 300,
        max_memory_items matches Some(text) ==> number(text@, usize::MAX as nat) == Some(
            config->Some_0.max_memory_items as nat,
        ),
        max_memory_items is None ==> config->Some_0.max_memory_items == 10000,
{
}

/// Settings are refused if and only if one of the three numbers was given and its
/// text does not spell one that fits.
pub proof fn law_settings_are_refused_for_a_number(
    redis_url: Option<String>,
    database_url: Option<String>,
    memory_cache_ttl: Option<String>,
    redis_cache_ttl: Option<String>,
    max_memory_items: Option<String>,
    config: Option<Config>,
)
    requires
        call_ensures(
            Config::from_vars,
            (redis_url, database_url, memory_cache_ttl, redis_cache_ttl, max_memory_items),
            config,
        ),
    ensures
        config is None <==> {
            ||| memory_cache_ttl matches Some(text) && number(text@, u64::MAX as nat) is None
            ||| redis_cache_ttl matches Some(text) && number(text@, u64::MAX as nat) is None
            ||| max_memory_items matches Some(text) && number(text@, usize::MAX as nat) is None
        },
{
}

} // verus!
