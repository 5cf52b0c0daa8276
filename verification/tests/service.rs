use std::collections::HashMap;
use tiered_cache::config::Config;
use tiered_cache::error::CacheError;
use tiered_cache::http::{
    delete_cached_data, get_cached_data, health_check, set_cached_data, Response,
};
use tiered_cache::database::{DELETE_DATA, SELECT_DATA, UPSERT_DATA};
use tiered_cache::memory::ClockWentBack;
use tiered_cache::redis_pool::RedisPool;
use tiered_cache::service::{CacheService, GetStep};
use tiered_cache::time::Timestamp;

fn text(s: &str) -> Option<String> {
    Some(s.to_string())
}

fn config() -> Config {
    Config::from_vars(None, None, None, None, None).unwrap()
}

fn service() -> CacheService {
    CacheService::new(config()).unwrap()
}

fn at(secs: u64) -> Timestamp {
    Timestamp::since_epoch(secs, 0)
}

fn bare(status: u16) -> Response {
    Response { status, body: vec![] }
}

#[test]
fn settings_have_defaults() {
    let config = config();
    assert_eq!(config.redis_url, "redis://127.0.0.1/");
    assert_eq!(config.database_url, "postgres://localhost/cache");
    assert_eq!(config.memory_cache_ttl, 60);
    assert_eq!(config.redis_cache_ttl, 300);
    assert_eq!(config.max_memory_items, 10000);
}

#[test]
fn settings_are_read_from_their_texts() {
    let config = Config::from_vars(
        text("redis://r/"),
        text("postgres://d/"),
        text("5"),
        text("+6"),
        text("07"),
    )
    .unwrap();
    assert_eq!(config.redis_url, "redis://r/");
    assert_eq!(config.database_url, "postgres://d/");
    assert_eq!(config.memory_cache_ttl, 5);
    assert_eq!(config.redis_cache_ttl, 6);
    assert_eq!(config.max_memory_items, 7);
}

#[test]
fn misspelt_settings_are_refused() {
    assert!(Config::from_vars(None, None, text("soon"), None, None).is_none());
    assert!(Config::from_vars(None, None, None, text("-1"), None).is_none());
    assert!(Config::from_vars(None, None, None, None, text("")).is_none());
    assert!(Config::from_vars(None, None, None, None, text("18446744073709551616")).is_none());
}

#[test]
fn service_is_set_up_by_its_settings() {
    let service = service();
    assert_eq!(service.memory_cache.len(), 0);
    assert_eq!(service.redis_pool.url, "redis://127.0.0.1/");
    assert_eq!(service.redis_pool.max_size, 100);
    assert_eq!(service.db.url, "postgres://localhost/cache");
    assert_eq!(service.db.max_connections, 100);
    assert_eq!(service.config.redis_cache_ttl, 300);
}

#[test]
fn service_refuses_a_bad_redis_url() {
    let config = Config::from_vars(text("nonsense"), None, None, None, None).unwrap();
    match CacheService::new(config) {
        Err(CacheError::Redis(text)) => {
            assert_eq!(text, "Redis URL did not parse- InvalidClientConfig")
        }
        _ => panic!("taken"),
    }
}

#[test]
fn service_starts_only_with_both_stores() {
    assert!(service().after_redis(Ok(())).unwrap().after_database(Ok(())).is_ok());
    match service().after_redis(Err("refused".to_string())) {
        Err(e) => assert_eq!(
            e,
            CacheError::Redis("Pool creation failed - IoError: refused".to_string())
        ),
        Ok(_) => panic!("started"),
    }
    match service().after_database(Err("unreachable".to_string())) {
        Err(e) => assert_eq!(e, CacheError::Database("unreachable".to_string())),
        Ok(_) => panic!("started"),
    }
}

#[test]
fn service_hands_on_the_error_of_its_pool() {
    let refused = RedisPool::from_check("r", Err("no".to_string()));
    match CacheService::with_pool(config(), refused) {
        Err(e) => assert_eq!(e, CacheError::Redis("no".to_string())),
        Ok(_) => panic!("taken"),
    }
}

#[test]
fn read_of_a_key_in_memory_asks_no_store() {
    let mut service = service();
    service.fill_at("k".to_string(), vec![1], at(100));
    match service.get_at("k", at(101)) {
        GetStep::Found(data) => assert_eq!(data, vec![1]),
        _ => panic!("asked the stores"),
    }
}

#[test]
fn read_of_an_expired_key_asks_both_stores() {
    let mut service = service();
    service.fill_at("k".to_string(), vec![1], at(100));
    match service.get_at("k", at(160)) {
        GetStep::Fetch { redis, database } => {
            assert_eq!(redis.get_packed_command(), b"*2\r\n$3\r\nGET\r\n$1\r\nk\r\n".to_vec());
            assert_eq!(database.sql, SELECT_DATA);
            assert_eq!(database.key, "k");
            assert_eq!(database.data, None);
        }
        _ => panic!("served an expired key"),
    }
}

#[test]
fn clock_driven_read() {
    let mut service = service();
    service.fill("k".to_string(), vec![1]);
    assert!(matches!(service.get("k"), Ok(GetStep::Found(data)) if data == vec![1]));
    assert!(matches!(service.get("other"), Ok(GetStep::Fetch { .. })));
    service.fill_at("late".to_string(), vec![2], at(u64::MAX));
    assert!(matches!(service.get("late"), Err(ClockWentBack)));
}

#[test]
fn redis_comes_before_the_database() {
    let service = service();
    let end = service.finish_get("k", Ok(Some(vec![1])), Ok(Some(vec![2])));
    assert_eq!(end.result, Ok(vec![1]));
    let fill = end.fill.unwrap();
    assert!(fill.redis.is_none());
    assert_eq!((fill.key.as_str(), fill.data), ("k", vec![1]));
    let end = service.finish_get("k", Ok(Some(vec![1])), Err("down".to_string()));
    assert_eq!(end.result, Ok(vec![1]));
}

#[test]
fn database_is_used_where_redis_has_nothing_or_fails() {
    let service = service();
    for redis in [Ok(None), Err("down".to_string())] {
        let end = service.finish_get("k", redis, Ok(Some(vec![2])));
        assert_eq!(end.result, Ok(vec![2]));
        let fill = end.fill.unwrap();
        assert_eq!(
            fill.redis.unwrap().get_packed_command(),
            b"*4\r\n$5\r\nSETEX\r\n$1\r\nk\r\n$3\r\n300\r\n$1\r\n\x02\r\n".to_vec()
        );
        assert_eq!((fill.key.as_str(), fill.data), ("k", vec![2]));
    }
}

#[test]
fn read_of_an_unknown_key_is_refused() {
    let service = service();
    for redis in [Ok(None), Err("down".to_string())] {
        let end = service.finish_get("k", redis, Ok(None));
        assert_eq!(end.result, Err(CacheError::NotFound("k".to_string())));
        assert!(end.fill.is_none());
        assert_eq!(get_cached_data(end.result), bare(404));
    }
}

#[test]
fn failure_of_the_database_shows_in_a_read() {
    let service = service();
    let end = service.finish_get("k", Ok(None), Err("broken".to_string()));
    assert_eq!(end.result, Err(CacheError::Database("broken".to_string())));
    assert!(end.fill.is_none());
    assert_eq!(get_cached_data(end.result), bare(500));
}

#[test]
fn what_a_read_found_is_in_memory_for_the_next() {
    let mut service = service();
    let end = service.finish_get("k", Ok(None), Ok(Some(vec![2])));
    let fill = end.fill.unwrap();
    service.fill_at(fill.key, fill.data, at(10));
    match service.get_at("k", at(69)) {
        GetStep::Found(data) => assert_eq!(Ok(data), end.result),
        _ => panic!("not in memory"),
    }
}

#[test]
fn write_goes_to_every_tier() {
    let mut service = service();
    let value = b"{\"some\":\"data\"}".to_vec();
    let step = service.set("mykey", &value);
    assert_eq!(step.database.sql, UPSERT_DATA);
    assert_eq!(step.database.key, "mykey");
    assert_eq!(step.database.data, Some(value.clone()));
    assert_eq!(
        step.redis.get_packed_command(),
        b"*4\r\n$5\r\nSETEX\r\n$5\r\nmykey\r\n$3\r\n300\r\n$15\r\n{\"some\":\"data\"}\r\n".to_vec()
    );
    let result = service.finish_set_at("mykey".to_string(), value.clone(), Ok(()), Ok(()), at(5));
    assert_eq!(result, Ok(()));
    assert_eq!(set_cached_data(result), bare(200));
    match service.get_at("mykey", at(6)) {
        GetStep::Found(data) => {
            assert_eq!(
                get_cached_data(Ok(data)),
                Response { status: 200, body: value }
            )
        }
        _ => panic!("not in memory"),
    }
}

#[test]
fn failed_write_reports_the_database_first_and_still_fills_memory() {
    let mut service = service();
    let down = || Err("redis".to_string());
    let broken = || Err("database".to_string());
    let result = service.finish_set_at("a".to_string(), vec![1], broken(), down(), at(1));
    assert_eq!(result, Err(CacheError::Database("database".to_string())));
    let result = service.finish_set_at("b".to_string(), vec![2], Ok(()), down(), at(1));
    assert_eq!(result, Err(CacheError::Redis("redis".to_string())));
    assert_eq!(set_cached_data(result), bare(500));
    let result = service.finish_set("c".to_string(), vec![3], broken(), Ok(()));
    assert_eq!(result, Err(CacheError::Database("database".to_string())));
    assert!(matches!(service.get_at("a", at(2)), GetStep::Found(d) if d == vec![1]));
    assert!(matches!(service.get_at("b", at(2)), GetStep::Found(d) if d == vec![2]));
    assert!(matches!(service.get("c"), Ok(GetStep::Found(d)) if d == vec![3]));
}

#[test]
fn delete_goes_through_the_tiers_in_turn() {
    let mut service = service();
    service.fill_at("k".to_string(), vec![1], at(1));
    service.fill_at("other".to_string(), vec![2], at(1));
    let statement = service.delete("k");
    assert_eq!((statement.sql, statement.key.as_str()), (DELETE_DATA, "k"));
    let command = service.delete_from_redis("k", Ok(())).unwrap();
    assert_eq!(command.get_packed_command(), b"*2\r\n$3\r\nDEL\r\n$1\r\nk\r\n".to_vec());
    let result = service.finish_delete("k", Ok(()));
    assert_eq!(result, Ok(()));
    assert_eq!(delete_cached_data(result), bare(200));
    assert!(matches!(service.get_at("k", at(2)), GetStep::Fetch { .. }));
    assert!(matches!(service.get_at("other", at(2)), GetStep::Found(_)));
}

#[test]
fn failed_delete_leaves_memory_alone() {
    let mut service = service();
    service.fill_at("k".to_string(), vec![1], at(1));
    match service.delete_from_redis("k", Err("broken".to_string())) {
        Err(e) => assert_eq!(e, CacheError::Database("broken".to_string())),
        Ok(_) => panic!("went on"),
    }
    let result = service.finish_delete("k", Err("down".to_string()));
    assert_eq!(result, Err(CacheError::Redis("down".to_string())));
    assert_eq!(delete_cached_data(result), bare(500));
    assert!(matches!(service.get_at("k", at(2)), GetStep::Found(d) if d == vec![1]));
}

#[test]
fn deleted_key_is_answered_not_found() {
    let mut service = service();
    service.fill_at("k".to_string(), vec![1], at(1));
    service.finish_delete("k", Ok(())).unwrap();
    assert!(matches!(service.get_at("k", at(2)), GetStep::Fetch { .. }));
    let end = service.finish_get("k", Ok(None), Ok(None));
    assert_eq!(get_cached_data(end.result), bare(404));
}

#[test]
fn health_is_answered_ok() {
    assert_eq!(health_check(), bare(200));
}

#[test]
fn errors_in_words() {
    let s = || "x".to_string();
    assert_eq!(CacheError::Redis(s()).message(), "Redis error: x");
    assert_eq!(CacheError::Database(s()).message(), "Database error: x");
    assert_eq!(CacheError::NotFound(s()).message(), "Item not found: x");
    assert_eq!(CacheError::Serialization(s()).message(), "Serialization error: x");
    assert_eq!(get_cached_data(Err(CacheError::Redis(s()))), bare(500));
    assert_eq!(get_cached_data(Err(CacheError::Serialization(s()))), bare(500));
}

/// A service with stores that do as they are told.
struct World {
    service: CacheService,
    redis: HashMap<String, Vec<u8>>,
    database: HashMap<String, Vec<u8>>,
}

impl World {
    fn set(&mut self, key: &str, value: &[u8], secs: u64) {
        let step = self.service.set(key, &value.to_vec());
        self.database.insert(step.database.key, step.database.data.unwrap());
        self.redis.insert(key.to_string(), value.to_vec());
        let key = key.to_string();
        self.service.finish_set_at(key, value.to_vec(), Ok(()), Ok(()), at(secs)).unwrap();
    }

    fn delete(&mut self, key: &str) {
        let statement = self.service.delete(key);
        self.database.remove(&statement.key);
        self.service.delete_from_redis(key, Ok(())).unwrap();
        self.redis.remove(key);
        self.service.finish_delete(key, Ok(())).unwrap();
    }

    fn get(&mut self, key: &str, secs: u64) -> Result<Vec<u8>, CacheError> {
        let database = match self.service.get_at(key, at(secs)) {
            GetStep::Found(data) => return Ok(data),
            GetStep::Fetch { database, .. } => database,
        };
        let end = self.service.finish_get(
            key,
            Ok(self.redis.get(key).cloned()),
            Ok(self.database.get(&database.key).cloned()),
        );
        if let Some(fill) = end.fill {
            if fill.redis.is_some() {
                self.redis.insert(fill.key.clone(), fill.data.clone());
            }
            self.service.fill_at(fill.key, fill.data, at(secs));
        }
        end.result
    }
}

#[test]
fn reads_show_the_database_throughout_a_run() {
    let config = Config::from_vars(None, None, text("10"), None, text("2")).unwrap();
    let mut world = World {
        service: CacheService::new(config).unwrap(),
        redis: HashMap::new(),
        database: HashMap::new(),
    };
    world.database.insert("old".to_string(), vec![0]);
    let keys = ["old", "a", "b", "c", "d"];
    for secs in 0..60u64 {
        let key = keys[(secs * 7 % 5) as usize];
        match secs % 4 {
            0 | 1 => world.set(key, &[secs as u8], secs),
            2 => world.delete(key),
            _ => world.redis.clear(),
        }
        for key in keys {
            let expected = match world.database.get(key) {
                Some(data) => Ok(data.clone()),
                None => Err(CacheError::NotFound(key.to_string())),
            };
            assert_eq!(world.get(key, secs), expected);
        }
        assert!(world.service.memory_cache.len() <= 2);
    }
}

#[test]
fn half_done_steps_on_other_keys_are_not_seen() {
    let mut world = World {
        service: service(),
        redis: HashMap::new(),
        database: HashMap::new(),
    };
    world.set("k", b"1", 0);
    world.set("gone", b"2", 0);
    world.delete("gone");
    let write = world.service.set("other", &vec![3]);
    world.database.insert(write.database.key, vec![3]);
    assert_eq!(world.get("k", 1), Ok(b"1".to_vec()));
    assert_eq!(world.get("other", 1), Ok(vec![3]));
    world.database.remove("other");
    world.service.delete_from_redis("other", Ok(())).unwrap();
    assert_eq!(world.get("k", 2), Ok(b"1".to_vec()));
    world.delete("gone");
    let failed = world.service.delete_from_redis("gone", Err("broken".to_string()));
    assert!(failed.is_err());
    assert_eq!(world.get("gone", 3), Err(CacheError::NotFound("gone".to_string())));
    assert_eq!(world.get("k", 3), Ok(b"1".to_vec()));
}
