use tiered_cache::memory::{ClockWentBack, MemoryCache};
use tiered_cache::time::{Duration, Timestamp};

fn at(secs: u64) -> Timestamp {
    Timestamp::since_epoch(secs, 0)
}

fn filled(max_items: usize, keys: &[(&str, u64)]) -> MemoryCache {
    let mut cache = MemoryCache::new(Duration::from_secs(60), max_items);
    for (key, secs) in keys {
        cache.set_at(key.to_string(), key.as_bytes().to_vec(), at(*secs));
    }
    cache
}

#[test]
fn new_cache_is_empty() {
    let cache = MemoryCache::new(Duration::from_secs(60), 10);
    assert_eq!(cache.len(), 0);
    assert_eq!(cache.get_at("a", at(5)), None);
    assert_eq!(cache.get("a"), Ok(None));
}

#[test]
fn read_after_write_gives_the_value() {
    let cache = filled(10, &[("a", 100)]);
    assert_eq!(cache.get_at("a", at(100)), Some(b"a".to_vec()));
    assert_eq!(cache.get_at("a", at(159)), Some(b"a".to_vec()));
    assert_eq!(cache.get_at("b", at(100)), None);
}

#[test]
fn entry_expires_at_its_time_to_live() {
    let cache = filled(10, &[("a", 100)]);
    let last = Timestamp::since_epoch(159, 999_999_999);
    assert_eq!(cache.get_at("a", last), Some(b"a".to_vec()));
    assert_eq!(cache.get_at("a", at(160)), None);
    assert_eq!(cache.get_at("a", at(10_000)), None);
    assert_eq!(cache.len(), 1);
}

#[test]
fn zero_time_to_live_serves_nothing() {
    let mut cache = MemoryCache::new(Duration::from_secs(0), 10);
    cache.set_at("a".to_string(), vec![1], at(7));
    assert_eq!(cache.get_at("a", at(7)), None);
    cache.set("b".to_string(), vec![1]);
    assert_ne!(cache.get("b"), Ok(Some(vec![1])));
}

#[test]
fn write_with_room_keeps_other_keys() {
    let mut cache = filled(3, &[("a", 1), ("b", 2)]);
    cache.set_at("c".to_string(), vec![9], at(3));
    assert_eq!(cache.len(), 3);
    assert_eq!(cache.get_at("a", at(3)), Some(b"a".to_vec()));
    assert_eq!(cache.get_at("b", at(3)), Some(b"b".to_vec()));
}

#[test]
fn full_cache_evicts_the_oldest() {
    let mut cache = filled(3, &[("b", 2), ("a", 1), ("c", 3)]);
    cache.set_at("d".to_string(), vec![4], at(4));
    assert_eq!(cache.len(), 3);
    assert_eq!(cache.get_at("a", at(4)), None);
    assert_eq!(cache.get_at("b", at(4)), Some(b"b".to_vec()));
    assert_eq!(cache.get_at("c", at(4)), Some(b"c".to_vec()));
    assert_eq!(cache.get_at("d", at(4)), Some(vec![4]));
}

#[test]
fn equally_old_entries_lose_just_one() {
    let mut cache = filled(2, &[("a", 1), ("b", 1)]);
    cache.set_at("c".to_string(), vec![3], at(1));
    assert_eq!(cache.len(), 2);
    let a = cache.get_at("a", at(1));
    let b = cache.get_at("b", at(1));
    assert!(a.is_some() != b.is_some());
}

#[test]
fn overwrite_in_a_full_cache_still_evicts_the_oldest() {
    let mut cache = filled(2, &[("a", 1), ("b", 2)]);
    cache.set_at("b".to_string(), vec![7], at(3));
    assert_eq!(cache.len(), 1);
    assert_eq!(cache.get_at("a", at(3)), None);
    assert_eq!(cache.get_at("b", at(3)), Some(vec![7]));
}

#[test]
fn overwrite_with_room_replaces_value_and_instant() {
    let mut cache = filled(5, &[("a", 1), ("b", 2)]);
    cache.set_at("a".to_string(), vec![7], at(50));
    assert_eq!(cache.len(), 2);
    assert_eq!(cache.get_at("a", at(100)), Some(vec![7]));
    assert_eq!(cache.get_at("b", at(100)), None);
}

#[test]
fn capacity_of_zero_holds_one_entry() {
    let mut cache = MemoryCache::new(Duration::from_secs(60), 0);
    cache.set_at("a".to_string(), vec![1], at(1));
    assert_eq!(cache.len(), 1);
    cache.set_at("b".to_string(), vec![2], at(2));
    assert_eq!(cache.len(), 1);
    assert_eq!(cache.get_at("a", at(2)), None);
    assert_eq!(cache.get_at("b", at(2)), Some(vec![2]));
}

#[test]
fn many_writes_stay_within_the_bound() {
    let mut cache = MemoryCache::new(Duration::from_secs(1000), 8);
    for i in 0..100u64 {
        cache.set_at(format!("k{}", i), vec![i as u8], at(i));
        assert!(cache.len() <= 8);
    }
    for i in 0..100u64 {
        let expected = if i >= 92 { Some(vec![i as u8]) } else { None };
        assert_eq!(cache.get_at(&format!("k{}", i), at(100)), expected);
    }
}

#[test]
fn removed_key_is_gone_and_others_stay() {
    let mut cache = filled(5, &[("a", 1), ("b", 2), ("c", 3)]);
    cache.remove("a");
    assert_eq!(cache.len(), 2);
    assert_eq!(cache.get_at("a", at(4)), None);
    assert_eq!(cache.get_at("b", at(4)), Some(b"b".to_vec()));
    assert_eq!(cache.get_at("c", at(4)), Some(b"c".to_vec()));
    cache.remove("nothing");
    assert_eq!(cache.len(), 2);
    cache.remove("c");
    cache.remove("b");
    assert_eq!(cache.len(), 0);
}

#[test]
fn clock_that_went_back_is_noticed() {
    let cache = filled(5, &[("a", 100)]);
    assert!(cache.stored_after("a", at(99)));
    assert!(!cache.stored_after("a", at(100)));
    assert!(!cache.stored_after("b", at(0)));
}

#[test]
fn read_before_the_stored_instant_fails() {
    let mut cache = MemoryCache::new(Duration::from_secs(60), 5);
    cache.set_at("a".to_string(), vec![1], Timestamp::since_epoch(u64::MAX, 0));
    assert_eq!(cache.get("a"), Err(ClockWentBack));
    assert_eq!(cache.get("b"), Ok(None));
}

#[test]
fn clock_driven_write_is_read_back() {
    let mut cache = MemoryCache::new(Duration::from_secs(3600), 5);
    cache.set("a".to_string(), b"value".to_vec());
    assert_eq!(cache.get("a"), Ok(Some(b"value".to_vec())));
    assert_eq!(cache.get("b"), Ok(None));
}

#[test]
fn entry_stored_long_ago_is_not_served_by_the_clock() {
    let mut cache = MemoryCache::new(Duration::from_secs(3600), 5);
    cache.set_at("a".to_string(), vec![1], at(0));
    assert_eq!(cache.get("a"), Ok(None));
}
