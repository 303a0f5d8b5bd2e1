use remote_dictionary::cache::Cache;
use remote_dictionary::cache::CacheError;

#[test]
fn put_then_get_returns_value() {
    let mut c = Cache::new(256, 256);
    assert_eq!(c.put("alpha".to_string(), "one".to_string()), Ok(()));
    assert_eq!(c.get("alpha"), Ok("one".to_string()));
}

#[test]
fn get_never_inserted_is_not_found() {
    let mut c = Cache::new(256, 256);
    assert_eq!(c.get("ghost"), Err(CacheError::KeyNotFound));
}

#[test]
fn get_evicted_key_is_not_found() {
    let mut c = Cache::new(256, 256);
    assert_eq!(c.put("alpha".to_string(), "one".to_string()), Ok(()));
    assert_eq!(c.evict_lru(1), 1);
    assert_eq!(c.get("alpha"), Err(CacheError::KeyNotFound));
}

#[test]
fn oversize_key_fails_and_leaves_store_unchanged() {
    let mut c = Cache::new(4, 256);
    assert_eq!(c.put("ok".to_string(), "v".to_string()), Ok(()));
    let big_key = "k".repeat(5);
    assert_eq!(c.put(big_key, "v".to_string()), Err(CacheError::KeyTooLarge));
    assert_eq!(c.len(), 1);
    assert_eq!(c.get("ok"), Ok("v".to_string()));
}

#[test]
fn oversize_value_fails_and_leaves_store_unchanged() {
    let mut c = Cache::new(256, 4);
    assert_eq!(c.put("ok".to_string(), "v".to_string()), Ok(()));
    let big_value = "v".repeat(5);
    assert_eq!(c.put("ok2".to_string(), big_value), Err(CacheError::ValueTooLarge));
    assert_eq!(c.len(), 1);
    assert_eq!(c.get("ok2"), Err(CacheError::KeyNotFound));
}

#[test]
fn oversize_key_is_reported_before_oversize_value() {
    let mut c = Cache::new(4, 4);
    let big_key = "k".repeat(5);
    let big_value = "v".repeat(5);
    assert_eq!(c.put(big_key, big_value), Err(CacheError::KeyTooLarge));
}

#[test]
fn eviction_removes_true_least_recently_used() {
    let mut c = Cache::new(256, 256);
    assert_eq!(c.put("a".to_string(), "1".to_string()), Ok(()));
    assert_eq!(c.put("b".to_string(), "2".to_string()), Ok(()));
    assert_eq!(c.put("c".to_string(), "3".to_string()), Ok(()));
    // Accessing "a" makes "b" the least recently used entry.
    assert_eq!(c.get("a"), Ok("1".to_string()));
    assert_eq!(c.evict_lru(1), 1);
    assert_eq!(c.get("b"), Err(CacheError::KeyNotFound));
    assert_eq!(c.get("a"), Ok("1".to_string()));
    assert_eq!(c.get("c"), Ok("3".to_string()));
}

#[test]
fn overwrite_keeps_entry_count_and_second_value_wins() {
    let mut c = Cache::new(256, 256);
    assert_eq!(c.put("k".to_string(), "v1".to_string()), Ok(()));
    assert_eq!(c.len(), 1);
    assert_eq!(c.put("k".to_string(), "v2".to_string()), Ok(()));
    assert_eq!(c.len(), 1);
    assert_eq!(c.get("k"), Ok("v2".to_string()));
}

#[test]
fn evict_on_empty_store_removes_nothing() {
    let mut c = Cache::new(256, 256);
    assert_eq!(c.evict_lru(7), 0);
    assert_eq!(c.len(), 0);
}

#[test]
fn evict_stops_when_store_becomes_empty() {
    let mut c = Cache::new(256, 256);
    assert_eq!(c.put("a".to_string(), "1".to_string()), Ok(()));
    assert_eq!(c.put("b".to_string(), "2".to_string()), Ok(()));
    assert_eq!(c.evict_lru(10), 2);
    assert_eq!(c.len(), 0);
}

#[test]
fn boundary_sizes_at_the_ceiling() {
    let mut c = Cache::new(256, 256);
    assert_eq!(c.put("k".to_string(), "v".to_string()), Ok(()));
    let long_key = "k".repeat(257);
    assert_eq!(c.put(long_key, "v".to_string()), Err(CacheError::KeyTooLarge));
    let exact_key = "k".repeat(256);
    assert_eq!(c.put(exact_key.clone(), "v".to_string()), Ok(()));
    assert_eq!(c.get(&exact_key), Ok("v".to_string()));
}

#[test]
fn error_messages() {
    assert_eq!(CacheError::KeyNotFound.message(), "key not found");
    assert_eq!(CacheError::KeyTooLarge.message(), "key exceeds maximum length");
    assert_eq!(CacheError::ValueTooLarge.message(), "value exceeds maximum length");
}

#[test]
fn byte_lengths_not_character_counts_are_limited() {
    // A two-byte UTF-8 character: the key fits one character but two bytes.
    let mut c = Cache::new(1, 256);
    assert_eq!(c.put("é".to_string(), "v".to_string()), Err(CacheError::KeyTooLarge));
    let mut wider = Cache::new(2, 256);
    assert_eq!(wider.put("é".to_string(), "v".to_string()), Ok(()));
}
