use polygon_mcp::{CacheConfig, ResponseCache};

#[test]
fn cache_disabled_by_default() {
    let config = CacheConfig::default();
    let cache = ResponseCache::new(&config);
    assert!(!cache.is_enabled());
}

#[test]
fn cache_stores_and_retrieves() {
    let config = CacheConfig::enabled();
    let mut cache = ResponseCache::new(&config);

    cache.insert(
        "https://api.test/data".to_string(),
        r#"{"result": 42}"#.to_string(),
    );

    let result = cache.get("https://api.test/data");
    assert_eq!(result, Some(r#"{"result": 42}"#.to_string()));
}

#[test]
fn cache_returns_none_when_disabled() {
    let config = CacheConfig::default();
    let mut cache = ResponseCache::new(&config);

    cache.insert(
        "https://api.test/data".to_string(),
        r#"{"result": 42}"#.to_string(),
    );

    let result = cache.get("https://api.test/data");
    assert_eq!(result, None);
}

#[test]
fn cache_invalidate_all_clears_entries() {
    let config = CacheConfig::enabled();
    let mut cache = ResponseCache::new(&config);

    cache.insert(
        "https://api.test/data".to_string(),
        r#"{"result": 42}"#.to_string(),
    );

    cache.invalidate_all();

    let result = cache.get("https://api.test/data");
    assert_eq!(result, None);
}

#[test]
fn other_keys_miss_after_insert() {
    let mut cache = ResponseCache::new(&CacheConfig::enabled());
    cache.insert("https://api.test/a".to_string(), "A".to_string());
    assert_eq!(cache.get("https://api.test/b"), None);
    assert_eq!(cache.get("https://api.test/a"), Some("A".to_string()));
}

#[test]
fn reinsert_overwrites() {
    let mut cache = ResponseCache::new(&CacheConfig::enabled().with_max_capacity(10).with_ttl(60_000));
    cache.insert("k".to_string(), "one".to_string());
    cache.insert("k".to_string(), "two".to_string());
    assert_eq!(cache.get("k"), Some("two".to_string()));
}

#[test]
fn config_builders_set_fields() {
    let config = CacheConfig::enabled().with_max_capacity(5).with_ttl(1234);
    assert_eq!((config.max_capacity, config.ttl_ms, config.enabled), (5, 1234, true));
    let defaults = CacheConfig::default();
    assert_eq!((defaults.max_capacity, defaults.ttl_ms, defaults.enabled), (1000, 60_000, false));
}

#[test]
fn huge_ttl_is_accepted() {
    let mut cache = ResponseCache::new(&CacheConfig::enabled().with_ttl(u64::MAX));
    cache.insert("k".to_string(), "v".to_string());
    assert_eq!(cache.get("k"), Some("v".to_string()));
}
