use history_core::result_cache::{
    classify_backend_error, read_result_or_miss, BackendErrorKind, CacheError, MemoryCache,
};

#[test]
fn test_round_trip_within_ttl() {
    let mut cache = MemoryCache::new();
    cache.set("history:url:abc", "{\"items\":[1]}", 60, 0);
    assert_eq!(cache.get("history:url:abc", 0), Some("{\"items\":[1]}".to_string()));
    assert_eq!(cache.get("history:url:abc", 59), Some("{\"items\":[1]}".to_string()));
    assert!(cache.contains("history:url:abc", 59));
}

#[test]
fn test_expired_entry_reads_as_absent() {
    let mut cache = MemoryCache::new();
    cache.set("k", "v", 60, 100);
    // from the expiry on the key reads as not found, not as an error
    assert_eq!(cache.get("k", 160), None);
    assert!(!cache.contains("k", 160));
}

#[test]
fn test_set_replaces_and_leaves_other_keys() {
    let mut cache = MemoryCache::new();
    cache.set("a", "1", 60, 0);
    cache.set("b", "2", 60, 0);
    cache.set("a", "3", 60, 10);
    assert_eq!(cache.get("a", 20), Some("3".to_string()));
    assert_eq!(cache.get("b", 20), Some("2".to_string()));
}

#[test]
fn test_delete_and_clear() {
    let mut cache = MemoryCache::new();
    cache.set("a", "1", 60, 0);
    cache.set("b", "2", 60, 0);
    cache.delete("a");
    assert_eq!(cache.get("a", 1), None);
    assert_eq!(cache.get("b", 1), Some("2".to_string()));
    cache.delete("missing");
    cache.clear();
    assert_eq!(cache.get("b", 1), None);
    assert!(!cache.contains("b", 1));
}

#[test]
fn test_errors_read_as_miss() {
    let hit: Result<Option<String>, CacheError> = Ok(Some("v".to_string()));
    assert_eq!(read_result_or_miss(hit), Some("v".to_string()));
    let miss: Result<Option<String>, CacheError> = Ok(None);
    assert_eq!(read_result_or_miss(miss), None);
    let down: Result<Option<String>, CacheError> =
        Err(CacheError::Connection("refused".to_string()));
    assert_eq!(read_result_or_miss(down), None);
}

#[test]
fn test_classify_backend_error() {
    assert!(matches!(
        classify_backend_error(BackendErrorKind::Io, "broken pipe".to_string()),
        CacheError::Connection(_)
    ));
    assert!(matches!(
        classify_backend_error(BackendErrorKind::Type, "not a string".to_string()),
        CacheError::Serialization(_)
    ));
    assert!(matches!(
        classify_backend_error(BackendErrorKind::Other, "moved".to_string()),
        CacheError::General(_)
    ));
}
