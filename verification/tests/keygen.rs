use history_core::keygen::CacheKeyGenerator;

#[test]
fn test_cache_key_generation() {
    let key = CacheKeyGenerator::history_search_key(
        &Some("test".to_string()),
        &Some("example.com".to_string()),
        &Some("2024-01-01".to_string()),
        &Some("2024-12-31".to_string()),
        1,
        30,
    );
    assert_eq!(key, "history:url:5bdad424fc25c0ff");

    let again = CacheKeyGenerator::history_search_key(
        &Some("test".to_string()),
        &Some("example.com".to_string()),
        &Some("2024-01-01".to_string()),
        &Some("2024-12-31".to_string()),
        1,
        30,
    );
    assert_eq!(key, again);
}

#[test]
fn test_cache_key_generation_with_none_values() {
    let key = CacheKeyGenerator::history_search_key(&None, &None, &None, &None, 1, 30);
    assert_eq!(key, "history:url:6e92cc34cabcce8f");

    let again = CacheKeyGenerator::history_search_key(&None, &None, &None, &None, 1, 30);
    assert_eq!(key, again);
}

#[test]
fn test_cache_key_absent_equals_empty() {
    let with_empty = CacheKeyGenerator::history_search_key(
        &Some(String::new()),
        &Some(String::new()),
        &Some(String::new()),
        &Some(String::new()),
        1,
        30,
    );
    let with_none = CacheKeyGenerator::history_search_key(&None, &None, &None, &None, 1, 30);
    assert_eq!(with_empty, with_none);

    let mixed = CacheKeyGenerator::history_search_key(
        &Some("test".to_string()),
        &Some(String::new()),
        &None,
        &None,
        1,
        30,
    );
    let mixed_none = CacheKeyGenerator::history_search_key(
        &Some("test".to_string()),
        &None,
        &Some(String::new()),
        &None,
        1,
        30,
    );
    assert_eq!(mixed, mixed_none);
}

#[test]
fn test_cache_key_distinguishes_queries() {
    let a = CacheKeyGenerator::history_search_key(&Some("a".to_string()), &None, &None, &None, 1, 30);
    let b = CacheKeyGenerator::history_search_key(&Some("b".to_string()), &None, &None, &None, 1, 30);
    assert_ne!(a, b);

    let page1 = CacheKeyGenerator::history_search_key(&None, &None, &None, &None, 1, 30);
    let page2 = CacheKeyGenerator::history_search_key(&None, &None, &None, &None, 2, 30);
    assert_ne!(page1, page2);
}

#[test]
fn test_hash_string_deterministic() {
    let a = CacheKeyGenerator::hash_string("history");
    let b = CacheKeyGenerator::hash_string("history");
    assert_eq!(a, b);
    // the empty string hashes to the fold's offset basis
    assert_eq!(CacheKeyGenerator::hash_string(""), 0xcbf29ce484222325u64);
    assert_ne!(CacheKeyGenerator::hash_string("a"), CacheKeyGenerator::hash_string("b"));
}

#[test]
fn test_cache_key_negative_page() {
    let key = CacheKeyGenerator::history_search_key(&None, &None, &None, &None, -1, 30);
    let again = CacheKeyGenerator::history_search_key(&None, &None, &None, &None, -1, 30);
    assert_eq!(key, again);
    assert!(key.starts_with("history:url:"));
}
