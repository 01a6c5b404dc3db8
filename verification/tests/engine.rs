use history_core::engine::{NormalizeError, UrlNormalizer};
use history_core::rules::NormalizationRule;

fn rule(id: i32, pattern: &str, replacement: &str, enabled: bool, order_index: i32) -> NormalizationRule {
    NormalizationRule {
        id,
        pattern: pattern.to_string(),
        replacement: replacement.to_string(),
        enabled,
        order_index,
        created_at: 0,
        updated_at: 0,
    }
}

#[test]
fn test_url_normalization() {
    let mut normalizer = UrlNormalizer::new();
    normalizer.install_rules(
        vec![rule(1, r"https://example\.com/video/(\d+).*", "https://example.com/video/$1", true, 1)],
        100,
    );
    let out = normalizer.normalize_url("https://example.com/video/123-hd?ref=foo", 100);
    assert_eq!(out, "https://example.com/video/123");

    let detailed = normalizer
        .normalize_url_detailed("https://example.com/video/123-hd?ref=foo", 100)
        .expect("snapshot is fresh");
    assert_eq!(detailed.original_url, "https://example.com/video/123-hd?ref=foo");
    assert_eq!(detailed.normalized_url, "https://example.com/video/123");
    assert!(detailed.matched);
    assert_eq!(detailed.applied_rule.expect("a rule matched").id, 1);
}

#[test]
fn test_regex_pattern() {
    let normalizer = UrlNormalizer::new();
    let result = normalizer
        .test_rule(
            r"https://example\.com/video/(\d+).*",
            "https://example.com/video/$1",
            "https://example.com/video/123-hd",
        )
        .expect("pattern compiles");
    assert_eq!(result.normalized_url, "https://example.com/video/123");
    assert!(result.matched);
    assert_eq!(result.original_url, "https://example.com/video/123-hd");
    assert!(result.applied_rule.is_none());
}

#[test]
fn test_first_match_wins() {
    // both rules match the input; only the first may apply
    let mut normalizer = UrlNormalizer::new();
    normalizer.install_rules(
        vec![
            rule(1, r"https://site\.com/a/(\d+).*", "https://site.com/a/$1", true, 1),
            rule(2, r"https://site\.com/.*", "https://site.com/x", true, 2),
        ],
        100,
    );
    let detailed = normalizer
        .normalize_url_detailed("https://site.com/a/42?y=1", 100)
        .expect("snapshot is fresh");
    assert_eq!(detailed.normalized_url, "https://site.com/a/42");
    assert_eq!(detailed.applied_rule.expect("first rule matched").id, 1);
}

#[test]
fn test_no_match_identity() {
    let mut normalizer = UrlNormalizer::new();
    normalizer.install_rules(vec![], 100);
    let detailed = normalizer
        .normalize_url_detailed("https://nothing.matches/here", 100)
        .expect("snapshot is fresh");
    assert_eq!(detailed.normalized_url, "https://nothing.matches/here");
    assert!(!detailed.matched);
    assert!(detailed.applied_rule.is_none());

    normalizer.install_rules(
        vec![rule(1, r"https://other\.com/.*", "https://other.com", true, 1)],
        100,
    );
    let out = normalizer.normalize_url("https://nothing.matches/here", 100);
    assert_eq!(out, "https://nothing.matches/here");
}

#[test]
fn test_disabled_rule_skipped() {
    let mut normalizer = UrlNormalizer::new();
    normalizer.install_rules(
        vec![
            rule(1, r"https://site\.com/.*", "https://site.com/first", false, 1),
            rule(2, r"https://site\.com/.*", "https://site.com/second", true, 2),
        ],
        100,
    );
    let out = normalizer.normalize_url("https://site.com/page", 100);
    assert_eq!(out, "https://site.com/second");
}

#[test]
fn test_invalid_pattern_rule_skipped() {
    let mut normalizer = UrlNormalizer::new();
    normalizer.install_rules(
        vec![
            rule(1, r"(unclosed", "broken", true, 1),
            rule(2, r"https://site\.com/(\d+).*", "https://site.com/$1", true, 2),
        ],
        100,
    );
    let out = normalizer.normalize_url("https://site.com/7?q=1", 100);
    assert_eq!(out, "https://site.com/7");
}

#[test]
fn test_rule_invalid_pattern_error() {
    let normalizer = UrlNormalizer::new();
    let result = normalizer.test_rule(r"(unclosed", "x", "https://a/b");
    assert!(matches!(result, Err(NormalizeError::InvalidPattern(_))));
}

#[test]
fn test_fail_open_without_snapshot() {
    let mut normalizer = UrlNormalizer::new();
    let out = normalizer.normalize_url("https://x/y", 1000);
    assert_eq!(out, "https://x/y");
    let detailed = normalizer.normalize_url_detailed("https://x/y", 1000);
    assert!(matches!(detailed, Err(NormalizeError::StoreUnavailable)));
}

#[test]
fn test_snapshot_expires_after_ttl() {
    let mut normalizer = UrlNormalizer::new();
    normalizer.install_rules(
        vec![rule(1, r"https://site\.com/(\d+).*", "https://site.com/$1", true, 1)],
        100,
    );
    assert!(!normalizer.needs_refresh(100));
    assert!(!normalizer.needs_refresh(399));
    // 300 seconds after capture the snapshot is stale
    assert!(normalizer.needs_refresh(400));
    // and without a refetch the engine degrades to the identity
    let out = normalizer.normalize_url("https://site.com/9?x", 400);
    assert_eq!(out, "https://site.com/9?x");
    // a fresh install serves again
    normalizer.install_rules(
        vec![rule(1, r"https://site\.com/(\d+).*", "https://site.com/$1", true, 1)],
        400,
    );
    let out = normalizer.normalize_url("https://site.com/9?x", 400);
    assert_eq!(out, "https://site.com/9");
}

#[test]
fn test_pattern_edit_takes_effect() {
    let mut normalizer = UrlNormalizer::new();
    normalizer.install_rules(
        vec![rule(1, r"https://site\.com/(\d+).*", "https://site.com/$1", true, 1)],
        100,
    );
    // compile and cache the first pattern
    let out = normalizer.normalize_url("https://site.com/5?a", 100);
    assert_eq!(out, "https://site.com/5");
    // the store's mutation path refreshes, then the next fetch installs the
    // edited rule: the new pattern is effective immediately
    normalizer.refresh_rules_cache();
    normalizer.install_rules(
        vec![rule(1, r"https://site\.com/(\d+).*", "https://site.com/item/$1", true, 1)],
        110,
    );
    let out = normalizer.normalize_url("https://site.com/5?a", 110);
    assert_eq!(out, "https://site.com/item/5");
}

#[test]
fn test_pattern_edit_without_refresh_not_served_stale() {
    let mut normalizer = UrlNormalizer::new();
    normalizer.install_rules(
        vec![rule(1, r"https://site\.com/(\d+).*", "https://site.com/$1", true, 1)],
        100,
    );
    let out = normalizer.normalize_url("https://site.com/5?a", 100);
    assert_eq!(out, "https://site.com/5");
    // a new snapshot carries an edited pattern for the same rule id; the
    // compiled-pattern cache may not serve the old compilation for it
    normalizer.install_rules(
        vec![rule(1, r"https://site\.com/(\d+).*", "https://site.com/new/$1", true, 1)],
        120,
    );
    let out = normalizer.normalize_url("https://site.com/5?a", 120);
    assert_eq!(out, "https://site.com/new/5");
}

#[test]
fn test_normalize_urls_batch() {
    let mut normalizer = UrlNormalizer::new();
    normalizer.install_rules(
        vec![rule(1, r"https://example\.com/video/(\d+).*", "https://example.com/video/$1", true, 1)],
        100,
    );
    let out = normalizer.normalize_urls(
        vec![
            "https://example.com/video/1-hd".to_string(),
            "https://unrelated.org/".to_string(),
            "https://example.com/video/2?x".to_string(),
        ],
        100,
    );
    assert_eq!(
        out,
        vec![
            "https://example.com/video/1".to_string(),
            "https://unrelated.org/".to_string(),
            "https://example.com/video/2".to_string(),
        ]
    );
}

#[test]
fn test_cache_stats() {
    let mut normalizer = UrlNormalizer::new();
    assert_eq!(normalizer.get_cache_stats(), (0, false));
    normalizer.install_rules(
        vec![rule(1, r"https://site\.com/(\d+).*", "https://site.com/$1", true, 1)],
        100,
    );
    assert_eq!(normalizer.get_cache_stats(), (0, true));
    normalizer.normalize_url("https://site.com/5", 100);
    assert_eq!(normalizer.get_cache_stats(), (1, true));
    normalizer.refresh_rules_cache();
    assert_eq!(normalizer.get_cache_stats(), (0, false));
}
