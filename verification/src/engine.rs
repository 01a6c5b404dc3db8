//! The canonicalization engine: applies the cached, ordered rule list to a
//! URL, first match wins. The caller drives the rule-list cache (fetch on
//! `needs_refresh`, hand the result to `install_rules`); when no fresh
//! snapshot exists the engine fails open and returns the input unchanged.

use vstd::prelude::*;

use crate::pattern::CompiledPattern;
use crate::pattern::pattern_compiles;
use crate::pattern::rewrite_of;
use crate::pattern_cache::PatternCache;
use crate::rule_cache::RuleListCache;
use crate::rules::NormalizationRule;
use crate::rules::RuleModel;
use crate::rules::models_of;
use crate::ttl::fresh_at;

verus! {

/// Rule snapshots and compiled patterns expire after this many seconds.
pub const DEFAULT_CACHE_TTL_SECONDS: u64 = 300;

/// What a single canonicalization reports.
pub struct NormalizationResult {
    pub original_url: String,
    pub normalized_url: String,
    pub applied_rule: Option<NormalizationRule>,
    pub matched: bool,
}

/// The errors the engine can surface. Only the rule-authoring preview
/// (`test_rule`) reports `InvalidPattern`; `StoreUnavailable` stands for a
/// missing or expired rule snapshot that the caller could not refresh.
#[derive(Debug)]
pub enum NormalizeError {
    InvalidPattern(String),
    StoreUnavailable,
}

/// A rule matches a URL when it is enabled, its pattern compiles, and its
/// substitution changes the URL.
pub open spec fn rule_matches(r: RuleModel, url: Seq<char>) -> bool {
    r.enabled && pattern_compiles(r.pattern) && rewrite_of(r.pattern, r.replacement, url) != url
}

/// The first rule, in list order, that matches `url`.
pub open spec fn first_match(rules: Seq<RuleModel>, url: Seq<char>) -> Option<RuleModel>
    decreases rules.len(),
{
    if rules.len() == 0 {
        None
    } else if rule_matches(rules[0], url) {
        Some(rules[0])
    } else {
        first_match(rules.drop_first(), url)
    }
}

/// What the ordered rule list turns `url` into: the first matching rule's
/// substitution, or `url` itself when none matches.
pub open spec fn normalized_of(rules: Seq<RuleModel>, url: Seq<char>) -> Seq<char> {
    match first_match(rules, url) {
        Some(r) => rewrite_of(r.pattern, r.replacement, url),
        None => url,
    }
}

/// First match wins: when the rules before position `i` all fail to match
/// and the rule at `i` matches, evaluation stops there — the outcome is rule
/// `i`'s substitution and no later rule is consulted.
pub proof fn lemma_first_match_wins(rules: Seq<RuleModel>, url: Seq<char>, i: int)
    requires
        0 <= i < rules.len(),
        rule_matches(rules[i], url),
        forall|j: int| 0 <= j < i ==> !rule_matches(rules[j], url),
    ensures
        first_match(rules, url) == Some(rules[i]),
        normalized_of(rules, url) == rewrite_of(rules[i].pattern, rules[i].replacement, url),
    decreases i,
{
    if i == 0 {
    } else {
        lemma_first_match_wins(rules.drop_first(), url, i - 1);
    }
}

/// No-match identity: when no rule matches, the list leaves the URL as it is.
pub proof fn lemma_no_match_identity(rules: Seq<RuleModel>, url: Seq<char>)
    requires
        forall|j: int| 0 <= j < rules.len() ==> !rule_matches(rules[j], url),
    ensures
        first_match(rules, url) is None,
        normalized_of(rules, url) == url,
    decreases rules.len(),
{
    if rules.len() == 0 {
    } else {
        lemma_no_match_identity(rules.drop_first(), url);
    }
}

/// The engine: the rule-list cache and the compiled-pattern cache, guarded
/// by whatever exclusion the embedding chooses (the engine itself is plain
/// sequential state).
pub struct UrlNormalizer {
    rule_cache: RuleListCache,
    pattern_cache: PatternCache,
}

impl UrlNormalizer {
    pub closed spec fn wf(&self) -> bool {
        self.rule_cache.wf() && self.pattern_cache.wf()
    }

    /// The models of the rules the current snapshot holds (empty without one).
    pub closed spec fn rules(&self) -> Seq<RuleModel> {
        self.rule_cache.rules()
    }

    pub closed spec fn snapshot_present(&self) -> bool {
        self.rule_cache.has_snapshot()
    }

    /// A snapshot exists and is younger than the TTL at `now`.
    pub closed spec fn fresh_for(&self, now: u64) -> bool {
        self.rule_cache.fresh_for(now)
    }

    pub closed spec fn pattern_count(&self) -> nat {
        self.pattern_cache.num_entries()
    }

    /// How long a rule snapshot (and a compiled pattern) stays fresh.
    pub closed spec fn ttl(&self) -> u64 {
        self.rule_cache.ttl()
    }

    pub fn new() -> (r: UrlNormalizer)
        ensures
            r.wf(),
            !r.snapshot_present(),
            r.pattern_count() == 0,
            r.ttl() == DEFAULT_CACHE_TTL_SECONDS,
            forall|t: u64| !r.fresh_for(t),
    {
        UrlNormalizer {
            rule_cache: RuleListCache::new(DEFAULT_CACHE_TTL_SECONDS),
            pattern_cache: PatternCache::new(DEFAULT_CACHE_TTL_SECONDS),
        }
    }

    /// Whether the caller should fetch the rule set from the store before
    /// normalizing: no snapshot, or one past its TTL.
    pub fn needs_refresh(&self, now: u64) -> (r: bool)
        ensures
            r == !self.fresh_for(now),
    {
        self.rule_cache.needs_refresh(now)
    }

    /// Installs a freshly fetched rule set (already in evaluation order) as
    /// the snapshot, captured at `now`.
    pub fn install_rules(&mut self, rules: Vec<NormalizationRule>, now: u64)
        requires
            old(self).wf(),
        ensures
            final(self).wf(),
            final(self).ttl() == old(self).ttl(),
            final(self).rules() == models_of(rules@),
            final(self).snapshot_present(),
            final(self).fresh_for(now),
            forall|t: u64| final(self).fresh_for(t) == fresh_at(now, t, old(self).ttl()),
            final(self).pattern_count() == old(self).pattern_count(),
    {
        self.rule_cache.install(rules, now);
    }

    /// Drops the rule snapshot and empties the pattern cache, so that the
    /// next canonicalization observes the store's current rules. Idempotent.
    pub fn refresh_rules_cache(&mut self)
        requires
            old(self).wf(),
        ensures
            final(self).wf(),
            final(self).ttl() == old(self).ttl(),
            !final(self).snapshot_present(),
            final(self).pattern_count() == 0,
            forall|t: u64| !final(self).fresh_for(t),
    {
        self.rule_cache.invalidate();
        self.pattern_cache.clear();
    }

    /// Canonicalizes one URL, reporting which rule matched. Disabled rules
    /// and rules whose pattern does not compile are skipped; evaluation stops
    /// at the first rule whose substitution changes the URL. Without a fresh
    /// snapshot the store could not be consulted: `StoreUnavailable`.
    pub fn normalize_url_detailed(&mut self, url: &str, now: u64) -> (r: Result<
        NormalizationResult,
        NormalizeError,
    >)
        requires
            old(self).wf(),
        ensures
            final(self).wf(),
            final(self).ttl() == old(self).ttl(),
            final(self).rules() == old(self).rules(),
            final(self).snapshot_present() == old(self).snapshot_present(),
            forall|t: u64| final(self).fresh_for(t) == old(self).fresh_for(t),
            r is Ok <==> old(self).fresh_for(now),
            r matches Err(e) ==> e is StoreUnavailable,
            r matches Ok(res) ==> {
                &&& res.original_url@ == url@
                &&& res.normalized_url@ == normalized_of(old(self).rules(), url@)
                &&& res.matched == (first_match(old(self).rules(), url@) is Some)
                &&& (match first_match(old(self).rules(), url@) {
                    Some(m) => res.applied_rule matches Some(ar) && ar@ == m,
                    None => res.applied_rule is None,
                })
            },
    {
        if self.rule_cache.needs_refresh(now) {
            return Err(NormalizeError::StoreUnavailable);
        }
        let original = url.to_owned();
        let n = self.rule_cache.rule_count();
        let mut i: usize = 0;
        while i < n
            invariant
                i <= n,
                self.rule_cache == old(self).rule_cache,
                old(self).fresh_for(now),
                n == self.rule_cache.rules().len(),
                self.rule_cache.has_snapshot(),
                self.rule_cache.wf(),
                self.pattern_cache.wf(),
                original@ == url@,
                forall|j: int| 0 <= j < i ==> !rule_matches(self.rule_cache.rules()[j], url@),
            decreases n - i,
        {
            let rule = self.rule_cache.rule_at(i);
            if rule.enabled {
                match self.pattern_cache.rewrite_with_rule(&rule, url, now) {
                    Some(candidate) => {
                        if candidate == original {
                            // the substitution left the URL unchanged: no match
                        } else {
                            proof {
                                lemma_first_match_wins(self.rule_cache.rules(), url@, i as int);
                            }
                            return Ok(
                                NormalizationResult {
                                    original_url: original,
                                    normalized_url: candidate,
                                    applied_rule: Some(rule),
                                    matched: true,
                                },
                            );
                        }
                    },
                    None => {
                        // the pattern does not compile: the rule is unusable, skip it
                    },
                }
            }
            i = i + 1;
        }
        proof {
            lemma_no_match_identity(self.rule_cache.rules(), url@);
        }
        Ok(
            NormalizationResult {
                original_url: original,
                normalized_url: url.to_owned(),
                applied_rule: None,
                matched: false,
            },
        )
    }

    /// Canonicalizes one URL and never fails: with a fresh snapshot the
    /// result is the rule list's outcome, otherwise the input comes back
    /// unchanged.
    pub fn normalize_url(&mut self, url: &str, now: u64) -> (r: String)
        requires
            old(self).wf(),
        ensures
            final(self).wf(),
            final(self).ttl() == old(self).ttl(),
            final(self).rules() == old(self).rules(),
            final(self).snapshot_present() == old(self).snapshot_present(),
            forall|t: u64| final(self).fresh_for(t) == old(self).fresh_for(t),
            old(self).fresh_for(now) ==> r@ == normalized_of(old(self).rules(), url@),
            !old(self).fresh_for(now) ==> r@ == url@,
    {
        match self.normalize_url_detailed(url, now) {
            Ok(res) => res.normalized_url,
            Err(_) => url.to_owned(),
        }
    }

    /// Canonicalizes a batch, one output per input, in order; each URL is
    /// evaluated independently against the same snapshot.
    pub fn normalize_urls(&mut self, urls: Vec<String>, now: u64) -> (r: Vec<String>)
        requires
            old(self).wf(),
        ensures
            final(self).wf(),
            final(self).ttl() == old(self).ttl(),
            final(self).rules() == old(self).rules(),
            final(self).snapshot_present() == old(self).snapshot_present(),
            forall|t: u64| final(self).fresh_for(t) == old(self).fresh_for(t),
            r@.len() == urls@.len(),
            forall|i: int|
                0 <= i < urls@.len() ==> (#[trigger] r@[i])@ == (if old(self).fresh_for(now) {
                    normalized_of(old(self).rules(), urls@[i]@)
                } else {
                    urls@[i]@
                }),
    {
        let ghost self0 = *self;
        let mut results: Vec<String> = Vec::new();
        let n = urls.len();
        let mut i: usize = 0;
        while i < n
            invariant
                i <= n,
                n == urls@.len(),
                results@.len() == i,
                self.wf(),
                self.ttl() == self0.ttl(),
                self.rules() == self0.rules(),
                self.snapshot_present() == self0.snapshot_present(),
                forall|t: u64| self.fresh_for(t) == self0.fresh_for(t),
                forall|j: int|
                    0 <= j < i ==> (#[trigger] results@[j])@ == (if self0.fresh_for(now) {
                        normalized_of(self0.rules(), urls@[j]@)
                    } else {
                        urls@[j]@
                    }),
            decreases n - i,
        {
            let normalized = self.normalize_url(urls[i].as_str(), now);
            results.push(normalized);
            i = i + 1;
        }
        results
    }

    /// Tries a rule without touching either cache: the preview path for rule
    /// authoring, and the one place a compile failure is surfaced.
    pub fn test_rule(&self, pattern: &str, replacement: &str, test_url: &str) -> (r: Result<
        NormalizationResult,
        NormalizeError,
    >)
        ensures
            r is Ok <==> pattern_compiles(pattern@),
            r matches Err(e) ==> e is InvalidPattern,
            r matches Ok(res) ==> {
                &&& res.original_url@ == test_url@
                &&& res.normalized_url@ == rewrite_of(pattern@, replacement@, test_url@)
                &&& res.matched == (rewrite_of(pattern@, replacement@, test_url@) != test_url@)
                &&& res.applied_rule is None
            },
    {
        match CompiledPattern::compile(pattern) {
            Err(msg) => Err(NormalizeError::InvalidPattern(msg)),
            Ok(compiled) => {
                let normalized = compiled.rewrite(test_url, replacement);
                let original = test_url.to_owned();
                let matched = !(normalized == original);
                Ok(
                    NormalizationResult {
                        original_url: original,
                        normalized_url: normalized,
                        applied_rule: None,
                        matched,
                    },
                )
            },
        }
    }

    /// Operational visibility: how many compiled patterns are cached, and
    /// whether a rule snapshot is present.
    pub fn get_cache_stats(&self) -> (r: (usize, bool))
        ensures
            r.0 == self.pattern_count(),
            r.1 == self.snapshot_present(),
    {
        (self.pattern_cache.len(), self.rule_cache.is_cached())
    }
}

} // verus!
