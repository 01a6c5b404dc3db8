//! The per-rule compiled-pattern cache: one entry per rule identity, valid
//! only while the entry's source text still equals the rule's current pattern
//! and the entry is younger than the TTL. An edited pattern therefore never
//! serves from a stale compilation.

use vstd::prelude::*;

use crate::pattern::CompiledPattern;
use crate::pattern::pattern_compiles;
use crate::pattern::rewrite_of;
use crate::rules::NormalizationRule;
use crate::ttl::fresh_at;
use crate::ttl::is_fresh;

verus! {

/// A compiled pattern remembered for one rule.
struct CompiledPatternEntry {
    rule_id: i32,
    compiled: CompiledPattern,
    source_pattern: String,
    compiled_at: u64,
}

/// The cache: at most one entry per rule id.
pub struct PatternCache {
    entries: Vec<CompiledPatternEntry>,
    ttl_seconds: u64,
}

impl PatternCache {
    /// The TTL is positive, every entry pairs a compiled regex with the exact
    /// text it came from, and rule ids appear at most once.
    pub closed spec fn wf(&self) -> bool {
        &&& self.ttl_seconds > 0
        &&& forall|k: int|
            0 <= k < self.entries@.len() ==> {
                &&& (#[trigger] self.entries@[k]).compiled.pattern()
                    == self.entries@[k].source_pattern@
                &&& pattern_compiles(self.entries@[k].source_pattern@)
            }
        &&& forall|k1: int, k2: int|
            0 <= k1 < k2 < self.entries@.len() ==> (#[trigger] self.entries@[k1]).rule_id != (
            #[trigger] self.entries@[k2]).rule_id
    }

    /// How many rules currently have a compiled entry.
    pub closed spec fn num_entries(&self) -> nat {
        self.entries@.len()
    }

    pub closed spec fn ttl(&self) -> u64 {
        self.ttl_seconds
    }

    /// There is an entry for `id` whose source text is `pattern` and which is
    /// still fresh at `now`.
    pub closed spec fn has_live_entry(&self, id: int, pattern: Seq<char>, now: u64) -> bool {
        exists|k: int|
            0 <= k < self.entries@.len() && {
                &&& (#[trigger] self.entries@[k]).rule_id == id
                &&& self.entries@[k].source_pattern@ == pattern
                &&& fresh_at(self.entries@[k].compiled_at, now, self.ttl_seconds)
            }
    }

    pub fn new(ttl_seconds: u64) -> (r: PatternCache)
        requires
            ttl_seconds > 0,
        ensures
            r.wf(),
            r.num_entries() == 0,
            r.ttl() == ttl_seconds,
    {
        PatternCache { entries: Vec::new(), ttl_seconds }
    }

    pub fn len(&self) -> (r: usize)
        ensures
            r == self.num_entries(),
    {
        self.entries.len()
    }

    /// Drops every entry.
    pub fn clear(&mut self)
        requires
            old(self).wf(),
        ensures
            final(self).wf(),
            final(self).num_entries() == 0,
            final(self).ttl() == old(self).ttl(),
    {
        self.entries.clear();
    }

    /// The position of the entry for `id`, if one exists.
    fn find_by_id(&self, id: i32) -> (r: Option<usize>)
        ensures
            r matches Some(k) ==> k < self.entries@.len() && self.entries@[k as int].rule_id == id,
            r is None ==> forall|j: int|
                0 <= j < self.entries@.len() ==> (#[trigger] self.entries@[j]).rule_id != id,
    {
        let n = self.entries.len();
        let mut i: usize = 0;
        while i < n
            invariant
                i <= n,
                n == self.entries@.len(),
                forall|j: int| 0 <= j < i ==> (#[trigger] self.entries@[j]).rule_id != id,
            decreases n - i,
        {
            if self.entries[i].rule_id == id {
                return Some(i);
            }
            i = i + 1;
        }
        None
    }

    /// Applies `rule`'s substitution to `text` through the cache: a fresh
    /// entry whose source still equals `rule.pattern` is reused, anything
    /// else is recompiled and remembered. `None` exactly when the pattern
    /// does not compile, in which case the cache is untouched.
    pub fn rewrite_with_rule(
        &mut self,
        rule: &NormalizationRule,
        text: &str,
        now: u64,
    ) -> (r: Option<String>)
        requires
            old(self).wf(),
        ensures
            final(self).wf(),
            final(self).ttl() == old(self).ttl(),
            r is Some <==> pattern_compiles(rule@.pattern),
            r matches Some(s) ==> s@ == rewrite_of(rule@.pattern, rule@.replacement, text@),
            r is Some ==> final(self).has_live_entry(rule@.id, rule@.pattern, now),
            r is None ==> *final(self) == *old(self),
    {
        let found = self.find_by_id(rule.id);
        if let Some(k) = found {
            let hit = self.entries[k].source_pattern == rule.pattern && is_fresh(
                self.entries[k].compiled_at,
                now,
                self.ttl_seconds,
            );
            if hit {
                let s = self.entries[k].compiled.rewrite(text, rule.replacement.as_str());
                proof {
                    assert(self.entries@[k as int].source_pattern@ == rule@.pattern);
                    assert(self.has_live_entry(rule@.id, rule@.pattern, now));
                }
                return Some(s);
            }
        }
        match CompiledPattern::compile(rule.pattern.as_str()) {
            Ok(compiled) => {
                let s = compiled.rewrite(text, rule.replacement.as_str());
                let entry = CompiledPatternEntry {
                    rule_id: rule.id,
                    compiled,
                    source_pattern: rule.pattern.clone(),
                    compiled_at: now,
                };
                if let Some(k) = found {
                    self.entries.remove(k);
                }
                self.entries.push(entry);
                proof {
                    let kk = self.entries@.len() - 1;
                    assert(self.entries@[kk].source_pattern@ == rule@.pattern);
                    assert(self.has_live_entry(rule@.id, rule@.pattern, now));
                }
                Some(s)
            },
            Err(_) => None,
        }
    }
}

} // verus!
