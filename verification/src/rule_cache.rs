//! The rule-list cache: at most one snapshot of the enabled, ordered rule
//! set, served while younger than the TTL and replaced wholesale otherwise.
//! The caller fetches from the rule store when `needs_refresh` says so and
//! hands the result to `install`; `invalidate` forces the next fetch.

use vstd::prelude::*;

use crate::rules::NormalizationRule;
use crate::rules::RuleModel;
use crate::rules::models_of;
use crate::ttl::fresh_at;
use crate::ttl::is_fresh;

verus! {

/// One wholesale copy of the enabled rule set, in evaluation order.
struct RuleSnapshot {
    rules: Vec<NormalizationRule>,
    captured_at: u64,
}

/// The cache itself: an optional snapshot and the TTL it lives under.
pub struct RuleListCache {
    snapshot: Option<RuleSnapshot>,
    ttl_seconds: u64,
}

impl RuleListCache {
    pub closed spec fn wf(&self) -> bool {
        self.ttl_seconds > 0
    }

    pub closed spec fn has_snapshot(&self) -> bool {
        self.snapshot is Some
    }

    /// The models of the snapshot's rules, in order (empty without one).
    pub closed spec fn rules(&self) -> Seq<RuleModel> {
        match self.snapshot {
            Some(snap) => models_of(snap.rules@),
            None => Seq::empty(),
        }
    }

    pub closed spec fn captured_at(&self) -> u64 {
        match self.snapshot {
            Some(snap) => snap.captured_at,
            None => 0u64,
        }
    }

    pub closed spec fn ttl(&self) -> u64 {
        self.ttl_seconds
    }

    /// A snapshot exists and is still young enough to serve.
    pub open spec fn fresh_for(&self, now: u64) -> bool {
        self.has_snapshot() && fresh_at(self.captured_at(), now, self.ttl())
    }

    pub fn new(ttl_seconds: u64) -> (r: RuleListCache)
        requires
            ttl_seconds > 0,
        ensures
            r.wf(),
            !r.has_snapshot(),
            r.ttl() == ttl_seconds,
    {
        RuleListCache { snapshot: None, ttl_seconds }
    }

    /// Whether the caller must fetch from the rule store before rules can be
    /// served: there is no snapshot, or it has outlived the TTL.
    pub fn needs_refresh(&self, now: u64) -> (r: bool)
        ensures
            r == !self.fresh_for(now),
    {
        match &self.snapshot {
            Some(snap) => !is_fresh(snap.captured_at, now, self.ttl_seconds),
            None => true,
        }
    }

    /// Replaces the snapshot wholesale with `rules`, captured at `now`.
    pub fn install(&mut self, rules: Vec<NormalizationRule>, now: u64)
        requires
            old(self).wf(),
        ensures
            final(self).wf(),
            final(self).ttl() == old(self).ttl(),
            final(self).has_snapshot(),
            final(self).rules() == models_of(rules@),
            final(self).captured_at() == now,
            final(self).fresh_for(now),
            forall|t: u64| final(self).fresh_for(t) == fresh_at(now, t, old(self).ttl()),
    {
        self.snapshot = Some(RuleSnapshot { rules, captured_at: now });
    }

    /// Discards the snapshot unconditionally: the next `needs_refresh` asks
    /// for a fetch whatever the clock says.
    pub fn invalidate(&mut self)
        requires
            old(self).wf(),
        ensures
            final(self).wf(),
            final(self).ttl() == old(self).ttl(),
            !final(self).has_snapshot(),
    {
        self.snapshot = None;
    }

    pub fn is_cached(&self) -> (r: bool)
        ensures
            r == self.has_snapshot(),
    {
        self.snapshot.is_some()
    }

    /// How many rules the snapshot holds.
    pub fn rule_count(&self) -> (r: usize)
        requires
            self.has_snapshot(),
        ensures
            r == self.rules().len(),
    {
        match &self.snapshot {
            Some(snap) => snap.rules.len(),
            None => 0,
        }
    }

    /// A copy of the snapshot's rule at position `i`.
    pub fn rule_at(&self, i: usize) -> (r: NormalizationRule)
        requires
            self.has_snapshot(),
            i < self.rules().len(),
        ensures
            r@ == self.rules()[i as int],
    {
        match &self.snapshot {
            Some(snap) => snap.rules[i].clone(),
            None => unreached(),
        }
    }
}

} // verus!
