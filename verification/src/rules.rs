//! Canonicalization rules and the requests that create, change and try them.
//!
//! Timestamps are unix seconds; the store that persists rules supplies them.

use vstd::prelude::*;

verus! {

/// The mathematical content of a rule: what the contracts speak of.
pub ghost struct RuleModel {
    pub id: int,
    pub pattern: Seq<char>,
    pub replacement: Seq<char>,
    pub enabled: bool,
    pub order_index: int,
    pub created_at: int,
    pub updated_at: int,
}

/// A single canonicalization rule. Among enabled rules, `order_index`
/// (ties broken by `id` ascending) gives the evaluation order.
pub struct NormalizationRule {
    pub id: i32,
    pub pattern: String,
    pub replacement: String,
    pub enabled: bool,
    pub order_index: i32,
    pub created_at: i64,
    pub updated_at: i64,
}

impl View for NormalizationRule {
    type V = RuleModel;

    open spec fn view(&self) -> RuleModel {
        RuleModel {
            id: self.id as int,
            pattern: self.pattern@,
            replacement: self.replacement@,
            enabled: self.enabled,
            order_index: self.order_index as int,
            created_at: self.created_at as int,
            updated_at: self.updated_at as int,
        }
    }
}

impl Clone for NormalizationRule {
    fn clone(&self) -> (r: Self)
        ensures
            r == *self,
    {
        NormalizationRule {
            id: self.id,
            pattern: self.pattern.clone(),
            replacement: self.replacement.clone(),
            enabled: self.enabled,
            order_index: self.order_index,
            created_at: self.created_at,
            updated_at: self.updated_at,
        }
    }
}

/// The models of a sequence of rules, in the same order.
pub open spec fn models_of(rules: Seq<NormalizationRule>) -> Seq<RuleModel> {
    rules.map_values(|r: NormalizationRule| r@)
}

/// A request to create a rule; absent fields fall back to defaults.
pub struct CreateRuleRequest {
    pub pattern: String,
    pub replacement: String,
    pub enabled: Option<bool>,
    pub order_index: Option<i32>,
}

/// A request to change some fields of an existing rule.
pub struct UpdateRuleRequest {
    pub pattern: Option<String>,
    pub replacement: Option<String>,
    pub enabled: Option<bool>,
    pub order_index: Option<i32>,
}

/// A request to try a rule on one URL without persisting anything.
pub struct TestRuleRequest {
    pub pattern: String,
    pub replacement: String,
    pub test_url: String,
}

/// The outcome of trying a rule on one URL.
pub struct TestRuleResponse {
    pub original_url: String,
    pub normalized_url: String,
    pub matched: bool,
}

/// The `enabled` and `order_index` a create request resolves to: `enabled`
/// defaults to true, `order_index` to one past the largest index in use.
pub fn resolve_create_defaults(req: &CreateRuleRequest, max_order: Option<i32>) -> (r: (bool, i32))
    requires
        max_order matches Some(m) ==> m < i32::MAX,
    ensures
        r.0 == (match req.enabled {
            Some(e) => e,
            None => true,
        }),
        r.1 == (match req.order_index {
            Some(o) => o as int,
            None => match max_order {
                Some(m) => m as int + 1,
                None => 1int,
            },
        }),
{
    let enabled = match req.enabled {
        Some(e) => e,
        None => true,
    };
    let order_index = match req.order_index {
        Some(o) => o,
        None => match max_order {
            Some(m) => m + 1,
            None => 1,
        },
    };
    (enabled, order_index)
}

/// The rule an update request merges into `current`: each given field
/// replaces the old one, absent fields keep their value; `updated_at`
/// becomes the mutation time the store assigns.
pub fn apply_rule_update(
    current: &NormalizationRule,
    update: &UpdateRuleRequest,
    updated_at: i64,
) -> (r: NormalizationRule)
    ensures
        r.id == current.id,
        r@.pattern == (match update.pattern {
            Some(p) => p@,
            None => current@.pattern,
        }),
        r@.replacement == (match update.replacement {
            Some(p) => p@,
            None => current@.replacement,
        }),
        r.enabled == (match update.enabled {
            Some(e) => e,
            None => current.enabled,
        }),
        r.order_index == (match update.order_index {
            Some(o) => o,
            None => current.order_index,
        }),
        r.created_at == current.created_at,
        r.updated_at == updated_at,
{
    NormalizationRule {
        id: current.id,
        pattern: match &update.pattern {
            Some(p) => p.clone(),
            None => current.pattern.clone(),
        },
        replacement: match &update.replacement {
            Some(p) => p.clone(),
            None => current.replacement.clone(),
        },
        enabled: match update.enabled {
            Some(e) => e,
            None => current.enabled,
        },
        order_index: match update.order_index {
            Some(o) => o,
            None => current.order_index,
        },
        created_at: current.created_at,
        updated_at,
    }
}

} // verus!
