//! Core of a browser-history service: a URL canonicalization engine driven by
//! an ordered, hot-reloadable set of pattern-substitution rules, together with
//! the caches around it (a TTL-bounded rule snapshot, a per-rule compiled
//! pattern cache, a generic TTL'd result cache) and a deterministic cache key
//! generator for the search path.

pub mod config;
pub mod engine;
pub mod keygen;
pub mod pattern;
pub mod pattern_cache;
pub mod query;
pub mod result_cache;
pub mod rule_cache;
pub mod rules;
pub mod ttl;
