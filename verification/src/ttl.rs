//! Freshness of a timestamped artifact against a time-to-live bound.
//!
//! A stamp in the future (a clock that stepped backwards) counts as fresh,
//! exactly as a signed age comparison would have it.

use vstd::prelude::*;

verus! {

/// Whether something stamped at `stamp` is still fresh at `now` under `ttl`
/// (all in seconds): its age is below the bound.
pub open spec fn fresh_at(stamp: u64, now: u64, ttl: u64) -> bool {
    now - stamp < ttl
}

/// Decides `fresh_at` executably.
pub fn is_fresh(stamp: u64, now: u64, ttl: u64) -> (r: bool)
    ensures
        r == fresh_at(stamp, now, ttl),
{
    if now >= stamp {
        now - stamp < ttl
    } else {
        true
    }
}

} // verus!
