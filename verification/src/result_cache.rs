//! The generic result cache used by the search path: string keys, serialized
//! values, a TTL per entry. Callers treat every error as a miss (fail-open);
//! `read_result_or_miss` is that policy. `MemoryCache` is the in-process
//! implementation, with the round-trip behaviour proved; a remote key/value
//! backend can stand in for it behind the same four operations, with
//! `classify_backend_error` sorting its failures.

use vstd::prelude::*;

verus! {

/// Why a cache operation failed. Whatever the reason, callers fall through
/// to the authoritative data path.
#[derive(Debug)]
pub enum CacheError {
    Connection(String),
    Serialization(String),
    General(String),
}

/// The failure classes a remote key/value backend reports.
pub enum BackendErrorKind {
    Io,
    Type,
    Other,
}

/// Sorts a backend failure into the cache error it stands for: transport
/// failures are connection errors, value-shape failures are serialization
/// errors, everything else is general.
pub fn classify_backend_error(kind: BackendErrorKind, message: String) -> (r: CacheError)
    ensures
        r == (match kind {
            BackendErrorKind::Io => CacheError::Connection(message),
            BackendErrorKind::Type => CacheError::Serialization(message),
            BackendErrorKind::Other => CacheError::General(message),
        }),
{
    match kind {
        BackendErrorKind::Io => CacheError::Connection(message),
        BackendErrorKind::Type => CacheError::Serialization(message),
        BackendErrorKind::Other => CacheError::General(message),
    }
}

/// The fail-open read policy: a hit is served, a miss and every error fall
/// through to the authoritative query.
pub fn read_result_or_miss(r: Result<Option<String>, CacheError>) -> (v: Option<String>)
    ensures
        r matches Ok(x) ==> v == x,
        r is Err ==> v is None,
{
    match r {
        Ok(x) => x,
        Err(_) => None,
    }
}

/// When an entry written at `now` under `ttl_seconds` stops being served.
pub open spec fn expiry_of(now: u64, ttl_seconds: u64) -> u64 {
    if now + ttl_seconds > u64::MAX {
        u64::MAX
    } else {
        (now + ttl_seconds) as u64
    }
}

/// What a read of a stored entry yields at `now`: the value while it is
/// younger than its expiry, nothing afterwards.
pub open spec fn read_at(stored: Option<(Seq<char>, u64)>, now: u64) -> Option<Seq<char>> {
    match stored {
        Some((v, expires_at)) => if now < expires_at {
            Some(v)
        } else {
            None
        },
        None => None,
    }
}

/// One key's value and expiry.
struct MemoryEntry {
    key: String,
    value: String,
    expires_at: u64,
}

/// The value and expiry stored for `key` among `entries`, if any.
spec fn stored_in(entries: Seq<MemoryEntry>, key: Seq<char>) -> Option<(Seq<char>, u64)>
    decreases entries.len(),
{
    if entries.len() == 0 {
        None
    } else if entries.last().key@ == key {
        Some((entries.last().value@, entries.last().expires_at))
    } else {
        stored_in(entries.drop_last(), key)
    }
}

proof fn lemma_stored_absent(entries: Seq<MemoryEntry>, key: Seq<char>)
    requires
        forall|j: int| 0 <= j < entries.len() ==> (#[trigger] entries[j]).key@ != key,
    ensures
        stored_in(entries, key) is None,
    decreases entries.len(),
{
    if entries.len() > 0 {
        lemma_stored_absent(entries.drop_last(), key);
    }
}

proof fn lemma_stored_in_remove(entries: Seq<MemoryEntry>, i: int, key: Seq<char>)
    requires
        0 <= i < entries.len(),
        entries[i].key@ != key,
    ensures
        stored_in(entries.remove(i), key) == stored_in(entries, key),
    decreases entries.len(),
{
    if i == entries.len() - 1 {
        assert(entries.remove(i) =~= entries.drop_last());
    } else {
        assert(entries.remove(i).last() == entries.last());
        if entries.last().key@ == key {
        } else {
            assert(entries.remove(i).drop_last() =~= entries.drop_last().remove(i));
            lemma_stored_in_remove(entries.drop_last(), i, key);
        }
    }
}

/// The in-process implementation: a flat list with at most one entry per
/// key. Reads take the clock as an argument, so staleness is decided by the
/// caller's time, not a hidden one.
pub struct MemoryCache {
    entries: Vec<MemoryEntry>,
}

impl MemoryCache {
    /// Keys appear at most once.
    pub closed spec fn wf(&self) -> bool {
        forall|k1: int, k2: int|
            0 <= k1 < k2 < self.entries@.len() ==> (#[trigger] self.entries@[k1]).key@ != (
            #[trigger] self.entries@[k2]).key@
    }

    /// The value and expiry stored for `key`, if any.
    pub closed spec fn stored(&self, key: Seq<char>) -> Option<(Seq<char>, u64)> {
        stored_in(self.entries@, key)
    }

    pub fn new() -> (r: MemoryCache)
        ensures
            r.wf(),
            forall|k: Seq<char>| r.stored(k) is None,
    {
        MemoryCache { entries: Vec::new() }
    }

    /// The position of the entry for `key`, if one exists.
    fn find(&self, key: &str) -> (r: Option<usize>)
        ensures
            r matches Some(k) ==> {
                &&& k < self.entries@.len()
                &&& self.entries@[k as int].key@ == key@
                &&& self.stored(key@) == Some(
                    (self.entries@[k as int].value@, self.entries@[k as int].expires_at),
                )
            },
            r is None ==> self.stored(key@) is None && forall|j: int|
                0 <= j < self.entries@.len() ==> (#[trigger] self.entries@[j]).key@ != key@,
    {
        let wanted = key.to_owned();
        let mut j = self.entries.len();
        proof {
            assert(self.entries@.take(j as int) =~= self.entries@);
        }
        while j > 0
            invariant
                j <= self.entries@.len(),
                wanted@ == key@,
                stored_in(self.entries@, key@) == stored_in(self.entries@.take(j as int), key@),
                forall|i: int|
                    j <= i < self.entries@.len() ==> (#[trigger] self.entries@[i]).key@ != key@,
            decreases j,
        {
            j = j - 1;
            proof {
                assert(self.entries@.take(j as int + 1).last() == self.entries@[j as int]);
                assert(self.entries@.take(j as int + 1).drop_last() =~= self.entries@.take(
                    j as int,
                ));
            }
            if self.entries[j].key == wanted {
                return Some(j);
            }
        }
        proof {
            assert(self.entries@.take(0) =~= Seq::<MemoryEntry>::empty());
        }
        None
    }

    /// Reads `key` at `now`: its value while unexpired, nothing otherwise.
    pub fn get(&self, key: &str, now: u64) -> (r: Option<String>)
        ensures
            match read_at(self.stored(key@), now) {
                Some(v) => r matches Some(s) && s@ == v,
                None => r is None,
            },
    {
        match self.find(key) {
            Some(k) => {
                if now < self.entries[k].expires_at {
                    Some(self.entries[k].value.clone())
                } else {
                    None
                }
            },
            None => None,
        }
    }

    /// Whether `key` holds an unexpired value at `now`.
    pub fn contains(&self, key: &str, now: u64) -> (r: bool)
        ensures
            r == (read_at(self.stored(key@), now) is Some),
    {
        match self.find(key) {
            Some(k) => now < self.entries[k].expires_at,
            None => false,
        }
    }

    /// Stores `value` under `key`, replacing any previous entry; it expires
    /// `ttl_seconds` after `now`. No other key is touched.
    pub fn set(&mut self, key: &str, value: &str, ttl_seconds: u64, now: u64)
        requires
            old(self).wf(),
        ensures
            final(self).wf(),
            final(self).stored(key@) == Some((value@, expiry_of(now, ttl_seconds))),
            forall|k: Seq<char>|
                k != key@ ==> #[trigger] final(self).stored(k) == old(self).stored(k),
    {
        let found = self.find(key);
        let ghost pre_remove = self.entries@;
        if let Some(k) = found {
            self.entries.remove(k);
            proof {
                assert forall|other: Seq<char>| other != key@ implies stored_in(
                    self.entries@,
                    other,
                ) == stored_in(pre_remove, other) by {
                    lemma_stored_in_remove(pre_remove, k as int, other);
                }
            }
        }
        let ghost pre_push = self.entries@;
        let entry = MemoryEntry {
            key: key.to_owned(),
            value: value.to_owned(),
            expires_at: now.saturating_add(ttl_seconds),
        };
        self.entries.push(entry);
        proof {
            assert(self.entries@.last().key@ == key@);
            assert(self.entries@.drop_last() =~= pre_push);
        }
    }

    /// Removes `key` (a no-op when absent). No other key is touched.
    pub fn delete(&mut self, key: &str)
        requires
            old(self).wf(),
        ensures
            final(self).wf(),
            final(self).stored(key@) is None,
            forall|k: Seq<char>|
                k != key@ ==> #[trigger] final(self).stored(k) == old(self).stored(k),
    {
        let found = self.find(key);
        let ghost pre_remove = self.entries@;
        if let Some(k) = found {
            self.entries.remove(k);
            proof {
                assert forall|other: Seq<char>| other != key@ implies stored_in(
                    self.entries@,
                    other,
                ) == stored_in(pre_remove, other) by {
                    lemma_stored_in_remove(pre_remove, k as int, other);
                }
                assert forall|j: int| 0 <= j < self.entries@.len() implies (#[trigger] self
                    .entries@[j]).key@ != key@ by {}
                lemma_stored_absent(self.entries@, key@);
            }
        }
    }

    /// Drops every entry.
    pub fn clear(&mut self)
        requires
            old(self).wf(),
        ensures
            final(self).wf(),
            forall|k: Seq<char>| final(self).stored(k) is None,
    {
        self.entries.clear();
    }
}

/// Result cache round trip: once a value is stored (what `set` leaves
/// behind), reading its key yields the value at any time before the expiry
/// and reads as absent — not as an error — from the expiry on.
pub proof fn lemma_round_trip(
    c: MemoryCache,
    key: Seq<char>,
    value: Seq<char>,
    written_at: u64,
    ttl_seconds: u64,
    now: u64,
)
    requires
        c.stored(key) == Some((value, expiry_of(written_at, ttl_seconds))),
    ensures
        now < expiry_of(written_at, ttl_seconds) ==> read_at(c.stored(key), now) == Some(value),
        now >= expiry_of(written_at, ttl_seconds) ==> read_at(c.stored(key), now) is None,
{
}

} // verus!
