//! A single-slot cache with a fixed time-to-live.

use crate::rate_limit::spec_saturating_add;
use vstd::prelude::*;

verus! {

/// How long a cached value stays valid: five minutes.
pub const CACHE_TTL_MS: u64 = 300000;

/// A cached value and the moment it stops being valid.
pub struct CacheEntry<T> {
    /// The cached value.
    pub value: T,
    /// First millisecond at which the entry no longer counts as valid.
    pub expires_at: u64,
}

/// One slot that holds the latest cached value, if any. The slot is not
/// partitioned by credential: a caller that rotates credentials must
/// invalidate it explicitly.
pub struct ResponseCache<T> {
    entry: Option<CacheEntry<T>>,
}

impl<T> ResponseCache<T> {
    /// The slot's content.
    pub closed spec fn spec_entry(self) -> Option<CacheEntry<T>> {
        self.entry
    }

    /// Whether the slot holds a value still valid at `now_ms`.
    pub open spec fn spec_valid_at(self, now_ms: u64) -> bool {
        self.spec_entry() matches Some(e) && now_ms < e.expires_at
    }

    /// The held value; meaningful only while the slot is filled.
    pub open spec fn spec_value(self) -> T {
        self.spec_entry()->0.value
    }

    /// An empty cache.
    pub fn new() -> (c: ResponseCache<T>)
        ensures
            c.spec_entry() is None,
    {
        ResponseCache { entry: None }
    }

    /// The cached value, if one is present and unexpired at `now_ms`.
    pub fn get(&self, now_ms: u64) -> (r: Option<&T>)
        ensures
            match r {
                Some(v) => self.spec_valid_at(now_ms) && *v == self.spec_value(),
                None => !self.spec_valid_at(now_ms),
            },
    {
        match &self.entry {
            Some(e) => {
                if now_ms < e.expires_at {
                    Some(&e.value)
                } else {
                    None
                }
            },
            None => None,
        }
    }

    /// Replace the slot with `value`, valid for the time-to-live from
    /// `now_ms` on.
    pub fn put(&mut self, value: T, now_ms: u64)
        ensures
            final(self).spec_entry() matches Some(e) && e.value == value && e.expires_at
                == spec_saturating_add(now_ms, CACHE_TTL_MS),
    {
        self.entry = Some(CacheEntry { value, expires_at: now_ms.saturating_add(CACHE_TTL_MS) });
    }

    /// Clear the slot unconditionally. Must run on every credential change,
    /// so that no result for the old credential outlives the rotation.
    pub fn invalidate(&mut self)
        ensures
            final(self).spec_entry() is None,
    {
        self.entry = None;
    }
}

/// The cache round trip: a value stored at `now_ms` is served unchanged
/// until the time-to-live runs out, and never after.
pub proof fn lemma_cache_round_trip<T>(c: ResponseCache<T>, v: T, now_ms: u64, later_ms: u64)
    requires
        now_ms + CACHE_TTL_MS <= u64::MAX,
        c.spec_entry() matches Some(e) && e.value == v && e.expires_at == spec_saturating_add(
            now_ms,
            CACHE_TTL_MS,
        ),
    ensures
        later_ms < now_ms + CACHE_TTL_MS ==> c.spec_valid_at(later_ms) && c.spec_value() == v,
        later_ms >= now_ms + CACHE_TTL_MS ==> !c.spec_valid_at(later_ms),
{
}

/// An invalidated cache misses at every time.
pub proof fn lemma_invalidate_forces_miss<T>(c: ResponseCache<T>)
    requires
        c.spec_entry() is None,
    ensures
        forall|t: u64| !c.spec_valid_at(t),
{
}

} // verus!
