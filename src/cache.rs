//! A single memoised value that expires: the library as last fetched.
//! Times are milliseconds on a clock the caller reads.

use vstd::prelude::*;

verus! {

pub struct LibraryCache<T> {
    value: Option<T>,
    created_ms: Option<u64>,
}

impl<T> LibraryCache<T> {
    /// The value held, if any.
    pub closed spec fn held(self) -> Option<T> {
        self.value
    }

    /// When the value was stored, if it was.
    pub closed spec fn stored_at(self) -> Option<u64> {
        self.created_ms
    }

    /// The held value is still fresh at `now` for a lifetime of `ttl`: less
    /// than `ttl` has elapsed since it was stored (no time elapses when the
    /// clock reads earlier than the store).
    pub open spec fn fresh(self, ttl_ms: u64, now_ms: u64) -> bool {
        &&& self.held() is Some
        &&& self.stored_at() is Some
        &&& (if now_ms >= self.stored_at()->0 { now_ms - self.stored_at()->0 } else { 0 }) < ttl_ms
    }

    pub fn new() -> (r: LibraryCache<T>)
        ensures
            r.held() is None,
            r.stored_at() is None,
    {
        LibraryCache { value: None, created_ms: None }
    }

    /// The value, while fresh.
    pub fn get(&self, ttl_ms: u64, now_ms: u64) -> (r: Option<&T>)
        ensures
            self.fresh(ttl_ms, now_ms) ==> r == Some(&self.held()->0),
            !self.fresh(ttl_ms, now_ms) ==> r is None,
    {
        match (&self.value, &self.created_ms) {
            (Some(value), Some(created)) => {
                let elapsed = if now_ms >= *created { now_ms - *created } else { 0 };
                if elapsed < ttl_ms {
                    Some(value)
                } else {
                    None
                }
            },
            _ => None,
        }
    }

    /// Stores `value` as fetched at `now_ms`.
    pub fn set(&mut self, value: T, now_ms: u64)
        ensures
            final(self).held() == Some(value),
            final(self).stored_at() == Some(now_ms),
    {
        self.value = Some(value);
        self.created_ms = Some(now_ms);
    }

    /// Forgets the value.
    pub fn clear(&mut self)
        ensures
            final(self).held() is None,
            final(self).stored_at() is None,
    {
        self.value = None;
        self.created_ms = None;
    }
}

} // verus!
