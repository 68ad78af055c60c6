//! The strict cache cell: a container for one value that may age, whose
//! checked accessor fails once the value is stale instead of repairing it.
//!
//! Time is modelled in whole seconds counted from the cell's own creation
//! instant. Every accessor that consults the clock has a sibling ending in
//! `_at` that takes the current second count as an argument; the sibling
//! carries the exact contract and the clock-reading accessor delegates to it,
//! promising whatever holds of every possible reading.

use vstd::prelude::*;

use crate::error::CacheError;
use crate::freshness;

verus! {

/// A container that stores data that may age.
#[derive(Clone, Copy, Debug)]
pub struct Cached<T> {
    /// The instant the cell was created; the origin of its time scale.
    epoch: std::time::Instant,
    /// Seconds from `epoch` at which the data was last stored.
    last_update: u64,
    /// The maximum age of the data in seconds; 0 is never-expiring data.
    timeout: u64,
    /// The actual data.
    inner: T,
}

impl<T> Cached<T> {
    /// The stored data.
    pub closed spec fn spec_value(self) -> T {
        self.inner
    }

    /// The maximum age of the data in seconds; 0 means it never expires.
    pub closed spec fn spec_timeout(self) -> u64 {
        self.timeout
    }

    /// The second count at which the data was last stored.
    pub closed spec fn spec_last_update(self) -> u64 {
        self.last_update
    }

    /// The age of the data at second count `now`.
    pub open spec fn spec_age(self, now: u64) -> int {
        freshness::age_at(self.spec_last_update(), now)
    }

    /// Whether the data is stale at second count `now`.
    pub open spec fn spec_stale(self, now: u64) -> bool {
        freshness::stale_at(self.spec_timeout(), self.spec_last_update(), now)
    }

    /// Initializes the cache with the supplied inner data and timeout.
    pub fn new(inner: T, timeout: u64) -> (r: Self)
        ensures
            r.spec_value() == inner,
            r.spec_timeout() == timeout,
            r.spec_last_update() == 0,
    {
        Cached { epoch: std::time::Instant::now(), last_update: 0, timeout, inner }
    }

    /// The current reading of the cell's clock, in whole seconds from its
    /// creation. Its value depends on when it is called, so nothing is
    /// promised of it.
    fn now_secs(&self) -> u64 {
        std::time::Instant::now().duration_since(self.epoch).as_secs()
    }

    /// Safely dereferences this cell, taking into account the age: stale data
    /// is withheld and reported instead of returned. The staleness decision
    /// for a given second count is fixed by `checked_deref_at`, to which this
    /// hands the clock's current reading.
    pub fn checked_deref(&self) -> (r: Result<&T, CacheError>)
        ensures
            self.spec_timeout() == 0 ==> r is Ok,
            r matches Ok(v) ==> *v == self.spec_value(),
            r matches Err(e) ==> {
                &&& e matches CacheError::Expired { age, ttl }
                &&& ttl == self.spec_timeout()
                &&& ttl != 0
                &&& age > ttl
            },
            exists|now: u64| r is Ok <==> !self.spec_stale(now),
    {
        let now: u64 = self.now_secs();
        self.checked_deref_at(now)
    }

    /// The read `checked_deref` performs once the clock has been read: at
    /// second count `now`, fresh data is returned and stale data is reported
    /// as expired, with its age and timeout.
    pub fn checked_deref_at(&self, now: u64) -> (r: Result<&T, CacheError>)
        ensures
            r is Ok <==> !self.spec_stale(now),
            r matches Ok(v) ==> *v == self.spec_value(),
            r matches Err(e) ==> e == (CacheError::Expired {
                age: self.spec_age(now) as u64,
                ttl: self.spec_timeout(),
            }),
    {
        if freshness::stale_check(self.timeout, self.last_update, now) {
            let age: u64 = freshness::age_secs(self.last_update, now);
            Err(CacheError::Expired { age, ttl: self.timeout })
        } else {
            Ok(&self.inner)
        }
    }

    /// Time the currently held data has left to live, in seconds; negative
    /// means the data has expired. The value for a given second count is
    /// fixed by `ttl_at`, to which this hands the clock's current reading.
    pub fn ttl(&self) -> (r: i64)
        ensures
            r <= self.spec_timeout(),
            self.spec_timeout() == 0 ==> r <= 0,
            exists|now: u64| r == freshness::clamp_i64(
                freshness::remaining_at(self.spec_timeout(), self.spec_last_update(), now),
            ),
    {
        let now: u64 = self.now_secs();
        self.ttl_at(now)
    }

    /// The remaining time to live at second count `now`, clamped to the
    /// range of `i64`.
    pub fn ttl_at(&self, now: u64) -> (r: i64)
        ensures
            r == freshness::clamp_i64(
                freshness::remaining_at(self.spec_timeout(), self.spec_last_update(), now),
            ),
    {
        freshness::remaining_secs(self.timeout, self.last_update, now)
    }

    /// Age of the cached data in seconds. Its value depends on when it is
    /// called; `age_at` fixes the age for a given second count.
    pub fn age(&self) -> (r: u64)
        ensures
            exists|now: u64| r == self.spec_age(now),
    {
        let now: u64 = self.now_secs();
        self.age_at(now)
    }

    /// The age of the data at second count `now`.
    pub fn age_at(&self, now: u64) -> (r: u64)
        ensures
            r == self.spec_age(now),
    {
        freshness::age_secs(self.last_update, now)
    }

    /// The stored data, regardless of its age.
    pub fn deref(&self) -> (r: &T)
        ensures
            *r == self.spec_value(),
    {
        &self.inner
    }
}

} // verus!
