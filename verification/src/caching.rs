//! The self-healing cache cell: a container for one value that may age and
//! that, when read after expiry, regenerates its value in place through the
//! `Refresh` capability of the held type.
//!
//! Time is modelled in whole seconds counted from the cell's own creation
//! instant. Every accessor that consults the clock has a sibling ending in
//! `_at` that takes the current second count as an argument; the sibling
//! carries the exact contract and the clock-reading accessor delegates to it,
//! promising whatever holds of every possible reading.

use vstd::prelude::*;

pub use crate::error::CacheError;
pub use crate::error::RefreshError;

use crate::freshness;

verus! {

/// A container that stores data that may age.
#[derive(Clone, Copy, Debug)]
pub struct Cached<T> {
    /// The instant the cell was created; the origin of its time scale.
    epoch: std::time::Instant,
    /// Seconds from `epoch` at which the data was last stored.
    last_update: u64,
    /// The maximum age of the data in seconds; 0 is never-expiring data.
    timeout: u64,
    /// The actual data.
    inner: T,
}

/// All cached data must implement this so data can be refreshed: given only
/// a reference to the current value, produce a replacement of the same type
/// or a typed failure. The cell alone applies the result.
pub trait Refresh: Sized {
    fn refresh(&self) -> Result<Self, RefreshError>;
}

impl<T> Cached<T> {
    /// The stored data.
    pub closed spec fn spec_value(self) -> T {
        self.inner
    }

    /// The maximum age of the data in seconds; 0 means it never expires.
    pub closed spec fn spec_timeout(self) -> u64 {
        self.timeout
    }

    /// The second count at which the data was last stored.
    pub closed spec fn spec_last_update(self) -> u64 {
        self.last_update
    }

    /// The age of the data at second count `now`.
    pub open spec fn spec_age(self, now: u64) -> int {
        freshness::age_at(self.spec_last_update(), now)
    }

    /// Whether the data is stale at second count `now`.
    pub open spec fn spec_stale(self, now: u64) -> bool {
        freshness::stale_at(self.spec_timeout(), self.spec_last_update(), now)
    }

    /// Initializes the cache with the supplied inner data and timeout.
    pub fn new(inner: T, timeout: u64) -> (r: Self)
        ensures
            r.spec_value() == inner,
            r.spec_timeout() == timeout,
            r.spec_last_update() == 0,
    {
        Cached { epoch: std::time::Instant::now(), last_update: 0, timeout, inner }
    }

    /// The current reading of the cell's clock, in whole seconds from its
    /// creation. Its value depends on when it is called, so nothing is
    /// promised of it.
    fn now_secs(&self) -> u64 {
        std::time::Instant::now().duration_since(self.epoch).as_secs()
    }

    /// Checks whether the cached object has timed out. The answer for a
    /// given second count is fixed by `has_timed_out_at`, to which this
    /// hands the clock's current reading.
    pub fn has_timed_out(&self) -> (r: bool)
        ensures
            self.spec_timeout() == 0 ==> !r,
            exists|now: u64| r == self.spec_stale(now),
    {
        let now: u64 = self.now_secs();
        self.has_timed_out_at(now)
    }

    /// Whether the cached object has timed out at second count `now`.
    pub fn has_timed_out_at(&self, now: u64) -> (r: bool)
        ensures
            r == self.spec_stale(now),
    {
        freshness::stale_check(self.timeout, self.last_update, now)
    }

    /// Time the currently held data has left to live, in seconds; negative
    /// means the data has expired. The value for a given second count is
    /// fixed by `ttl_at`, to which this hands the clock's current reading.
    pub fn ttl(&self) -> (r: i64)
        ensures
            r <= self.spec_timeout(),
            self.spec_timeout() == 0 ==> r <= 0,
            exists|now: u64| r == freshness::clamp_i64(
                freshness::remaining_at(self.spec_timeout(), self.spec_last_update(), now),
            ),
    {
        let now: u64 = self.now_secs();
        self.ttl_at(now)
    }

    /// The remaining time to live at second count `now`, clamped to the
    /// range of `i64`.
    pub fn ttl_at(&self, now: u64) -> (r: i64)
        ensures
            r == freshness::clamp_i64(
                freshness::remaining_at(self.spec_timeout(), self.spec_last_update(), now),
            ),
    {
        freshness::remaining_secs(self.timeout, self.last_update, now)
    }

    /// Age of the cached data in seconds. Its value depends on when it is
    /// called; `age_at` fixes the age for a given second count.
    pub fn age(&self) -> (r: u64)
        ensures
            exists|now: u64| r == self.spec_age(now),
    {
        let now: u64 = self.now_secs();
        self.age_at(now)
    }

    /// The age of the data at second count `now`.
    pub fn age_at(&self, now: u64) -> (r: u64)
        ensures
            r == self.spec_age(now),
    {
        freshness::age_secs(self.last_update, now)
    }

    /// The stored data, regardless of its age.
    pub fn deref(&self) -> (r: &T)
        ensures
            *r == self.spec_value(),
    {
        &self.inner
    }
}

impl<T: Refresh> Cached<T> {
    /// Safely dereferences this cell, taking into account the age for
    /// automatic updates: stale data is replaced by what its own refresh
    /// capability returned before it is handed out, and a failed refresh
    /// leaves the cell untouched and surfaces the cause. What happens for a
    /// given second count is fixed by `checked_deref_at`, to which this
    /// hands the clock's current reading.
    pub fn checked_deref<'a>(&'a mut self) -> (r: Result<&'a T, CacheError>)
        ensures
            final(self).spec_timeout() == old(self).spec_timeout(),
            old(self).spec_timeout() == 0 ==> r is Ok && *final(self) == *old(self),
            r matches Ok(v) ==> *v == final(self).spec_value(),
            r is Ok && *final(self) != *old(self) ==> call_ensures(
                T::refresh,
                (&old(self).spec_value(),),
                Ok(final(self).spec_value()),
            ),
            r is Ok ==> *final(self) == *old(self) || exists|now: u64|
                {
                    &&& old(self).spec_stale(now)
                    &&& final(self).spec_last_update() == now
                    &&& !final(self).spec_stale(now)
                },
            r matches Err(e) ==> {
                &&& *final(self) == *old(self)
                &&& e matches CacheError::RefreshFailed(cause)
                &&& call_ensures(T::refresh, (&old(self).spec_value(),), Err(cause))
            },
    {
        let now: u64 = self.now_secs();
        self.checked_deref_at(now)
    }

    /// The read `checked_deref` performs once the clock has been read, with
    /// the whole read modelled at second count `now`. Fresh data is returned
    /// unchanged; stale data is replaced by what one attempt of the held
    /// type's refresh capability returned, which also restores freshness at
    /// `now`; a failed attempt leaves value and timestamp exactly as they
    /// were, the cause it returned wrapped in the error.
    pub fn checked_deref_at<'a>(&'a mut self, now: u64) -> (r: Result<&'a T, CacheError>)
        ensures
            final(self).spec_timeout() == old(self).spec_timeout(),
            !old(self).spec_stale(now) ==> r is Ok && *final(self) == *old(self),
            r matches Ok(v) ==> *v == final(self).spec_value(),
            old(self).spec_stale(now) && r is Ok ==> {
                &&& call_ensures(T::refresh, (&old(self).spec_value(),), Ok(final(self).spec_value()))
                &&& final(self).spec_last_update() == now
                &&& !final(self).spec_stale(now)
            },
            r matches Err(e) ==> {
                &&& *final(self) == *old(self)
                &&& old(self).spec_stale(now)
                &&& e matches CacheError::RefreshFailed(cause)
                &&& call_ensures(T::refresh, (&old(self).spec_value(),), Err(cause))
            },
    {
        if self.has_timed_out_at(now) {
            match self.inner.refresh() {
                Ok(fresh) => {
                    self.inner = fresh;
                    self.last_update = now;
                },
                Err(cause) => {
                    return Err(CacheError::RefreshFailed(cause));
                },
            }
        }
        Ok(&self.inner)
    }
}

} // verus!
