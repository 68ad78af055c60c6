//! The mathematical model of data freshness: age, staleness and remaining
//! time-to-live as functions of a stored-at instant and a current instant,
//! both given in whole seconds on one monotonic scale.

use vstd::prelude::*;

verus! {

/// Seconds elapsed between the instant the data was stored and `now`;
/// zero when `now` lies before `last_update`.
pub open spec fn age_at(last_update: u64, now: u64) -> int {
    if now >= last_update {
        now - last_update
    } else {
        0
    }
}

/// Whether data stored at `last_update` with the given timeout is stale at
/// `now`. A timeout of zero means the data never expires; otherwise the data
/// is stale once strictly more than `timeout` seconds have passed.
pub open spec fn stale_at(timeout: u64, last_update: u64, now: u64) -> bool {
    timeout != 0 && age_at(last_update, now) > timeout
}

/// The seconds the data stored at `last_update` still has to live at `now`;
/// negative once more than `timeout` seconds have passed.
pub open spec fn remaining_at(timeout: u64, last_update: u64, now: u64) -> int {
    timeout - age_at(last_update, now)
}

/// `v` brought into the range of `i64`.
pub open spec fn clamp_i64(v: int) -> int {
    if v > i64::MAX {
        i64::MAX as int
    } else if v < i64::MIN {
        i64::MIN as int
    } else {
        v
    }
}

/// Computes `age_at` on machine integers.
pub fn age_secs(last_update: u64, now: u64) -> (r: u64)
    ensures
        r == age_at(last_update, now),
{
    if now >= last_update {
        now - last_update
    } else {
        0
    }
}

/// Computes `stale_at` on machine integers.
pub fn stale_check(timeout: u64, last_update: u64, now: u64) -> (r: bool)
    ensures
        r == stale_at(timeout, last_update, now),
{
    if timeout == 0 {
        false
    } else {
        let a: u64 = age_secs(last_update, now);
        a > timeout
    }
}

/// Computes `remaining_at` on machine integers, clamped to the range of `i64`.
pub fn remaining_secs(timeout: u64, last_update: u64, now: u64) -> (r: i64)
    ensures
        r == clamp_i64(remaining_at(timeout, last_update, now)),
{
    let a: u64 = age_secs(last_update, now);
    let diff: i128 = timeout as i128 - a as i128;
    if diff > i64::MAX as i128 {
        i64::MAX
    } else if diff < i64::MIN as i128 {
        i64::MIN
    } else {
        diff as i64
    }
}

/// Data whose time-to-live is zero is never stale, at any instant and however
/// long ago it was stored.
pub proof fn lemma_zero_timeout_never_stale(last_update: u64, now: u64)
    ensures
        !stale_at(0, last_update, now),
{
}

/// With a positive time-to-live, data is fresh at the instant it was stored
/// and stale at every instant strictly more than `timeout` seconds later.
pub proof fn lemma_positive_timeout_staleness(timeout: u64, last_update: u64, now: u64)
    requires
        timeout > 0,
    ensures
        !stale_at(timeout, last_update, last_update),
        now > last_update + timeout ==> stale_at(timeout, last_update, now),
{
}

/// Data stored at instant `now` is not stale at that same instant, whatever
/// its time-to-live: a successful refresh restores freshness.
pub proof fn lemma_just_updated_not_stale(timeout: u64, now: u64)
    ensures
        !stale_at(timeout, now, now),
{
}

} // verus!
