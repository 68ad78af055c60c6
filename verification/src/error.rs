//! The failure surfaces of the crate: reads through a cache cell fail with a
//! `CacheError`, refresh implementations fail with a `RefreshError`, and the
//! retrieval capabilities fail with a `FetchError` or a `FindError`. Each of
//! the descriptive errors carries a human-readable message.

use vstd::prelude::*;

verus! {

/// Failure produced by a refresh implementation, carrying a description of
/// the underlying cause.
#[derive(Debug)]
pub struct RefreshError(pub String);

impl RefreshError {
    /// Builds the error from a message.
    pub fn from_str(errmsg: &str) -> (r: Self)
        ensures
            r.0@ == errmsg@,
    {
        RefreshError(errmsg.to_owned())
    }
}

/// Failure of a fetch of a whole data set from an external source.
#[derive(Debug)]
pub struct FetchError(pub String);

impl FetchError {
    /// Builds the error from a message.
    pub fn from_str(errmsg: &str) -> (r: Self)
        ensures
            r.0@ == errmsg@,
    {
        FetchError(errmsg.to_owned())
    }
}

/// Failure of a lookup of one item in an external source.
#[derive(Debug)]
pub struct FindError(pub String);

impl FindError {
    /// Builds the error from a message.
    pub fn from_str(errmsg: &str) -> (r: Self)
        ensures
            r.0@ == errmsg@,
    {
        FindError(errmsg.to_owned())
    }
}

/// Why a checked read through a cache cell failed.
#[derive(Debug)]
pub enum CacheError {
    /// A strict read found the data stale: its age in seconds had passed its
    /// timeout, and no refresh path was available.
    Expired { age: u64, ttl: u64 },
    /// A self-healing read found the data stale and the attempted refresh
    /// failed; the cause is carried along.
    RefreshFailed(RefreshError),
}

} // verus!
