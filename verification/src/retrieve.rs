//! The retrieval capabilities an external data source supplies: fetching a
//! whole data set and finding one item by its code. Implementations live
//! with their transport; failures must be translated into the typed errors
//! before they cross into this crate.

use vstd::prelude::*;

pub use crate::error::FetchError;
pub use crate::error::FindError;

verus! {

/// Retrieval of a whole data set from an external source.
pub trait Fetch where Self: Sized {
    fn fetch() -> Result<Self, FetchError>;
}

/// Lookup of one item in an external source by its code.
pub trait Find where Self: Sized {
    fn find(code: &str) -> Result<Self, FindError>;
}

} // verus!
