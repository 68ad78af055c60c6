//! A time-bounded cache cell: a container holding one value together with
//! the instant it was last populated and a configurable time-to-live. The
//! strict cell in `cached` withholds stale data; the self-healing cell in
//! `caching` regenerates stale data in place through the `Refresh`
//! capability of the held type. Staleness itself is the small piece of
//! arithmetic in `freshness`, stated and proved once for both cells.

pub mod cached;
pub mod caching;
pub mod clock;
pub mod data;
pub mod error;
pub mod freshness;
pub mod retrieve;

pub use caching::CacheError;
pub use caching::Cached;
pub use caching::Refresh;
pub use caching::RefreshError;

use vstd::prelude::*;
use vstd::std_specs::iter::IteratorSpec;

verus! {

/// The record for one coin; lookups for its fields are not wired up yet.
pub struct Coin;

impl Refresh for Coin {
    /// A coin record has no refresh path yet, so every attempt fails.
    fn refresh(&self) -> (r: Result<Self, RefreshError>)
        ensures
            r matches Err(e) && e.0@ == "Unimplemented!"@,
    {
        Err(RefreshError::from_str("Unimplemented!"))
    }
}

/// Trait for accessing a keyed cache of coins conveniently.
pub trait CoinCapCache {
    /// A vector of the coin symbols the cache knows, borrowed from it.
    fn symbols<'a>(&'a self) -> Vec<&'a String>;
}

impl CoinCapCache for std::collections::HashMap<String, Coin> {
    /// Returns a vector of the coin symbols that are supported: one
    /// reference per entry, each key exactly once, in an unspecified order.
    /// The listing is stated under the two model premises that the verifier's
    /// hash-table reasoning rests on; they hold of `String` keys under the
    /// standard hasher, but no axiom supplies them, so they appear as a
    /// hypothesis rather than being assumed.
    fn symbols<'a>(&'a self) -> (r: Vec<&'a String>)
        ensures
            vstd::std_specs::hash::obeys_key_model::<String>()
                && vstd::std_specs::hash::builds_valid_hashers::<
                std::collections::hash_map::RandomState,
            >() ==> {
                &&& r@.len() == self@.len()
                &&& r@.unref().to_set() == self@.dom()
                &&& r@.no_duplicates()
            },
    {
        let keys = self.keys();
        let n: usize = self.len();
        collect_at_most(keys, n)
    }
}

/// Gathers what an iterator hands out into a vector, in the order it was
/// handed out, stopping after at most `cap` items or when the iterator runs
/// dry, whichever comes first. An iterator that obeys the iteration laws and
/// has exactly `cap` items left is drained completely.
fn collect_at_most<'a, I: Iterator<Item = &'a String>>(it: I, cap: usize) -> (r: Vec<
    &'a String,
>)
    ensures
        r@.len() <= cap,
        it.obeys_prophetic_iter_laws() && it.remaining().len() == cap ==> r@ == it.remaining(),
{
    let mut items: Vec<&'a String> = Vec::with_capacity(cap);
    let mut rest = it;
    let mut taken: usize = 0;
    loop
        invariant
            taken <= cap,
            items@.len() == taken,
            rest.obeys_prophetic_iter_laws() == it.obeys_prophetic_iter_laws(),
            it.obeys_prophetic_iter_laws() ==> items@ + rest.remaining() == it.remaining(),
        ensures
            it.obeys_prophetic_iter_laws() && it.remaining().len() == cap ==> items@
                == it.remaining(),
        decreases cap - taken,
    {
        if taken >= cap {
            proof {
                assert(it.obeys_prophetic_iter_laws() && it.remaining().len() == cap
                    ==> rest.remaining().len() == 0 && (items@ =~= it.remaining()));
            }
            break;
        }
        let ghost prev = rest;
        match rest.next() {
            Some(item) => {
                proof {
                    assert(it.obeys_prophetic_iter_laws() ==> (items@.push(item) + rest.remaining()
                        =~= items@ + prev.remaining()));
                }
                items.push(item);
                taken = taken + 1;
            },
            None => {
                proof {
                    assert(it.obeys_prophetic_iter_laws() && it.remaining().len() == cap
                        ==> rest.remaining().len() == 0 && (items@ =~= it.remaining()));
                }
                break;
            },
        }
    }
    items
}

} // verus!
