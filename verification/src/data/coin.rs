//! The coin data held in cache cells: the list of supported coin symbols and
//! the placeholder record for one coin.

use vstd::prelude::*;

use crate::caching::Refresh;
use crate::error::FetchError;
use crate::error::RefreshError;

verus! {

/// What parsing a text as a JSON array of strings yields: the symbols in
/// order, or nothing when the text is not such an array. The parse is a
/// function of the text alone.
pub uninterp spec fn parsed_symbols(text: Seq<char>) -> Option<Seq<String>>;

/// Relies on `serde_json::from_str`: parses the text as a JSON array of
/// strings, a function of the text alone. A failure comes back as the
/// parser's own description of it.
#[verifier::external_body]
fn parse_string_list(text: &str) -> (r: Result<Vec<String>, String>)
    ensures
        r matches Ok(v) ==> parsed_symbols(text@) == Some(v@),
        r is Err ==> parsed_symbols(text@) is None,
{
    serde_json::from_str(text).map_err(|err| format!("{:?}", err))
}

/// The list of coin symbols an external source supports.
pub struct Coins(Vec<String>);

impl Coins {
    /// The held symbols.
    pub closed spec fn spec_symbols(self) -> Seq<String> {
        self.0@
    }

    /// Wraps a list of symbols.
    pub fn new(symbols: Vec<String>) -> (r: Self)
        ensures
            r.spec_symbols() == symbols@,
    {
        Coins(symbols)
    }

    /// The held symbols.
    pub fn deref(&self) -> (r: &Vec<String>)
        ensures
            r@ == self.spec_symbols(),
    {
        &self.0
    }

    /// Reads the list of symbols out of a text an external source answered
    /// with: exactly the JSON arrays of strings are accepted, and anything
    /// else is reported with the parser's description of the fault.
    pub fn parse(text: &str) -> (r: Result<Self, FetchError>)
        ensures
            r matches Ok(c) ==> parsed_symbols(text@) == Some(c.spec_symbols()),
            r is Err <==> parsed_symbols(text@) is None,
    {
        match parse_string_list(text) {
            Ok(symbols) => Ok(Coins(symbols)),
            Err(description) => Err(FetchError(description)),
        }
    }
}

/// The record for one coin; lookups for its fields are not wired up yet.
pub struct Coin;

impl Refresh for Coin {
    /// A coin record has no refresh path yet, so every attempt fails.
    fn refresh(&self) -> (r: Result<Self, RefreshError>)
        ensures
            r matches Err(e) && e.0@ == "Unimplemented!"@,
    {
        Err(RefreshError::from_str("Unimplemented!"))
    }
}

} // verus!
