use std::collections::HashMap;

use coincap_cache::caching::Refresh;
use coincap_cache::Coin;
use coincap_cache::CoinCapCache;
use coincap_cache::data::coin::Coins;
use coincap_cache::error::FetchError;
use coincap_cache::error::FindError;
use coincap_cache::RefreshError;

#[test]
fn coins_hold_their_symbols() {
    let coins = Coins::new(vec!["BTC".to_string(), "ETH".to_string()]);
    assert_eq!(coins.deref(), &vec!["BTC".to_string(), "ETH".to_string()]);
}

#[test]
fn coin_refresh_is_unimplemented() {
    let err = coincap_cache::Coin.refresh().err().unwrap();
    assert_eq!(err.0, "Unimplemented!");
    let err = coincap_cache::data::coin::Coin.refresh().err().unwrap();
    assert_eq!(err.0, "Unimplemented!");
}

#[test]
fn symbols_lists_every_key() {
    let mut cache: HashMap<String, Coin> = HashMap::new();
    cache.insert("BTC".to_string(), Coin);
    cache.insert("ETH".to_string(), Coin);
    let mut symbols: Vec<String> = cache.symbols().into_iter().cloned().collect();
    symbols.sort();
    assert_eq!(symbols, vec!["BTC".to_string(), "ETH".to_string()]);
}

#[test]
fn parse_accepts_a_json_array_of_strings() {
    let coins = Coins::parse("[\"BTC\",\"ETH\"]").unwrap();
    assert_eq!(coins.deref(), &vec!["BTC".to_string(), "ETH".to_string()]);
    let empty = Coins::parse("[]").unwrap();
    assert!(empty.deref().is_empty());
}

#[test]
fn parse_rejects_anything_else() {
    assert!(Coins::parse("{\"BTC\": 1}").is_err());
    assert!(Coins::parse("[1, 2]").is_err());
    assert!(Coins::parse("not json at all").is_err());
}

#[test]
fn errors_carry_their_messages() {
    assert_eq!(RefreshError::from_str("decode failed").0, "decode failed");
    assert_eq!(FetchError::from_str("HTTP 500").0, "HTTP 500");
    assert_eq!(FindError::from_str("no such coin").0, "no such coin");
}
