//! The data the market-data source serves, modelled as plain values.

pub mod coin;
