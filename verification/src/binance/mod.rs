//! Binance adapter: SBE decoding for Spot HTTP responses and the Futures
//! market data client's subscription logic.

pub mod common;
pub mod futures;
pub mod spot;
