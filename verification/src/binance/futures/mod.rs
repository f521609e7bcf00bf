//! Binance Futures adapter.

pub mod data;
