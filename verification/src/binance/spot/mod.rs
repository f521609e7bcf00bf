//! Binance Spot adapter.

pub mod enums;
pub mod http;
