//! Binance Spot HTTP responses: models, errors and SBE decoders.

pub mod error;
pub mod models;
pub mod parse;
pub mod properties;
pub mod schema;
