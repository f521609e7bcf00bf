//! Verified decoders and request logic for the Architect and Binance venue adapters.

pub mod architect;
pub mod binance;
pub mod model;
pub mod text;
