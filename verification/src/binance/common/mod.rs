//! Items shared by the Binance Spot and Futures adapters.

pub mod sbe;
