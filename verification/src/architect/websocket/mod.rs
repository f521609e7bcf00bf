//! Architect WebSocket API: errors and market data message routing.

pub mod data;
pub mod error;
