//! Architect market data WebSocket.

pub mod handler;
