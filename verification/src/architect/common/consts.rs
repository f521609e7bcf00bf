//! Endpoint constants for the Architect API.

use vstd::prelude::*;

verus! {

/// Production HTTP API base URL.
pub const ARCHITECT_HTTP_URL: &'static str = "https://gateway.architect.exchange/api";

/// Sandbox HTTP API base URL.
pub const ARCHITECT_HTTP_SANDBOX_URL: &'static str = "https://gateway.sandbox.architect.exchange/api";

/// Production Orders API base URL.
pub const ARCHITECT_ORDERS_URL: &'static str = "https://gateway.architect.exchange/orders";

/// Sandbox Orders API base URL.
pub const ARCHITECT_ORDERS_SANDBOX_URL: &'static str = "https://gateway.sandbox.architect.exchange/orders";

/// Production market data WebSocket URL.
pub const ARCHITECT_WS_PUBLIC_URL: &'static str = "wss://gateway.architect.exchange/md/ws";

/// Sandbox market data WebSocket URL.
pub const ARCHITECT_WS_SANDBOX_PUBLIC_URL: &'static str = "wss://gateway.sandbox.architect.exchange/md/ws";

/// Production orders WebSocket URL.
pub const ARCHITECT_WS_PRIVATE_URL: &'static str = "wss://gateway.architect.exchange/orders/ws";

/// Sandbox orders WebSocket URL.
pub const ARCHITECT_WS_SANDBOX_PRIVATE_URL: &'static str = "wss://gateway.sandbox.architect.exchange/orders/ws";

} // verus!
