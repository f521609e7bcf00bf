//! Architect adapter: environments, request models, errors and message routing.

pub mod common;
pub mod http;
pub mod websocket;
