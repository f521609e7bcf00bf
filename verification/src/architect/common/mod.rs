//! Items shared by the Architect HTTP and WebSocket clients.

pub mod consts;
pub mod enums;
