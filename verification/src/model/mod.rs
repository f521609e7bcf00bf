//! The trading model's domain types that the adapters produce.

pub mod data;
pub mod enums;
