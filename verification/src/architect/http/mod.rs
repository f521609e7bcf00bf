//! Architect HTTP API: request and response models, errors and parsing.

pub mod error;
pub mod models;
pub mod parse;
