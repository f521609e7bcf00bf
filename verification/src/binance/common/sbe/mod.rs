//! Simple Binary Encoding (SBE) support: the byte cursor and the Spot schema.

pub mod cursor;
pub mod layout;
pub mod spot;
