//! Errors raised while decoding Binance Spot SBE responses.

use vstd::prelude::*;

verus! {

/// Errors raised while decoding Binance SBE payloads.
#[allow(inconsistent_fields)]
#[derive(Debug, Clone, Copy, PartialEq, Eq, Structural)]
pub enum SbeDecodeError {
    /// The buffer ended before a read could complete: `expected` bytes were
    /// needed, `actual` bytes remained.
    BufferTooShort { expected: usize, actual: usize },
    /// The schema identifier in the message header is not the expected one.
    SchemaMismatch { expected: u16, actual: u16 },
    /// The schema version in the message header is not the expected one.
    VersionMismatch { expected: u16, actual: u16 },
    /// The template identifier does not match the requested message.
    UnknownTemplateId(u16),
    /// A repeating group declares a block length other than the expected one.
    InvalidBlockLength { expected: u16, actual: u16 },
    /// A repeating group declares more entries than allowed.
    GroupSizeTooLarge { count: u32, max: u32 },
    /// A variable-length string is not valid UTF-8.
    InvalidUtf8,
}

} // verus!
