//! A bounds-checked little-endian reader over an SBE byte buffer.
//!
//! Every read either consumes exactly the bytes of its field or fails with
//! [`SbeDecodeError::BufferTooShort`] naming how many bytes it needed and how
//! many remained. The spec functions below describe field values by their
//! offset in the buffer, which is how the decoders state their results.

use vstd::prelude::*;
use vstd::utf8::{decode_utf8, valid_utf8};

use crate::binance::spot::http::error::SbeDecodeError;

verus! {

/// Largest number of entries accepted in one repeating group.
pub const MAX_GROUP_SIZE: u32 = 10000;

/// Little-endian unsigned 16-bit value of the bytes at `p`.
pub open spec fn le_u16(s: Seq<u8>, p: int) -> int {
    s[p] + 256 * s[p + 1]
}

/// Little-endian unsigned 32-bit value of the bytes at `p`.
pub open spec fn le_u32(s: Seq<u8>, p: int) -> int {
    le_u16(s, p) + 65536 * le_u16(s, p + 2)
}

/// Little-endian unsigned 64-bit value of the bytes at `p`.
pub open spec fn le_u64(s: Seq<u8>, p: int) -> int {
    le_u32(s, p) + 4294967296 * le_u32(s, p + 4)
}

/// Little-endian two's complement 64-bit value of the bytes at `p`.
pub open spec fn le_i64(s: Seq<u8>, p: int) -> int {
    let u = le_u64(s, p);
    if u < 0x8000_0000_0000_0000 {
        u
    } else {
        u - 0x1_0000_0000_0000_0000
    }
}

/// Two's complement 8-bit value of the byte at `p`.
pub open spec fn byte_i8(s: Seq<u8>, p: int) -> int {
    if s[p] < 128 {
        s[p] as int
    } else {
        s[p] - 256
    }
}

/// An optional 64-bit field: the SBE null value `i64::MIN` means absent.
pub open spec fn opt_i64(s: Seq<u8>, p: int) -> Option<i64> {
    if le_i64(s, p) == i64::MIN {
        None
    } else {
        Some(le_i64(s, p) as i64)
    }
}

/// The error of a read of `n` bytes at offset `p`, or `None` when the bytes are there.
pub open spec fn need(s: Seq<u8>, p: int, n: int) -> Option<SbeDecodeError> {
    if p + n <= s.len() {
        None
    } else {
        Some(SbeDecodeError::BufferTooShort { expected: n as usize, actual: (s.len() - p) as usize })
    }
}

/// Outcome of reading a `varString8` (one length byte, then that many UTF-8
/// bytes) at `p`: the offset after it, or the error.
pub open spec fn var_string_scan(s: Seq<u8>, p: int) -> Result<int, SbeDecodeError> {
    match need(s, p, 1) {
        Some(e) => Err(e),
        None => match need(s, p + 1, s[p] as int) {
            Some(e) => Err(e),
            None => if valid_utf8(s.subrange(p + 1, p + 1 + s[p])) {
                Ok(p + 1 + s[p])
            } else {
                Err(SbeDecodeError::InvalidUtf8)
            },
        },
    }
}

/// The offset after the `varString8` at `p`.
pub open spec fn var_string_end(s: Seq<u8>, p: int) -> int {
    p + 1 + s[p]
}

/// The characters of the `varString8` at `p`.
pub open spec fn var_string_at(s: Seq<u8>, p: int) -> Seq<char> {
    decode_utf8(s.subrange(p + 1, p + 1 + s[p]))
}

/// Outcome of reading a group header (`u16` block length, `u32` entry count) at `p`.
pub open spec fn group_header_scan(s: Seq<u8>, p: int) -> Result<(u16, u32), SbeDecodeError> {
    match need(s, p, 2) {
        Some(e) => Err(e),
        None => match need(s, p + 2, 4) {
            Some(e) => Err(e),
            None => if le_u32(s, p + 2) > MAX_GROUP_SIZE {
                Err(SbeDecodeError::GroupSizeTooLarge { count: le_u32(s, p + 2) as u32, max: MAX_GROUP_SIZE })
            } else {
                Ok((le_u16(s, p) as u16, le_u32(s, p + 2) as u32))
            },
        },
    }
}

/// `std::str::from_utf8`: the bytes are accepted exactly when they are valid
/// UTF-8, and the accepted string holds the characters they encode.
#[verifier::external_body]
fn utf8_str(bytes: &[u8]) -> (r: Option<&str>)
    ensures
        r is Some <==> valid_utf8(bytes@),
        r matches Some(s) ==> s@ == decode_utf8(bytes@),
{
    std::str::from_utf8(bytes).ok()
}

/// A read position in an SBE buffer.
pub struct SbeCursor<'a> {
    buf: &'a [u8],
    pos: usize,
}

impl<'a> SbeCursor<'a> {
    #[verifier::type_invariant]
    spec fn inv(self) -> bool {
        &&& self.pos <= self.buf@.len()
        &&& self.buf@.len() <= usize::MAX
    }

    /// The bytes being read.
    pub closed spec fn bytes(self) -> Seq<u8> {
        self.buf@
    }

    /// The current read offset.
    pub closed spec fn at(self) -> int {
        self.pos as int
    }

    /// A cursor at the start of `buf`.
    pub fn new(buf: &'a [u8]) -> (c: Self)
        ensures
            c.bytes() == buf@,
            c.at() == 0,
    {
        let _len = buf.len();
        SbeCursor { buf, pos: 0 }
    }

    /// The current read offset.
    pub fn position(&self) -> (p: usize)
        ensures
            p == self.at(),
            p <= self.bytes().len(),
            self.bytes().len() <= usize::MAX,
    {
        proof {
            use_type_invariant(self);
        }
        self.pos
    }

    /// Moves to offset `p`, which lies within the buffer.
    pub fn seek(&mut self, p: usize)
        requires
            p <= old(self).bytes().len(),
        ensures
            final(self).bytes() == old(self).bytes(),
            final(self).at() == p,
    {
        proof {
            use_type_invariant(&*self);
        }
        self.pos = p;
    }

    /// Checks that `n` more bytes can be read, without moving.
    pub fn require(&self, n: usize) -> (r: Result<(), SbeDecodeError>)
        ensures
            match need(self.bytes(), self.at(), n as int) {
                None => r is Ok,
                Some(e) => r == Err::<(), SbeDecodeError>(e),
            },
            self.at() <= self.bytes().len(),
    {
        proof {
            use_type_invariant(self);
        }
        let remaining = self.buf.len() - self.pos;
        if remaining < n {
            Err(SbeDecodeError::BufferTooShort { expected: n, actual: remaining })
        } else {
            Ok(())
        }
    }

    /// Consumes `n` bytes and returns the offset where they start.
    fn claim(&mut self, n: usize) -> (r: Result<usize, SbeDecodeError>)
        ensures
            final(self).bytes() == old(self).bytes(),
            final(self).at() <= final(self).bytes().len(),
            match need(old(self).bytes(), old(self).at(), n as int) {
                None => r == Ok::<usize, SbeDecodeError>(old(self).at() as usize) && final(self).at()
                    == old(self).at() + n,
                Some(e) => r == Err::<usize, SbeDecodeError>(e) && final(self).at() == old(self).at(),
            },
    {
        proof {
            use_type_invariant(&*self);
        }
        let remaining = self.buf.len() - self.pos;
        if remaining < n {
            Err(SbeDecodeError::BufferTooShort { expected: n, actual: remaining })
        } else {
            let start = self.pos;
            self.pos = start + n;
            Ok(start)
        }
    }

    /// Skips `n` bytes.
    pub fn advance(&mut self, n: usize) -> (r: Result<(), SbeDecodeError>)
        ensures
            final(self).bytes() == old(self).bytes(),
            final(self).at() <= final(self).bytes().len(),
            match need(old(self).bytes(), old(self).at(), n as int) {
                None => r is Ok && final(self).at() == old(self).at() + n,
                Some(e) => r == Err::<(), SbeDecodeError>(e),
            },
    {
        match self.claim(n) {
            Ok(_) => Ok(()),
            Err(e) => Err(e),
        }
    }

    /// Reads one unsigned byte.
    pub fn read_u8(&mut self) -> (r: Result<u8, SbeDecodeError>)
        ensures
            final(self).bytes() == old(self).bytes(),
            final(self).at() <= final(self).bytes().len(),
            match need(old(self).bytes(), old(self).at(), 1) {
                None => r == Ok::<u8, SbeDecodeError>(old(self).bytes()[old(self).at()])
                    && final(self).at() == old(self).at() + 1,
                Some(e) => r == Err::<u8, SbeDecodeError>(e),
            },
    {
        match self.claim(1) {
            Ok(p) => Ok(self.buf[p]),
            Err(e) => Err(e),
        }
    }

    /// Reads one signed byte.
    pub fn read_i8(&mut self) -> (r: Result<i8, SbeDecodeError>)
        ensures
            final(self).bytes() == old(self).bytes(),
            final(self).at() <= final(self).bytes().len(),
            match need(old(self).bytes(), old(self).at(), 1) {
                None => r == Ok::<i8, SbeDecodeError>(byte_i8(old(self).bytes(), old(self).at()) as i8)
                    && final(self).at() == old(self).at() + 1,
                Some(e) => r == Err::<i8, SbeDecodeError>(e),
            },
    {
        match self.claim(1) {
            Ok(p) => {
                let b = self.buf[p];
                if b < 128 {
                    Ok(b as i8)
                } else {
                    Ok((b as i16 - 256) as i8)
                }
            },
            Err(e) => Err(e),
        }
    }

    /// Reads a little-endian `u16`.
    pub fn read_u16_le(&mut self) -> (r: Result<u16, SbeDecodeError>)
        ensures
            final(self).bytes() == old(self).bytes(),
            final(self).at() <= final(self).bytes().len(),
            match need(old(self).bytes(), old(self).at(), 2) {
                None => r == Ok::<u16, SbeDecodeError>(le_u16(old(self).bytes(), old(self).at()) as u16)
                    && final(self).at() == old(self).at() + 2,
                Some(e) => r == Err::<u16, SbeDecodeError>(e),
            },
    {
        match self.claim(2) {
            Ok(p) => Ok(self.buf[p] as u16 + (self.buf[p + 1] as u16) * 256),
            Err(e) => Err(e),
        }
    }

    /// Reads a little-endian `u32`.
    pub fn read_u32_le(&mut self) -> (r: Result<u32, SbeDecodeError>)
        ensures
            final(self).bytes() == old(self).bytes(),
            final(self).at() <= final(self).bytes().len(),
            match need(old(self).bytes(), old(self).at(), 4) {
                None => r == Ok::<u32, SbeDecodeError>(le_u32(old(self).bytes(), old(self).at()) as u32)
                    && final(self).at() == old(self).at() + 4,
                Some(e) => r == Err::<u32, SbeDecodeError>(e),
            },
    {
        match self.claim(4) {
            Ok(p) => {
                let b = self.buf;
                Ok(b[p] as u32 + (b[p + 1] as u32) * 0x100 + (b[p + 2] as u32) * 0x1_0000 + (b[p
                    + 3] as u32) * 0x100_0000)
            },
            Err(e) => Err(e),
        }
    }

    /// Reads a little-endian `i64`.
    pub fn read_i64_le(&mut self) -> (r: Result<i64, SbeDecodeError>)
        ensures
            final(self).bytes() == old(self).bytes(),
            final(self).at() <= final(self).bytes().len(),
            match need(old(self).bytes(), old(self).at(), 8) {
                None => r == Ok::<i64, SbeDecodeError>(le_i64(old(self).bytes(), old(self).at()) as i64)
                    && final(self).at() == old(self).at() + 8,
                Some(e) => r == Err::<i64, SbeDecodeError>(e),
            },
    {
        match self.claim(8) {
            Ok(p) => {
                let b = self.buf;
                let u: u64 = b[p] as u64 + (b[p + 1] as u64) * 0x100 + (b[p + 2] as u64) * 0x1_0000
                    + (b[p + 3] as u64) * 0x100_0000 + (b[p + 4] as u64) * 0x1_0000_0000 + (b[p
                    + 5] as u64) * 0x100_0000_0000 + (b[p + 6] as u64) * 0x1_0000_0000_0000 + (b[p
                    + 7] as u64) * 0x100_0000_0000_0000;
                if u < 0x8000_0000_0000_0000 {
                    Ok(u as i64)
                } else {
                    Ok((u - 0x8000_0000_0000_0000) as i64 + i64::MIN)
                }
            },
            Err(e) => Err(e),
        }
    }

    /// Reads an optional little-endian `i64`, where `i64::MIN` encodes absence.
    pub fn read_optional_i64_le(&mut self) -> (r: Result<Option<i64>, SbeDecodeError>)
        ensures
            final(self).bytes() == old(self).bytes(),
            final(self).at() <= final(self).bytes().len(),
            match need(old(self).bytes(), old(self).at(), 8) {
                None => r == Ok::<Option<i64>, SbeDecodeError>(opt_i64(old(self).bytes(), old(self).at()))
                    && final(self).at() == old(self).at() + 8,
                Some(e) => r == Err::<Option<i64>, SbeDecodeError>(e),
            },
    {
        match self.read_i64_le() {
            Ok(v) => if v == i64::MIN {
                Ok(None)
            } else {
                Ok(Some(v))
            },
            Err(e) => Err(e),
        }
    }

    /// Reads `n` raw bytes.
    pub fn read_bytes(&mut self, n: usize) -> (r: Result<&'a [u8], SbeDecodeError>)
        ensures
            final(self).bytes() == old(self).bytes(),
            final(self).at() <= final(self).bytes().len(),
            match need(old(self).bytes(), old(self).at(), n as int) {
                None => r matches Ok(v) && v@ == old(self).bytes().subrange(
                    old(self).at(),
                    old(self).at() + n,
                ) && final(self).at() == old(self).at() + n,
                Some(e) => r == Err::<&[u8], SbeDecodeError>(e),
            },
    {
        match self.claim(n) {
            Ok(p) => {
                let b: &'a [u8] = self.buf;
                Ok(&b[p..p + n])
            },
            Err(e) => Err(e),
        }
    }

    /// Reads a `varString8`: a length byte followed by that many UTF-8 bytes.
    pub fn read_var_string8(&mut self) -> (r: Result<String, SbeDecodeError>)
        ensures
            final(self).bytes() == old(self).bytes(),
            final(self).at() <= final(self).bytes().len(),
            match var_string_scan(old(self).bytes(), old(self).at()) {
                Ok(end) => r matches Ok(v) && v@ == var_string_at(old(self).bytes(), old(self).at())
                    && final(self).at() == end,
                Err(e) => r == Err::<String, SbeDecodeError>(e),
            },
    {
        let n = match self.read_u8() {
            Ok(n) => n,
            Err(e) => return Err(e),
        };
        let raw = match self.read_bytes(n as usize) {
            Ok(raw) => raw,
            Err(e) => return Err(e),
        };
        match utf8_str(raw) {
            Some(s) => Ok(s.to_owned()),
            None => Err(SbeDecodeError::InvalidUtf8),
        }
    }

    /// Reads a repeating-group header: the entries' block length and their count.
    pub fn read_group_header(&mut self) -> (r: Result<(u16, u32), SbeDecodeError>)
        ensures
            final(self).bytes() == old(self).bytes(),
            final(self).at() <= final(self).bytes().len(),
            match group_header_scan(old(self).bytes(), old(self).at()) {
                Ok(h) => r == Ok::<(u16, u32), SbeDecodeError>(h) && final(self).at() == old(self).at()
                    + 6,
                Err(e) => r == Err::<(u16, u32), SbeDecodeError>(e),
            },
    {
        let block_length = match self.read_u16_le() {
            Ok(v) => v,
            Err(e) => return Err(e),
        };
        let count = match self.read_u32_le() {
            Ok(v) => v,
            Err(e) => return Err(e),
        };
        if count > MAX_GROUP_SIZE {
            return Err(SbeDecodeError::GroupSizeTooLarge { count, max: MAX_GROUP_SIZE });
        }
        Ok((block_length, count))
    }
}

} // verus!
