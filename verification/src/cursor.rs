//! The primitive field cursor: sequential little-endian reads over a byte buffer.
//!
//! Every multi-byte primitive of the protocol is little-endian.  A read
//! consumes exactly the width of the requested primitive and fails with
//! [`DecodeError::UnexpectedEndOfBuffer`] when fewer bytes remain; the cursor
//! never reads past the buffer's length.

use crate::error::DecodeError;
use vstd::prelude::*;

verus! {

/// The little-endian 16-bit value formed by `s[pos]` and `s[pos + 1]`.
pub open spec fn le_u16(s: Seq<u8>, pos: int) -> u16 {
    (s[pos] as u16) | ((s[pos + 1] as u16) << 8)
}

/// The little-endian 32-bit value formed by `s[pos]` through `s[pos + 3]`.
pub open spec fn le_u32(s: Seq<u8>, pos: int) -> u32 {
    (s[pos] as u32) | ((s[pos + 1] as u32) << 8) | ((s[pos + 2] as u32) << 16) | ((s[pos
        + 3] as u32) << 24)
}

/// The little-endian 64-bit value formed by `s[pos]` through `s[pos + 7]`.
pub open spec fn le_u64(s: Seq<u8>, pos: int) -> u64 {
    (s[pos] as u64) | ((s[pos + 1] as u64) << 8) | ((s[pos + 2] as u64) << 16) | ((s[pos
        + 3] as u64) << 24) | ((s[pos + 4] as u64) << 32) | ((s[pos + 5] as u64) << 40) | ((s[pos
        + 6] as u64) << 48) | ((s[pos + 7] as u64) << 56)
}

/// The two's-complement reading of the little-endian 16-bit value at `pos`.
pub open spec fn le_i16(s: Seq<u8>, pos: int) -> i16 {
    le_u16(s, pos) as i16
}

/// Sequential reader over an in-memory byte buffer.
pub struct Cursor {
    pub data: Vec<u8>,
    pub pos: usize,
}

impl Cursor {
    /// A cursor over `data`, positioned at its start.
    pub fn new(data: Vec<u8>) -> (c: Cursor)
        ensures
            c.data == data,
            c.pos == 0,
    {
        Cursor { data, pos: 0 }
    }

    /// Reads one unsigned byte.
    pub fn read_u8(&mut self) -> (r: Result<u8, DecodeError>)
        ensures
            final(self).data == old(self).data,
            old(self).pos + 1 <= old(self).data@.len() ==> r == Ok::<u8, DecodeError>(
                old(self).data@[old(self).pos as int],
            ) && final(self).pos == old(self).pos + 1,
            old(self).pos + 1 > old(self).data@.len() ==> r == Err::<u8, DecodeError>(
                DecodeError::UnexpectedEndOfBuffer,
            ) && final(self).pos == old(self).pos,
    {
        if self.pos < self.data.len() {
            let b = self.data[self.pos];
            self.pos = self.pos + 1;
            Ok(b)
        } else {
            Err(DecodeError::UnexpectedEndOfBuffer)
        }
    }

    /// Reads one signed byte.
    pub fn read_i8(&mut self) -> (r: Result<i8, DecodeError>)
        ensures
            final(self).data == old(self).data,
            old(self).pos + 1 <= old(self).data@.len() ==> r == Ok::<i8, DecodeError>(
                old(self).data@[old(self).pos as int] as i8,
            ) && final(self).pos == old(self).pos + 1,
            old(self).pos + 1 > old(self).data@.len() ==> r == Err::<i8, DecodeError>(
                DecodeError::UnexpectedEndOfBuffer,
            ) && final(self).pos == old(self).pos,
    {
        match self.read_u8() {
            Ok(b) => Ok(b as i8),
            Err(e) => Err(e),
        }
    }

    /// Reads a little-endian unsigned 16-bit value.
    pub fn read_u16(&mut self) -> (r: Result<u16, DecodeError>)
        ensures
            final(self).data == old(self).data,
            old(self).pos + 2 <= old(self).data@.len() ==> r == Ok::<u16, DecodeError>(
                le_u16(old(self).data@, old(self).pos as int),
            ) && final(self).pos == old(self).pos + 2,
            old(self).pos + 2 > old(self).data@.len() ==> r == Err::<u16, DecodeError>(
                DecodeError::UnexpectedEndOfBuffer,
            ) && final(self).pos == old(self).pos,
    {
        let n = self.data.len();
        if self.pos < n && n - self.pos >= 2 {
            let b0 = self.data[self.pos];
            let b1 = self.data[self.pos + 1];
            self.pos = self.pos + 2;
            Ok((b0 as u16) | ((b1 as u16) << 8u16))
        } else {
            Err(DecodeError::UnexpectedEndOfBuffer)
        }
    }

    /// Reads a little-endian signed 16-bit value.
    pub fn read_i16(&mut self) -> (r: Result<i16, DecodeError>)
        ensures
            final(self).data == old(self).data,
            old(self).pos + 2 <= old(self).data@.len() ==> r == Ok::<i16, DecodeError>(
                le_i16(old(self).data@, old(self).pos as int),
            ) && final(self).pos == old(self).pos + 2,
            old(self).pos + 2 > old(self).data@.len() ==> r == Err::<i16, DecodeError>(
                DecodeError::UnexpectedEndOfBuffer,
            ) && final(self).pos == old(self).pos,
    {
        match self.read_u16() {
            Ok(v) => Ok(v as i16),
            Err(e) => Err(e),
        }
    }

    /// Reads a little-endian unsigned 32-bit value.
    pub fn read_u32(&mut self) -> (r: Result<u32, DecodeError>)
        ensures
            final(self).data == old(self).data,
            old(self).pos + 4 <= old(self).data@.len() ==> r == Ok::<u32, DecodeError>(
                le_u32(old(self).data@, old(self).pos as int),
            ) && final(self).pos == old(self).pos + 4,
            old(self).pos + 4 > old(self).data@.len() ==> r == Err::<u32, DecodeError>(
                DecodeError::UnexpectedEndOfBuffer,
            ) && final(self).pos == old(self).pos,
    {
        let n = self.data.len();
        if self.pos < n && n - self.pos >= 4 {
            let b0 = self.data[self.pos];
            let b1 = self.data[self.pos + 1];
            let b2 = self.data[self.pos + 2];
            let b3 = self.data[self.pos + 3];
            self.pos = self.pos + 4;
            Ok((b0 as u32) | ((b1 as u32) << 8u32) | ((b2 as u32) << 16u32) | ((b3 as u32)
                << 24u32))
        } else {
            Err(DecodeError::UnexpectedEndOfBuffer)
        }
    }

    /// Reads a little-endian unsigned 64-bit value.
    pub fn read_u64(&mut self) -> (r: Result<u64, DecodeError>)
        ensures
            final(self).data == old(self).data,
            old(self).pos + 8 <= old(self).data@.len() ==> r == Ok::<u64, DecodeError>(
                le_u64(old(self).data@, old(self).pos as int),
            ) && final(self).pos == old(self).pos + 8,
            old(self).pos + 8 > old(self).data@.len() ==> r == Err::<u64, DecodeError>(
                DecodeError::UnexpectedEndOfBuffer,
            ) && final(self).pos == old(self).pos,
    {
        let n = self.data.len();
        if self.pos < n && n - self.pos >= 8 {
            let b0 = self.data[self.pos];
            let b1 = self.data[self.pos + 1];
            let b2 = self.data[self.pos + 2];
            let b3 = self.data[self.pos + 3];
            let b4 = self.data[self.pos + 4];
            let b5 = self.data[self.pos + 5];
            let b6 = self.data[self.pos + 6];
            let b7 = self.data[self.pos + 7];
            self.pos = self.pos + 8;
            Ok((b0 as u64) | ((b1 as u64) << 8u64) | ((b2 as u64) << 16u64) | ((b3 as u64)
                << 24u64) | ((b4 as u64) << 32u64) | ((b5 as u64) << 40u64) | ((b6 as u64)
                << 48u64) | ((b7 as u64) << 56u64))
        } else {
            Err(DecodeError::UnexpectedEndOfBuffer)
        }
    }
}

} // verus!
