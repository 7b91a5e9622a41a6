//! Little-endian fields of a byte buffer, read at any offset, with zero for a
//! field that does not fit in the buffer.

use crate::reader::{u16_at, u16_from_le, u32_at, u32_from_le, u8_at};
use vstd::prelude::*;

verus! {

/// A value that can be read as a byte buffer.
pub trait Reader {
    /// The bytes of the buffer.
    spec fn bytes(&self) -> Seq<u8>;

    fn get_slice(&self) -> (slice: &[u8])
        ensures
            slice@ == self.bytes(),
    ;

    /// The byte at `offset`, or zero where the buffer has no such byte.
    fn default_read_u8(&self, offset: usize) -> (value: u8)
        ensures
            value == u8_at(self.bytes(), offset as int),
    {
        let data = self.get_slice();
        if offset < data.len() {
            data[offset]
        } else {
            0
        }
    }

    /// The 16-bit little-endian value at `offset`, or zero where it does not
    /// fit in the buffer.
    fn default_read_le_u16(&self, offset: usize) -> (value: u16)
        ensures
            value == u16_at(self.bytes(), offset as int),
    {
        let data = self.get_slice();
        if data.len() >= 2 && offset <= data.len() - 2 {
            u16_from_le(data[offset], data[offset + 1])
        } else {
            0
        }
    }

    /// The 32-bit little-endian value at `offset`, or zero where it does not
    /// fit in the buffer.
    fn default_read_le_u32(&self, offset: usize) -> (value: u32)
        ensures
            value == u32_at(self.bytes(), offset as int),
    {
        let data = self.get_slice();
        if data.len() >= 4 && offset <= data.len() - 4 {
            u32_from_le(data[offset], data[offset + 1], data[offset + 2], data[offset + 3])
        } else {
            0
        }
    }
}

impl Reader for [u8] {
    open spec fn bytes(&self) -> Seq<u8> {
        self@
    }

    fn get_slice(&self) -> (slice: &[u8]) {
        self
    }
}

impl Reader for Vec<u8> {
    open spec fn bytes(&self) -> Seq<u8> {
        self@
    }

    fn get_slice(&self) -> (slice: &[u8]) {
        self.as_slice()
    }
}

} // verus!
