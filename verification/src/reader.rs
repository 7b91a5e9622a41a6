//! Little-endian fields of a byte buffer, read at any offset.
//!
//! A read that does not fit in the buffer gives zero instead of failing, so a
//! field that is absent reads like a field that is zero.

use binrw::io::{Cursor, Read};
use binrw::BinReaderExt;
use vstd::prelude::*;

verus! {

/// The value of two bytes in little-endian order.
pub open spec fn le_u16(b0: u8, b1: u8) -> u16 {
    (b0 as int + 0x100 * (b1 as int)) as u16
}

/// The value of four bytes in little-endian order.
pub open spec fn le_u32(b0: u8, b1: u8, b2: u8, b3: u8) -> u32 {
    (b0 as int + 0x100 * (b1 as int) + 0x1_0000 * (b2 as int) + 0x100_0000 * (b3 as int)) as u32
}

/// The byte at `offset`, or zero where the buffer has no such byte.
pub open spec fn u8_at(bytes: Seq<u8>, offset: int) -> u8 {
    if 0 <= offset < bytes.len() {
        bytes[offset]
    } else {
        0
    }
}

/// The 16-bit little-endian value at `offset`, or zero where the buffer ends
/// before `offset + 2`.
pub open spec fn u16_at(bytes: Seq<u8>, offset: int) -> u16 {
    if 0 <= offset && offset + 2 <= bytes.len() {
        le_u16(bytes[offset], bytes[offset + 1])
    } else {
        0
    }
}

/// The 32-bit little-endian value at `offset`, or zero where the buffer ends
/// before `offset + 4`.
pub open spec fn u32_at(bytes: Seq<u8>, offset: int) -> u32 {
    if 0 <= offset && offset + 4 <= bytes.len() {
        le_u32(bytes[offset], bytes[offset + 1], bytes[offset + 2], bytes[offset + 3])
    } else {
        0
    }
}

/// Puts two bytes together in little-endian order.
pub fn u16_from_le(b0: u8, b1: u8) -> (value: u16)
    ensures
        value == le_u16(b0, b1),
{
    let value: u16 = (b0 as u16) | ((b1 as u16) << 8);
    assert(((b0 as u16) | ((b1 as u16) << 8)) == (b0 as u16) + 0x100 * (b1 as u16))
        by (bit_vector);
    value
}

/// Puts four bytes together in little-endian order.
pub fn u32_from_le(b0: u8, b1: u8, b2: u8, b3: u8) -> (value: u32)
    ensures
        value == le_u32(b0, b1, b2, b3),
{
    let value: u32 = (b0 as u32) | ((b1 as u32) << 8) | ((b2 as u32) << 16) | ((b3 as u32) << 24);
    assert(((b0 as u32) | ((b1 as u32) << 8) | ((b2 as u32) << 16) | ((b3 as u32) << 24)) == (
    b0 as u32) + 0x100 * (b1 as u32) + 0x1_0000 * (b2 as u32) + 0x100_0000 * (b3 as u32))
        by (bit_vector);
    value
}

/// Calls binrw's `BinReaderExt::read_le::<u8>` on a `Cursor` over `data`
/// that `Cursor::set_position` has put at `offset`. binrw fills a one-byte
/// buffer with `read_exact`; where no byte is left at `offset` that fails,
/// and the failure becomes zero here.
#[verifier::external_body]
fn cursor_read_u8(data: &[u8], offset: u64) -> (value: u8)
    ensures
        value == u8_at(data@, offset as int),
{
    let mut cursor = Cursor::new(data);
    cursor.set_position(offset);
    cursor.read_le().unwrap_or_default()
}

/// Calls binrw's `BinReaderExt::read_le::<u16>` on a `Cursor` over `data`
/// that `Cursor::set_position` has put at `offset`. binrw fills a two-byte
/// buffer with `read_exact` and decodes it with `u16::from_le_bytes`; where
/// fewer than two bytes are left at `offset` that fails, and the failure
/// becomes zero here.
#[verifier::external_body]
fn cursor_read_u16(data: &[u8], offset: u64) -> (value: u16)
    ensures
        value == u16_at(data@, offset as int),
{
    let mut cursor = Cursor::new(data);
    cursor.set_position(offset);
    cursor.read_le().unwrap_or_default()
}

/// Calls binrw's `BinReaderExt::read_le::<u32>` on a `Cursor` over `data`
/// that `Cursor::set_position` has put at `offset`. binrw fills a four-byte
/// buffer with `read_exact` and decodes it with `u32::from_le_bytes`; where
/// fewer than four bytes are left at `offset` that fails, and the failure
/// becomes zero here.
#[verifier::external_body]
fn cursor_read_u32(data: &[u8], offset: u64) -> (value: u32)
    ensures
        value == u32_at(data@, offset as int),
{
    let mut cursor = Cursor::new(data);
    cursor.set_position(offset);
    cursor.read_le().unwrap_or_default()
}

/// Calls binrw's `Read::read` once on a `Cursor` over `data` that
/// `Cursor::set_position` has put at `offset`, with a zeroed buffer of `LEN`
/// bytes. The cursor copies as many bytes as are left at `offset`, up to
/// `LEN`, to the front of the buffer and leaves the rest untouched.
#[verifier::external_body]
fn cursor_read_array<const LEN: usize>(data: &[u8], offset: u64) -> (buf: [u8; LEN])
    ensures
        forall|i: int| 0 <= i < LEN ==> #[trigger] buf@[i] == u8_at(data@, offset as int + i),
{
    let mut buf = [0u8; LEN];
    let mut cursor = Cursor::new(data);
    cursor.set_position(offset);
    let _ = Read::read(&mut cursor, &mut buf);
    buf
}

/// A value that can be read as a byte buffer.
pub trait Reader {
    /// The bytes of the buffer.
    spec fn bytes(&self) -> Seq<u8>;

    fn as_slice(&self) -> (slice: &[u8])
        ensures
            slice@ == self.bytes(),
    ;

    /// The byte at `offset`, or zero where the buffer has no such byte.
    fn read_u8(&self, offset: u64) -> (value: u8)
        ensures
            value == u8_at(self.bytes(), offset as int),
    {
        cursor_read_u8(self.as_slice(), offset)
    }

    /// The 16-bit little-endian value at `offset`, or zero where it does not
    /// fit in the buffer.
    fn read_u16(&self, offset: u64) -> (value: u16)
        ensures
            value == u16_at(self.bytes(), offset as int),
    {
        cursor_read_u16(self.as_slice(), offset)
    }

    /// The 32-bit little-endian value at `offset`, or zero where it does not
    /// fit in the buffer.
    fn read_u32(&self, offset: u64) -> (value: u32)
        ensures
            value == u32_at(self.bytes(), offset as int),
    {
        cursor_read_u32(self.as_slice(), offset)
    }

    /// The `LEN` bytes from `offset` on, with zero for each byte that the
    /// buffer does not have.
    fn read_array<const LEN: usize>(&self, offset: u64) -> (buf: [u8; LEN])
        ensures
            forall|i: int| 0 <= i < LEN ==> #[trigger] buf@[i] == u8_at(
                self.bytes(),
                offset as int + i,
            ),
    {
        cursor_read_array(self.as_slice(), offset)
    }
}

impl Reader for [u8] {
    open spec fn bytes(&self) -> Seq<u8> {
        self@
    }

    fn as_slice(&self) -> (slice: &[u8]) {
        self
    }
}

impl Reader for Vec<u8> {
    open spec fn bytes(&self) -> Seq<u8> {
        self@
    }

    fn as_slice(&self) -> (slice: &[u8]) {
        self.as_slice()
    }
}

impl<const N: usize> Reader for [u8; N] {
    open spec fn bytes(&self) -> Seq<u8> {
        self@
    }

    fn as_slice(&self) -> (slice: &[u8]) {
        self.as_slice()
    }
}

} // verus!
