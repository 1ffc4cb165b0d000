use vstd::prelude::*;
use vstd::slice::slice_subrange;

use crate::errors::DecodeError;

verus! {

/// Byte order of one wire field.  The protocol fixes it per field (the
/// message header is big-endian, record and block headers little-endian),
/// so every read names it explicitly instead of inferring it from the host.
#[derive(Clone, Copy, Debug, PartialEq, Eq, Structural)]
pub enum Endianness {
    Big,
    Little,
}

/// Little-endian value of the two bytes at `i`.
pub open spec fn le16_at(b: Seq<u8>, i: int) -> int {
    b[i] + 0x100 * b[i + 1]
}

/// Big-endian value of the two bytes at `i`.
pub open spec fn be16_at(b: Seq<u8>, i: int) -> int {
    0x100 * b[i] + b[i + 1]
}

/// Little-endian value of the four bytes at `i`.
pub open spec fn le32_at(b: Seq<u8>, i: int) -> int {
    b[i] + 0x100 * b[i + 1] + 0x1_0000 * b[i + 2] + 0x100_0000 * b[i + 3]
}

/// Big-endian value of the four bytes at `i`.
pub open spec fn be32_at(b: Seq<u8>, i: int) -> int {
    0x100_0000 * b[i] + 0x1_0000 * b[i + 1] + 0x100 * b[i + 2] + b[i + 3]
}

/// Little-endian value of the eight bytes at `i`.
pub open spec fn le64_at(b: Seq<u8>, i: int) -> int {
    b[i] + 0x100 * b[i + 1] + 0x1_0000 * b[i + 2] + 0x100_0000 * b[i + 3] + 0x1_0000_0000 * b[i
        + 4] + 0x100_0000_0000 * b[i + 5] + 0x1_0000_0000_0000 * b[i + 6] + 0x100_0000_0000_0000
        * b[i + 7]
}

/// Big-endian value of the eight bytes at `i`.
pub open spec fn be64_at(b: Seq<u8>, i: int) -> int {
    0x100_0000_0000_0000 * b[i] + 0x1_0000_0000_0000 * b[i + 1] + 0x100_0000_0000 * b[i + 2]
        + 0x1_0000_0000 * b[i + 3] + 0x100_0000 * b[i + 4] + 0x1_0000 * b[i + 5] + 0x100 * b[i
        + 6] + b[i + 7]
}

/// Value of the two bytes at `i` in the given byte order.
pub open spec fn u16_at(b: Seq<u8>, i: int, e: Endianness) -> int {
    match e {
        Endianness::Big => be16_at(b, i),
        Endianness::Little => le16_at(b, i),
    }
}

/// Value of the four bytes at `i` in the given byte order.
pub open spec fn u32_at(b: Seq<u8>, i: int, e: Endianness) -> int {
    match e {
        Endianness::Big => be32_at(b, i),
        Endianness::Little => le32_at(b, i),
    }
}

/// Value of the eight bytes at `i` in the given byte order.
pub open spec fn u64_at(b: Seq<u8>, i: int, e: Endianness) -> int {
    match e {
        Endianness::Big => be64_at(b, i),
        Endianness::Little => le64_at(b, i),
    }
}

/// Read the byte at `offset`, or fail if it lies past the length bound.
pub fn read_u8(buffer: &[u8], offset: usize) -> (r: Result<u8, DecodeError>)
    ensures
        offset + 1 <= buffer@.len() ==> r == Ok::<u8, DecodeError>(buffer@[offset as int]),
        offset + 1 > buffer@.len() ==> r == Err::<u8, DecodeError>(DecodeError::OutOfBounds),
{
    if offset < buffer.len() {
        Ok(buffer[offset])
    } else {
        Err(DecodeError::OutOfBounds)
    }
}

/// Read two bytes at `offset` as an unsigned integer in the given byte
/// order, or fail if they lie past the length bound.
pub fn read_u16(buffer: &[u8], offset: usize, endianness: Endianness) -> (r: Result<
    u16,
    DecodeError,
>)
    ensures
        offset + 2 <= buffer@.len() ==> (r matches Ok(v) && v == u16_at(
            buffer@,
            offset as int,
            endianness,
        )),
        offset + 2 > buffer@.len() ==> r == Err::<u16, DecodeError>(DecodeError::OutOfBounds),
{
    if offset < buffer.len() && 2 <= buffer.len() - offset {
        let b0 = buffer[offset] as u16;
        let b1 = buffer[offset + 1] as u16;
        match endianness {
            Endianness::Big => Ok(0x100 * b0 + b1),
            Endianness::Little => Ok(b0 + 0x100 * b1),
        }
    } else {
        Err(DecodeError::OutOfBounds)
    }
}

/// Read four bytes at `offset` as an unsigned integer in the given byte
/// order, or fail if they lie past the length bound.
pub fn read_u32(buffer: &[u8], offset: usize, endianness: Endianness) -> (r: Result<
    u32,
    DecodeError,
>)
    ensures
        offset + 4 <= buffer@.len() ==> (r matches Ok(v) && v == u32_at(
            buffer@,
            offset as int,
            endianness,
        )),
        offset + 4 > buffer@.len() ==> r == Err::<u32, DecodeError>(DecodeError::OutOfBounds),
{
    if offset < buffer.len() && 4 <= buffer.len() - offset {
        let b0 = buffer[offset] as u32;
        let b1 = buffer[offset + 1] as u32;
        let b2 = buffer[offset + 2] as u32;
        let b3 = buffer[offset + 3] as u32;
        match endianness {
            Endianness::Big => Ok(0x100_0000 * b0 + 0x1_0000 * b1 + 0x100 * b2 + b3),
            Endianness::Little => Ok(b0 + 0x100 * b1 + 0x1_0000 * b2 + 0x100_0000 * b3),
        }
    } else {
        Err(DecodeError::OutOfBounds)
    }
}

/// Read eight bytes at `offset` as an unsigned integer in the given byte
/// order, or fail if they lie past the length bound.
pub fn read_u64(buffer: &[u8], offset: usize, endianness: Endianness) -> (r: Result<
    u64,
    DecodeError,
>)
    ensures
        offset + 8 <= buffer@.len() ==> (r matches Ok(v) && v == u64_at(
            buffer@,
            offset as int,
            endianness,
        )),
        offset + 8 > buffer@.len() ==> r == Err::<u64, DecodeError>(DecodeError::OutOfBounds),
{
    if offset < buffer.len() && 8 <= buffer.len() - offset {
        let b0 = buffer[offset] as u64;
        let b1 = buffer[offset + 1] as u64;
        let b2 = buffer[offset + 2] as u64;
        let b3 = buffer[offset + 3] as u64;
        let b4 = buffer[offset + 4] as u64;
        let b5 = buffer[offset + 5] as u64;
        let b6 = buffer[offset + 6] as u64;
        let b7 = buffer[offset + 7] as u64;
        match endianness {
            Endianness::Big => Ok(
                0x100_0000_0000_0000 * b0 + 0x1_0000_0000_0000 * b1 + 0x100_0000_0000 * b2
                    + 0x1_0000_0000 * b3 + 0x100_0000 * b4 + 0x1_0000 * b5 + 0x100 * b6 + b7,
            ),
            Endianness::Little => Ok(
                b0 + 0x100 * b1 + 0x1_0000 * b2 + 0x100_0000 * b3 + 0x1_0000_0000 * b4
                    + 0x100_0000_0000 * b5 + 0x1_0000_0000_0000 * b6 + 0x100_0000_0000_0000 * b7,
            ),
        }
    } else {
        Err(DecodeError::OutOfBounds)
    }
}

/// Borrow the `length` bytes starting at `offset`, or fail if they lie past
/// the length bound.  Never hands out more than was asked for.
pub fn read_bytes<'a>(buffer: &'a [u8], offset: usize, length: usize) -> (r: Result<
    &'a [u8],
    DecodeError,
>)
    ensures
        offset + length <= buffer@.len() ==> (r matches Ok(s) && s@ == buffer@.subrange(
            offset as int,
            offset + length,
        )),
        offset + length > buffer@.len() ==> r == Err::<&'a [u8], DecodeError>(
            DecodeError::OutOfBounds,
        ),
{
    if offset <= buffer.len() && length <= buffer.len() - offset {
        Ok(slice_subrange(buffer, offset, offset + length))
    } else {
        Err(DecodeError::OutOfBounds)
    }
}

} // verus!
