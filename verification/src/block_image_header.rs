use vstd::prelude::*;

use crate::errors::DecodeError;
use crate::reader::{le16_at, read_u16, read_u8, Endianness};

verus! {

/// Bytes a block-image header occupies on the wire.
pub const BLOCK_IMAGE_HEADER_SIZE: usize = 5;

/// Image flag: the page image has a "hole" of unused bytes.
pub const BKPIMAGE_HAS_HOLE: u8 = 0x01;

/// Image flag: the page image should be restored during replay.
pub const BKPIMAGE_APPLY: u8 = 0x02;

/// Image flag: the page image is pglz-compressed.
pub const BKPIMAGE_COMPRESS_PGLZ: u8 = 0x04;

/// Image flag: the page image is lz4-compressed.
pub const BKPIMAGE_COMPRESS_LZ4: u8 = 0x08;

/// Image flag: the page image is zstd-compressed.
pub const BKPIMAGE_COMPRESS_ZSTD: u8 = 0x10;

/// Describes the full or partial page image attached to a block
/// reference; present only when the block's `HAS_IMAGE` flag is set.
#[derive(Debug, Clone, Copy, PartialEq, Eq, Structural)]
pub struct XLogRecordBlockImageHeader {
    /// Number of page-image bytes.
    pub length: u16,
    /// Number of bytes before the image's hole.
    pub hole_offset: u16,
    /// Image flag bits.
    pub bimg_info: u8,
}

/// The image flags unpacked from a `bimg_info` byte.
#[derive(Debug, Clone, Copy, PartialEq, Eq, Structural)]
pub struct XLogRecordBlockImageHeaderFlags {
    pub has_hole: bool,
    pub apply: bool,
    pub compress_pglz: bool,
    pub compress_lz4: bool,
    pub compress_zstd: bool,
}

/// The image header spelled by the five bytes at `off`; callers must
/// stay within the buffer.
pub open spec fn image_header_at(b: Seq<u8>, off: int) -> XLogRecordBlockImageHeader
    recommends
        0 <= off,
        off + BLOCK_IMAGE_HEADER_SIZE <= b.len(),
{
    XLogRecordBlockImageHeader {
        length: le16_at(b, off) as u16,
        hole_offset: le16_at(b, off + 2) as u16,
        bimg_info: b[off + 4],
    }
}

/// The image header spelled by the five bytes at `off`, or `None` when
/// fewer bytes remain.
pub open spec fn spec_block_image_header(b: Seq<u8>, off: int) -> Option<
    XLogRecordBlockImageHeader,
> {
    if 0 <= off && off + BLOCK_IMAGE_HEADER_SIZE <= b.len() {
        Some(image_header_at(b, off))
    } else {
        None
    }
}

impl XLogRecordBlockImageHeader {
    /// Decode an image header from the five bytes at `offset`.  Fails
    /// with `OutOfBounds` when fewer bytes remain.
    pub fn from_bytes(buffer: &[u8], offset: usize) -> (r: Result<
        XLogRecordBlockImageHeader,
        DecodeError,
    >)
        ensures
            spec_block_image_header(buffer@, offset as int) is Some ==> r == Ok::<
                XLogRecordBlockImageHeader,
                DecodeError,
            >(spec_block_image_header(buffer@, offset as int)->Some_0),
            spec_block_image_header(buffer@, offset as int) is None ==> r == Err::<
                XLogRecordBlockImageHeader,
                DecodeError,
            >(DecodeError::OutOfBounds),
    {
        let _buffer_len = buffer.len();
        let length = match read_u16(buffer, offset, Endianness::Little) {
            Ok(v) => v,
            Err(e) => {
                return Err(e);
            },
        };
        let hole_offset = match read_u16(buffer, offset + 2, Endianness::Little) {
            Ok(v) => v,
            Err(e) => {
                return Err(e);
            },
        };
        let bimg_info = match read_u8(buffer, offset + 4) {
            Ok(v) => v,
            Err(e) => {
                return Err(e);
            },
        };
        Ok(XLogRecordBlockImageHeader { length, hole_offset, bimg_info })
    }

    /// The image flags unpacked from `bimg_info`.
    pub fn read_flags(&self) -> (r: XLogRecordBlockImageHeaderFlags)
        ensures
            r.has_hole == (self.bimg_info & BKPIMAGE_HAS_HOLE != 0),
            r.apply == (self.bimg_info & BKPIMAGE_APPLY != 0),
            r.compress_pglz == (self.bimg_info & BKPIMAGE_COMPRESS_PGLZ != 0),
            r.compress_lz4 == (self.bimg_info & BKPIMAGE_COMPRESS_LZ4 != 0),
            r.compress_zstd == (self.bimg_info & BKPIMAGE_COMPRESS_ZSTD != 0),
    {
        XLogRecordBlockImageHeaderFlags {
            has_hole: self.bimg_info & BKPIMAGE_HAS_HOLE != 0,
            apply: self.bimg_info & BKPIMAGE_APPLY != 0,
            compress_pglz: self.bimg_info & BKPIMAGE_COMPRESS_PGLZ != 0,
            compress_lz4: self.bimg_info & BKPIMAGE_COMPRESS_LZ4 != 0,
            compress_zstd: self.bimg_info & BKPIMAGE_COMPRESS_ZSTD != 0,
        }
    }
}

} // verus!
