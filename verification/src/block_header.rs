use vstd::prelude::*;

use crate::block_image_header::{image_header_at, XLogRecordBlockImageHeader,
    BLOCK_IMAGE_HEADER_SIZE};
use crate::errors::DecodeError;
use crate::reader::{le16_at, le32_at, read_u16, read_u32, read_u8, Endianness};

verus! {

/// Bytes a relation-file locator occupies on the wire.
pub const REL_FILE_LOCATOR_SIZE: usize = 12;

/// Mask of the fork-number bits in a `fork_flags` byte.
pub const BKPBLOCK_FORK_MASK: u8 = 0x0F;

/// Mask of the flag bits in a `fork_flags` byte.
pub const BKPBLOCK_FLAG_MASK: u8 = 0xF0;

/// Block flag: an image header follows.
pub const BKPBLOCK_HAS_IMAGE: u8 = 0x10;

/// Block flag: the block carries payload data.
pub const BKPBLOCK_HAS_DATA: u8 = 0x20;

/// Block flag: redo will re-initialize the page.
pub const BKPBLOCK_WILL_INIT: u8 = 0x40;

/// Block flag: the relation-file locator is omitted; the block belongs
/// to the same relation as the previous one.
pub const BKPBLOCK_SAME_REL: u8 = 0x80;

/// Identifies the physical relation a block belongs to: tablespace,
/// database, and relation number.
#[derive(Debug, Clone, Copy, PartialEq, Eq, Structural)]
pub struct RelFileLocator {
    pub spc_oid: u32,
    pub db_oid: u32,
    pub rel_number: u32,
}

/// One block touched by a WAL record: the variable-shape reference
/// header.  The image header is present exactly when `HAS_IMAGE` is set;
/// the locator is present exactly when `SAME_REL` is not set (its
/// omission means the previous block's relation is reused).
#[derive(Debug, Clone, Copy, PartialEq, Eq, Structural)]
pub struct XLogRecordBlockHeader {
    /// Block reference id.
    pub id: u8,
    /// Fork number in the low four bits, flags in the high four.
    pub fork_flags: u8,
    /// Number of payload bytes, not counting any page image.
    pub data_length: u16,
    /// The attached page image, when `HAS_IMAGE` is set.
    pub image_header: Option<XLogRecordBlockImageHeader>,
    /// The relation touched, unless `SAME_REL` reuses the previous one.
    pub rel_file_locator: Option<RelFileLocator>,
    /// Number of the touched block within its fork.
    pub block_number: u32,
}

/// The block flags unpacked from a `fork_flags` byte.
#[derive(Debug, Clone, Copy, PartialEq, Eq, Structural)]
pub struct XLogRecordBlockHeaderFlags {
    pub has_image: bool,
    pub has_data: bool,
    pub will_init: bool,
    pub same_rel: bool,
}

/// The locator spelled by the twelve bytes at `off`; callers must stay
/// within the buffer.
pub open spec fn rel_file_locator_at(b: Seq<u8>, off: int) -> RelFileLocator
    recommends
        0 <= off,
        off + REL_FILE_LOCATOR_SIZE <= b.len(),
{
    RelFileLocator {
        spc_oid: le32_at(b, off) as u32,
        db_oid: le32_at(b, off + 4) as u32,
        rel_number: le32_at(b, off + 8) as u32,
    }
}

/// How many bytes a block reference whose flag byte is `fork_flags`
/// occupies: the fixed four, an image header if `HAS_IMAGE`, a locator
/// unless `SAME_REL`, and the block number.
pub open spec fn spec_block_header_size(fork_flags: u8) -> int {
    8 + (if fork_flags & BKPBLOCK_HAS_IMAGE != 0 {
        BLOCK_IMAGE_HEADER_SIZE as int
    } else {
        0
    }) + (if fork_flags & BKPBLOCK_SAME_REL == 0 {
        REL_FILE_LOCATOR_SIZE as int
    } else {
        0
    })
}

/// The block reference spelled by the bytes at `off` together with the
/// number of bytes it occupies, or `None` when the shape its flags
/// declare runs past the end of the buffer.
pub open spec fn spec_block_header(b: Seq<u8>, off: int) -> Option<(XLogRecordBlockHeader, int)> {
    if !(0 <= off && off + 4 <= b.len()) {
        None
    } else {
        let fork_flags = b[off + 1];
        let image_off = off + 4;
        let locator_off = image_off + if fork_flags & BKPBLOCK_HAS_IMAGE != 0 {
            BLOCK_IMAGE_HEADER_SIZE as int
        } else {
            0
        };
        let number_off = locator_off + if fork_flags & BKPBLOCK_SAME_REL == 0 {
            REL_FILE_LOCATOR_SIZE as int
        } else {
            0
        };
        if number_off + 4 <= b.len() {
            Some(
                (
                    XLogRecordBlockHeader {
                        id: b[off],
                        fork_flags,
                        data_length: le16_at(b, off + 2) as u16,
                        image_header: if fork_flags & BKPBLOCK_HAS_IMAGE != 0 {
                            Some(image_header_at(b, image_off))
                        } else {
                            None
                        },
                        rel_file_locator: if fork_flags & BKPBLOCK_SAME_REL == 0 {
                            Some(rel_file_locator_at(b, locator_off))
                        } else {
                            None
                        },
                        block_number: le32_at(b, number_off) as u32,
                    },
                    number_off + 4 - off,
                ),
            )
        } else {
            None
        }
    }
}

/// A decoded block reference's shape follows its flags: the image header
/// is present exactly when `HAS_IMAGE` is set, the locator exactly when
/// `SAME_REL` is not, and the bytes consumed are exactly what that shape
/// occupies.
pub proof fn lemma_block_shape_follows_flags(b: Seq<u8>, off: int)
    requires
        spec_block_header(b, off) is Some,
    ensures
        ({
            let p = spec_block_header(b, off)->Some_0;
            &&& (p.0.image_header is Some <==> p.0.fork_flags & BKPBLOCK_HAS_IMAGE != 0)
            &&& (p.0.rel_file_locator is Some <==> p.0.fork_flags & BKPBLOCK_SAME_REL == 0)
            &&& p.1 == spec_block_header_size(p.0.fork_flags)
            &&& 8 <= p.1 <= 25
            &&& off + p.1 <= b.len()
        }),
{
}

impl XLogRecordBlockHeader {
    /// Decode one block reference from the bytes at `offset`, returning
    /// it with the number of bytes it occupied, so the caller's cursor
    /// can advance past exactly the shape the flags declared.  Fails
    /// with `OutOfBounds` when that shape runs past the buffer.
    pub fn from_bytes(buffer: &[u8], offset: usize) -> (r: Result<
        (XLogRecordBlockHeader, usize),
        DecodeError,
    >)
        ensures
            spec_block_header(buffer@, offset as int) matches Some(p) ==> r matches Ok(q)
                && q.0 == p.0 && q.1 == p.1,
            spec_block_header(buffer@, offset as int) is None ==> r == Err::<
                (XLogRecordBlockHeader, usize),
                DecodeError,
            >(DecodeError::OutOfBounds),
            r matches Ok(q) ==> 8 <= q.1 && offset + q.1 <= buffer@.len(),
    {
        let _buffer_len = buffer.len();
        let id = match read_u8(buffer, offset) {
            Ok(v) => v,
            Err(e) => {
                return Err(e);
            },
        };
        let fork_flags = match read_u8(buffer, offset + 1) {
            Ok(v) => v,
            Err(e) => {
                return Err(e);
            },
        };
        let data_length = match read_u16(buffer, offset + 2, Endianness::Little) {
            Ok(v) => v,
            Err(e) => {
                return Err(e);
            },
        };
        let mut cursor = offset + 4;
        let image_header = if fork_flags & BKPBLOCK_HAS_IMAGE != 0 {
            match XLogRecordBlockImageHeader::from_bytes(buffer, cursor) {
                Ok(h) => {
                    cursor = cursor + BLOCK_IMAGE_HEADER_SIZE;
                    Some(h)
                },
                Err(e) => {
                    return Err(e);
                },
            }
        } else {
            None
        };
        let rel_file_locator = if fork_flags & BKPBLOCK_SAME_REL == 0 {
            let spc_oid = match read_u32(buffer, cursor, Endianness::Little) {
                Ok(v) => v,
                Err(e) => {
                    return Err(e);
                },
            };
            let db_oid = match read_u32(buffer, cursor + 4, Endianness::Little) {
                Ok(v) => v,
                Err(e) => {
                    return Err(e);
                },
            };
            let rel_number = match read_u32(buffer, cursor + 8, Endianness::Little) {
                Ok(v) => v,
                Err(e) => {
                    return Err(e);
                },
            };
            cursor = cursor + REL_FILE_LOCATOR_SIZE;
            Some(RelFileLocator { spc_oid, db_oid, rel_number })
        } else {
            None
        };
        let block_number = match read_u32(buffer, cursor, Endianness::Little) {
            Ok(v) => v,
            Err(e) => {
                return Err(e);
            },
        };
        cursor = cursor + 4;
        Ok(
            (
                XLogRecordBlockHeader {
                    id,
                    fork_flags,
                    data_length,
                    image_header,
                    rel_file_locator,
                    block_number,
                },
                cursor - offset,
            ),
        )
    }

    /// The block flags unpacked from `fork_flags`.
    pub fn read_flags(&self) -> (r: XLogRecordBlockHeaderFlags)
        ensures
            r.has_image == (self.fork_flags & BKPBLOCK_HAS_IMAGE != 0),
            r.has_data == (self.fork_flags & BKPBLOCK_HAS_DATA != 0),
            r.will_init == (self.fork_flags & BKPBLOCK_WILL_INIT != 0),
            r.same_rel == (self.fork_flags & BKPBLOCK_SAME_REL != 0),
    {
        XLogRecordBlockHeaderFlags {
            has_image: self.fork_flags & BKPBLOCK_HAS_IMAGE != 0,
            has_data: self.fork_flags & BKPBLOCK_HAS_DATA != 0,
            will_init: self.fork_flags & BKPBLOCK_WILL_INIT != 0,
            same_rel: self.fork_flags & BKPBLOCK_SAME_REL != 0,
        }
    }

    /// The fork number: the low four bits of `fork_flags` (main, free
    /// space map, visibility map, or init).
    pub fn fork_number(&self) -> (r: u8)
        ensures
            r == self.fork_flags & BKPBLOCK_FORK_MASK,
    {
        self.fork_flags & BKPBLOCK_FORK_MASK
    }
}

} // verus!
