use vstd::prelude::*;

use crate::block_header::{spec_block_header, XLogRecordBlockHeader};
use crate::errors::DecodeError;
use crate::record_header::{spec_record_header, XLogRecordHeader, RECORD_HEADER_SIZE};
use crate::rmgr::{is_heap, rmgr_of_id, ResourceManager, HEAP_RMGR_ID};
use crate::transaction_id::is_reserved_xid;

verus! {

/// Block-id bytes below this value open an ordinary block reference.
pub const XLR_MAX_BLOCK_ID: u8 = 32;

/// Sentinel: a short data payload follows; no more block references.
pub const XLR_BLOCK_ID_DATA_SHORT: u8 = 255;

/// Sentinel: a long data payload follows; no more block references.
pub const XLR_BLOCK_ID_DATA_LONG: u8 = 254;

/// Sentinel: a replication-origin section follows; no more block
/// references.
pub const XLR_BLOCK_ID_ORIGIN: u8 = 253;

/// Sentinel: a top-level transaction id follows; it carries no block
/// reference and scanning continues after it.
pub const XLR_BLOCK_ID_TOPLEVEL_XID: u8 = 252;

/// Bytes the top-level-transaction-id sentinel occupies: its id byte and
/// the four-byte id that is read past but not kept.
pub const TOPLEVEL_XID_SKIP_SIZE: usize = 5;

/// The block references spelled by the bytes from `off` on, scanned until
/// a terminating sentinel: ordinary ids accumulate one reference each,
/// the top-level-id sentinel is skipped, the data and origin sentinels
/// stop the scan, anything else is an `InvalidBlockId` error, and running
/// past the end of the buffer is `OutOfBounds`.
pub open spec fn spec_scan_blocks(b: Seq<u8>, off: int) -> Result<
    Seq<XLogRecordBlockHeader>,
    DecodeError,
>
    decreases b.len() - off,
{
    if !(0 <= off && off < b.len()) {
        Err(DecodeError::OutOfBounds)
    } else {
        let id = b[off];
        if id < XLR_MAX_BLOCK_ID {
            match spec_block_header(b, off) {
                None => Err(DecodeError::OutOfBounds),
                Some(p) => match spec_scan_blocks(b, off + p.1) {
                    Ok(rest) => Ok(seq![p.0] + rest),
                    Err(e) => Err(e),
                },
            }
        } else if id == XLR_BLOCK_ID_DATA_SHORT || id == XLR_BLOCK_ID_DATA_LONG || id
            == XLR_BLOCK_ID_ORIGIN {
            Ok(Seq::empty())
        } else if id == XLR_BLOCK_ID_TOPLEVEL_XID {
            if off + TOPLEVEL_XID_SKIP_SIZE <= b.len() {
                spec_scan_blocks(b, off + TOPLEVEL_XID_SKIP_SIZE)
            } else {
                Err(DecodeError::OutOfBounds)
            }
        } else {
            Err(DecodeError::InvalidBlockId(id))
        }
    }
}

/// Every block reference a successful scan accumulates came from an
/// ordinary block id, and its optional parts follow its flags: the image
/// header is present exactly when `HAS_IMAGE` is set, the locator
/// exactly when `SAME_REL` is not.
pub proof fn lemma_scanned_blocks_follow_flags(b: Seq<u8>, off: int)
    requires
        spec_scan_blocks(b, off) is Ok,
    ensures
        forall|i: int|
            0 <= i < spec_scan_blocks(b, off)->Ok_0.len() ==> {
                let h = #[trigger] spec_scan_blocks(b, off)->Ok_0[i];
                &&& h.id < XLR_MAX_BLOCK_ID
                &&& (h.image_header is Some <==> h.fork_flags
                    & crate::block_header::BKPBLOCK_HAS_IMAGE != 0)
                &&& (h.rel_file_locator is Some <==> h.fork_flags
                    & crate::block_header::BKPBLOCK_SAME_REL == 0)
            },
    decreases b.len() - off,
{
    let blocks = spec_scan_blocks(b, off)->Ok_0;
    if 0 <= off && off < b.len() {
        let id = b[off];
        if id < XLR_MAX_BLOCK_ID {
            let p = spec_block_header(b, off)->Some_0;
            crate::block_header::lemma_block_shape_follows_flags(b, off);
            lemma_scanned_blocks_follow_flags(b, off + p.1);
            let rest = spec_scan_blocks(b, off + p.1)->Ok_0;
            assert(p.0.id == id);
            assert forall|i: int| 0 <= i < blocks.len() implies {
                let h = #[trigger] blocks[i];
                &&& h.id < XLR_MAX_BLOCK_ID
                &&& (h.image_header is Some <==> h.fork_flags
                    & crate::block_header::BKPBLOCK_HAS_IMAGE != 0)
                &&& (h.rel_file_locator is Some <==> h.fork_flags
                    & crate::block_header::BKPBLOCK_SAME_REL == 0)
            } by {
                if i == 0 {
                    assert(blocks[0] == p.0);
                } else {
                    assert(blocks[i] == rest[i - 1]);
                }
            }
        } else if id == XLR_BLOCK_ID_TOPLEVEL_XID {
            if off + TOPLEVEL_XID_SKIP_SIZE <= b.len() {
                lemma_scanned_blocks_follow_flags(b, off + TOPLEVEL_XID_SKIP_SIZE);
            }
        }
    }
}

/// Scan the block references that follow a record header, starting at
/// `offset`.  Returns them in wire order; surfaces the first error and
/// discards any partially accumulated references.
pub fn scan_blocks(buffer: &[u8], offset: usize) -> (r: Result<
    Vec<XLogRecordBlockHeader>,
    DecodeError,
>)
    ensures
        spec_scan_blocks(buffer@, offset as int) matches Ok(s) ==> (r matches Ok(v) && v@ == s),
        spec_scan_blocks(buffer@, offset as int) matches Err(e) ==> r == Err::<
            Vec<XLogRecordBlockHeader>,
            DecodeError,
        >(e),
{
    let ghost b = buffer@;
    let ghost off0 = offset as int;
    let mut blocks: Vec<XLogRecordBlockHeader> = Vec::new();
    let mut cur: usize = offset;
    loop
        invariant
            b == buffer@,
            off0 == offset as int,
            (match spec_scan_blocks(b, cur as int) {
                Ok(rest) => spec_scan_blocks(b, off0) == Ok::<
                    Seq<XLogRecordBlockHeader>,
                    DecodeError,
                >(blocks@ + rest),
                Err(e) => spec_scan_blocks(b, off0) == Err::<
                    Seq<XLogRecordBlockHeader>,
                    DecodeError,
                >(e),
            }),
        decreases b.len() - cur,
    {
        if cur >= buffer.len() {
            return Err(DecodeError::OutOfBounds);
        }
        let id = buffer[cur];
        if id < XLR_MAX_BLOCK_ID {
            match XLogRecordBlockHeader::from_bytes(buffer, cur) {
                Err(e) => {
                    proof {
                        assert(spec_block_header(b, cur as int) is None);
                    }
                    return Err(e);
                },
                Ok((h, size)) => {
                    proof {
                        assert(spec_block_header(b, cur as int) matches Some(p) && p.0 == h
                            && p.1 == size);
                        match spec_scan_blocks(b, cur + size) {
                            Ok(rest) => {
                                assert(spec_scan_blocks(b, cur as int) == Ok::<
                                    Seq<XLogRecordBlockHeader>,
                                    DecodeError,
                                >(seq![h] + rest));
                                assert(blocks@ + (seq![h] + rest) =~= blocks@.push(h) + rest);
                            },
                            Err(_) => {},
                        }
                    }
                    blocks.push(h);
                    cur = cur + size;
                },
            }
        } else if id == XLR_BLOCK_ID_DATA_SHORT || id == XLR_BLOCK_ID_DATA_LONG || id
            == XLR_BLOCK_ID_ORIGIN {
            proof {
                assert(blocks@ + Seq::<XLogRecordBlockHeader>::empty() =~= blocks@);
            }
            return Ok(blocks);
        } else if id == XLR_BLOCK_ID_TOPLEVEL_XID {
            if buffer.len() - cur < TOPLEVEL_XID_SKIP_SIZE {
                return Err(DecodeError::OutOfBounds);
            }
            cur = cur + TOPLEVEL_XID_SKIP_SIZE;
        } else {
            return Err(DecodeError::InvalidBlockId(id));
        }
    }
}

/// The block references of the record whose header sits at `off`, after
/// the two gates: a record of a reserved transaction id (invalid or
/// bootstrap) has no references worth decoding, an id outside the
/// registry is an error, and any known manager but the heap one yields
/// an empty sequence.
pub open spec fn spec_process_wal_record(b: Seq<u8>, off: int) -> Result<
    Seq<XLogRecordBlockHeader>,
    DecodeError,
> {
    match spec_record_header(b, off) {
        None => Err(DecodeError::TruncatedRecord),
        Some(rh) => if is_reserved_xid(rh.xl_xid.0) {
            Ok(Seq::empty())
        } else if rmgr_of_id(rh.xl_rmid.0) is None {
            Err(DecodeError::UnknownResourceManager(rh.xl_rmid.0))
        } else if rh.xl_rmid.0 != HEAP_RMGR_ID {
            Ok(Seq::empty())
        } else {
            spec_scan_blocks(b, off + RECORD_HEADER_SIZE)
        },
    }
}

/// Decode the record header at `offset`, run the transaction-id and
/// resource-manager gates, and scan the block references that follow.
pub fn process_wal_record(buffer: &[u8], offset: usize) -> (r: Result<
    Vec<XLogRecordBlockHeader>,
    DecodeError,
>)
    ensures
        spec_process_wal_record(buffer@, offset as int) matches Ok(s) ==> (r matches Ok(v) && v@
            == s),
        spec_process_wal_record(buffer@, offset as int) matches Err(e) ==> r == Err::<
            Vec<XLogRecordBlockHeader>,
            DecodeError,
        >(e),
{
    let _buffer_len = buffer.len();
    let record = match XLogRecordHeader::from_bytes(buffer, offset) {
        Ok(h) => h,
        Err(e) => {
            return Err(e);
        },
    };
    if record.xl_xid.is_reserved() {
        return Ok(Vec::new());
    }
    if let Err(e) = ResourceManager::try_from(record.xl_rmid) {
        return Err(e);
    }
    if !is_heap(record.xl_rmid) {
        return Ok(Vec::new());
    }
    scan_blocks(buffer, offset + RECORD_HEADER_SIZE)
}

} // verus!
