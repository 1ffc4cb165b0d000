use vstd::prelude::*;

use crate::errors::DecodeError;
use crate::reader::{le32_at, le64_at, read_u32, read_u64, read_u8, Endianness};
use crate::rmgr::RmgrId;
use crate::transaction_id::TransactionId;

verus! {

/// Bytes the fixed record header occupies on the wire.  This layout
/// version packs `xl_crc` directly after `xl_rmid`, with no padding
/// between them; the byte-exact record fixtures pin it.
pub const RECORD_HEADER_SIZE: usize = 22;

/// Record flag: the record modifies a relation in a special way.
pub const XLR_SPECIAL_REL_UPDATE: u8 = 0x01;

/// Record flag: consistency of the touched pages should be checked.
pub const XLR_CHECK_CONSISTENCY: u8 = 0x02;

/// The fixed header of the WAL record carried by a message, fields in
/// wire order, all little-endian.
#[derive(Debug, Clone, Copy, PartialEq, Eq, Structural)]
pub struct XLogRecordHeader {
    /// Total length of the entire record.
    pub xl_tot_len: u32,
    /// Id of the transaction the record belongs to.
    pub xl_xid: TransactionId,
    /// Pointer to the previous record in the log.
    pub xl_prev: u64,
    /// Flag bits: resource-manager sub-type in the high nibble, generic
    /// flags in the low bits.
    pub xl_info: u8,
    /// Resource manager owning this record.
    pub xl_rmid: RmgrId,
    /// CRC of the record.
    pub xl_crc: u32,
}

/// The generic record flags held in the low bits of `xl_info`.
#[derive(Debug, Clone, Copy, PartialEq, Eq, Structural)]
pub struct XLogRecordHeaderFlags {
    pub special_rel_update: bool,
    pub check_consistency: bool,
}

/// The record header spelled by the bytes at `off`, or `None` when fewer
/// bytes remain than the fixed layout needs.
pub open spec fn spec_record_header(b: Seq<u8>, off: int) -> Option<XLogRecordHeader> {
    if 0 <= off && off + RECORD_HEADER_SIZE <= b.len() {
        Some(
            XLogRecordHeader {
                xl_tot_len: le32_at(b, off) as u32,
                xl_xid: TransactionId(le32_at(b, off + 4) as u32),
                xl_prev: le64_at(b, off + 8) as u64,
                xl_info: b[off + 16],
                xl_rmid: RmgrId(b[off + 17]),
                xl_crc: le32_at(b, off + 18) as u32,
            },
        )
    } else {
        None
    }
}

/// The resource-manager sub-type held in the high nibble of an `xl_info`
/// byte.
pub open spec fn rmgr_info_bits(info: u8) -> u8 {
    (info & 0xF0) >> 4
}

impl XLogRecordHeader {
    /// Decode the fixed record header from the bytes at `offset`.  Fails
    /// with `TruncatedRecord` when fewer bytes remain.
    pub fn from_bytes(buffer: &[u8], offset: usize) -> (r: Result<XLogRecordHeader, DecodeError>)
        ensures
            spec_record_header(buffer@, offset as int) is Some ==> r == Ok::<
                XLogRecordHeader,
                DecodeError,
            >(spec_record_header(buffer@, offset as int)->Some_0),
            spec_record_header(buffer@, offset as int) is None ==> r == Err::<
                XLogRecordHeader,
                DecodeError,
            >(DecodeError::TruncatedRecord),
    {
        let _buffer_len = buffer.len();
        let xl_tot_len = match read_u32(buffer, offset, Endianness::Little) {
            Ok(v) => v,
            Err(_) => {
                return Err(DecodeError::TruncatedRecord);
            },
        };
        let xl_xid = match read_u32(buffer, offset + 4, Endianness::Little) {
            Ok(v) => v,
            Err(_) => {
                return Err(DecodeError::TruncatedRecord);
            },
        };
        let xl_prev = match read_u64(buffer, offset + 8, Endianness::Little) {
            Ok(v) => v,
            Err(_) => {
                return Err(DecodeError::TruncatedRecord);
            },
        };
        let xl_info = match read_u8(buffer, offset + 16) {
            Ok(v) => v,
            Err(_) => {
                return Err(DecodeError::TruncatedRecord);
            },
        };
        let xl_rmid = match read_u8(buffer, offset + 17) {
            Ok(v) => v,
            Err(_) => {
                return Err(DecodeError::TruncatedRecord);
            },
        };
        let xl_crc = match read_u32(buffer, offset + 18, Endianness::Little) {
            Ok(v) => v,
            Err(_) => {
                return Err(DecodeError::TruncatedRecord);
            },
        };
        Ok(
            XLogRecordHeader {
                xl_tot_len,
                xl_xid: TransactionId(xl_xid),
                xl_prev,
                xl_info,
                xl_rmid: RmgrId(xl_rmid),
                xl_crc,
            },
        )
    }

    /// The generic flags held in the low bits of `xl_info`.
    pub fn read_flags(&self) -> (r: XLogRecordHeaderFlags)
        ensures
            r.special_rel_update == (self.xl_info & XLR_SPECIAL_REL_UPDATE != 0),
            r.check_consistency == (self.xl_info & XLR_CHECK_CONSISTENCY != 0),
    {
        XLogRecordHeaderFlags {
            special_rel_update: self.xl_info & XLR_SPECIAL_REL_UPDATE != 0,
            check_consistency: self.xl_info & XLR_CHECK_CONSISTENCY != 0,
        }
    }

    /// The resource-manager sub-type: the high nibble of `xl_info`.
    pub fn read_rmgr_info_bytes(&self) -> (r: u8)
        ensures
            r == rmgr_info_bits(self.xl_info),
    {
        (self.xl_info & 0xF0) >> 4
    }
}

} // verus!
