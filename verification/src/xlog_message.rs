use vstd::prelude::*;

use crate::block_header::XLogRecordBlockHeader;
use crate::errors::DecodeError;
use crate::message_header::{spec_message_header, XLogMessageHeader, MESSAGE_HEADER_SIZE};
use crate::record_header::spec_record_header;
use crate::record_header::XLogRecordHeader;
use crate::rmgr::{rmgr_of_id, HEAP_RMGR_ID};
use crate::transaction_id::is_reserved_xid;
use crate::xlog_parser::{process_wal_record, spec_process_wal_record};

verus! {

/// Everything one decoded replication message says, as the contracts
/// speak of it: both fixed headers and the block references as a
/// sequence.
pub struct XLogMessageModel {
    pub header: XLogMessageHeader,
    pub wal_header: XLogRecordHeader,
    pub wal_block_headers: Seq<XLogRecordBlockHeader>,
}

/// The relevant parts of one streamed replication message: the message
/// header, the record header, and the block references of a heap record.
/// Only headers are decoded, never user data.
#[derive(Debug, PartialEq)]
pub struct XLogMessage {
    pub header: XLogMessageHeader,
    pub wal_header: XLogRecordHeader,
    pub wal_block_headers: Vec<XLogRecordBlockHeader>,
}

impl View for XLogMessage {
    type V = XLogMessageModel;

    open spec fn view(&self) -> XLogMessageModel {
        XLogMessageModel {
            header: self.header,
            wal_header: self.wal_header,
            wal_block_headers: self.wal_block_headers@,
        }
    }
}

/// The message spelled by the bytes from `off` on: the 24-byte message
/// header, the record header right after it, and — behind the
/// transaction-id and resource-manager gates — the block references.
/// Truncation of either fixed header is its own error; everything else
/// surfaces the scan's first error.
pub open spec fn spec_decode(b: Seq<u8>, off: int) -> Result<XLogMessageModel, DecodeError> {
    match spec_message_header(b, off) {
        None => Err(DecodeError::TruncatedMessage),
        Some(mh) => match spec_record_header(b, off + MESSAGE_HEADER_SIZE) {
            None => Err(DecodeError::TruncatedRecord),
            Some(rh) => match spec_process_wal_record(b, off + MESSAGE_HEADER_SIZE) {
                Ok(blocks) => Ok(
                    XLogMessageModel { header: mh, wal_header: rh, wal_block_headers: blocks },
                ),
                Err(e) => Err(e),
            },
        },
    }
}

/// Decode one replication message from the bytes at `offset` (the frame's
/// tag byte already stripped).  Reads nothing outside the buffer, keeps
/// no reference into it, and returns every failure as a value.
pub fn decode(buffer: &[u8], offset: usize) -> (r: Result<XLogMessage, DecodeError>)
    ensures
        spec_decode(buffer@, offset as int) matches Ok(m) ==> (r matches Ok(v) && v@ == m),
        spec_decode(buffer@, offset as int) matches Err(e) ==> r == Err::<XLogMessage, DecodeError>(
            e,
        ),
{
    let _buffer_len = buffer.len();
    let header = match XLogMessageHeader::from_bytes(buffer, offset) {
        Ok(h) => h,
        Err(e) => {
            return Err(e);
        },
    };
    let wal_header = match XLogRecordHeader::from_bytes(buffer, offset + MESSAGE_HEADER_SIZE) {
        Ok(h) => h,
        Err(e) => {
            return Err(e);
        },
    };
    let wal_block_headers = match process_wal_record(buffer, offset + MESSAGE_HEADER_SIZE) {
        Ok(v) => v,
        Err(e) => {
            return Err(e);
        },
    };
    Ok(XLogMessage { header, wal_header, wal_block_headers })
}

impl XLogMessage {
    /// Decode one replication message; see `decode`.
    pub fn from_bytes(buffer: &[u8], offset: usize) -> (r: Result<XLogMessage, DecodeError>)
        ensures
            spec_decode(buffer@, offset as int) matches Ok(m) ==> (r matches Ok(v) && v@ == m),
            spec_decode(buffer@, offset as int) matches Err(e) ==> r == Err::<
                XLogMessage,
                DecodeError,
            >(e),
    {
        decode(buffer, offset)
    }

    /// The block numbers of the decoded block references, in wire order.
    pub fn get_block_numbers(&self) -> (r: Vec<u32>)
        ensures
            r@.len() == self.wal_block_headers@.len(),
            forall|i: int|
                0 <= i < r@.len() ==> r@[i] == self.wal_block_headers@[i].block_number,
    {
        let mut numbers: Vec<u32> = Vec::new();
        let mut i: usize = 0;
        while i < self.wal_block_headers.len()
            invariant
                i <= self.wal_block_headers@.len(),
                numbers@.len() == i,
                forall|j: int|
                    0 <= j < i as int ==> numbers@[j] == self.wal_block_headers@[j].block_number,
            decreases self.wal_block_headers@.len() - i,
        {
            numbers.push(self.wal_block_headers[i].block_number);
            i = i + 1;
        }
        numbers
    }
}

/// A record of a reserved transaction id (invalid or bootstrap) decodes
/// to a message with no block references — never an error — whatever its
/// resource manager says.
pub proof fn lemma_reserved_xid_gives_empty(b: Seq<u8>, off: int)
    requires
        spec_message_header(b, off) is Some,
        spec_record_header(b, off + MESSAGE_HEADER_SIZE) is Some,
        is_reserved_xid(spec_record_header(b, off + MESSAGE_HEADER_SIZE)->Some_0.xl_xid.0),
    ensures
        spec_decode(b, off) matches Ok(m) && m.wal_block_headers.len() == 0,
{
}

/// A record of a known resource manager other than the heap manager
/// decodes to a message with no block references, not an error.
pub proof fn lemma_unsupported_rmgr_gives_empty(b: Seq<u8>, off: int)
    requires
        spec_message_header(b, off) is Some,
        spec_record_header(b, off + MESSAGE_HEADER_SIZE) is Some,
        !is_reserved_xid(spec_record_header(b, off + MESSAGE_HEADER_SIZE)->Some_0.xl_xid.0),
        rmgr_of_id(spec_record_header(b, off + MESSAGE_HEADER_SIZE)->Some_0.xl_rmid.0) is Some,
        spec_record_header(b, off + MESSAGE_HEADER_SIZE)->Some_0.xl_rmid.0 != HEAP_RMGR_ID,
    ensures
        spec_decode(b, off) matches Ok(m) && m.wal_block_headers.len() == 0,
{
}

/// A record whose resource-manager id lies outside the closed registry
/// decodes to an `UnknownResourceManager` error naming that id.
pub proof fn lemma_unknown_rmgr_is_error(b: Seq<u8>, off: int)
    requires
        spec_message_header(b, off) is Some,
        spec_record_header(b, off + MESSAGE_HEADER_SIZE) is Some,
        !is_reserved_xid(spec_record_header(b, off + MESSAGE_HEADER_SIZE)->Some_0.xl_xid.0),
        rmgr_of_id(spec_record_header(b, off + MESSAGE_HEADER_SIZE)->Some_0.xl_rmid.0) is None,
    ensures
        spec_decode(b, off) == Err::<XLogMessageModel, DecodeError>(
            DecodeError::UnknownResourceManager(
                spec_record_header(b, off + MESSAGE_HEADER_SIZE)->Some_0.xl_rmid.0,
            ),
        ),
{
}

/// A buffer with fewer bytes after `off` than the message header needs
/// decodes to `TruncatedMessage`, and one that holds the message header
/// but not the record header to `TruncatedRecord`: truncation is always
/// a reported value, never a wild read.
pub proof fn lemma_truncation_is_reported(b: Seq<u8>, off: int)
    requires
        0 <= off,
    ensures
        b.len() < off + MESSAGE_HEADER_SIZE ==> spec_decode(b, off) == Err::<
            XLogMessageModel,
            DecodeError,
        >(DecodeError::TruncatedMessage),
        off + MESSAGE_HEADER_SIZE <= b.len() < off + MESSAGE_HEADER_SIZE
            + crate::record_header::RECORD_HEADER_SIZE ==> spec_decode(b, off) == Err::<
            XLogMessageModel,
            DecodeError,
        >(DecodeError::TruncatedRecord),
{
}

/// What a decode yields depends on the bytes and the offset alone: two
/// decodes of equal buffers at equal offsets agree, so decoding twice
/// yields structurally equal results.
pub proof fn lemma_decode_deterministic(b1: Seq<u8>, off1: int, b2: Seq<u8>, off2: int)
    requires
        b1 == b2,
        off1 == off2,
    ensures
        spec_decode(b1, off1) == spec_decode(b2, off2),
{
}

} // verus!
