use vstd::prelude::*;

use crate::errors::DecodeError;
use crate::lsn::{lsn_of_u64, Lsn};
use crate::reader::{be64_at, read_u64, Endianness};

verus! {

/// Bytes the fixed message header occupies on the wire.
pub const MESSAGE_HEADER_SIZE: usize = 24;

/// Microseconds from the Unix epoch (1970-01-01) to the protocol's
/// reference epoch (2000-01-01), the fixed offset a send time must be
/// shifted by to become calendar time.
pub const POSTGRES_EPOCH_OFFSET_MICROS: i64 = 946_684_800_000_000;

/// The fixed 24-byte header that leads every streamed WAL message: three
/// big-endian 64-bit fields.
#[derive(Debug, Clone, Copy, PartialEq, Eq, Structural)]
pub struct XLogMessageHeader {
    /// The first log position of this message.
    pub start_lsn: u64,
    /// The most recent log position of the sending database.
    pub end_lsn: u64,
    /// When the message was sent: signed microseconds since the
    /// protocol's reference epoch.
    pub send_time: i64,
}

/// The message header spelled by the 24 bytes at `off`, or `None` when
/// fewer bytes remain.
pub open spec fn spec_message_header(b: Seq<u8>, off: int) -> Option<XLogMessageHeader> {
    if 0 <= off && off + MESSAGE_HEADER_SIZE <= b.len() {
        Some(
            XLogMessageHeader {
                start_lsn: be64_at(b, off) as u64,
                end_lsn: be64_at(b, off + 8) as u64,
                send_time: be64_at(b, off + 16) as u64 as i64,
            },
        )
    } else {
        None
    }
}

impl XLogMessageHeader {
    /// Decode the fixed message header from the 24 bytes at `offset`.
    /// Fails with `TruncatedMessage` when fewer bytes remain.
    pub fn from_bytes(buffer: &[u8], offset: usize) -> (r: Result<XLogMessageHeader, DecodeError>)
        ensures
            spec_message_header(buffer@, offset as int) is Some ==> r
                == Ok::<XLogMessageHeader, DecodeError>(
                spec_message_header(buffer@, offset as int)->Some_0,
            ),
            spec_message_header(buffer@, offset as int) is None ==> r == Err::<
                XLogMessageHeader,
                DecodeError,
            >(DecodeError::TruncatedMessage),
    {
        let _buffer_len = buffer.len();
        let start_lsn = match read_u64(buffer, offset, Endianness::Big) {
            Ok(v) => v,
            Err(_) => {
                return Err(DecodeError::TruncatedMessage);
            },
        };
        let end_lsn = match read_u64(buffer, offset + 8, Endianness::Big) {
            Ok(v) => v,
            Err(_) => {
                return Err(DecodeError::TruncatedMessage);
            },
        };
        let send_time = match read_u64(buffer, offset + 16, Endianness::Big) {
            Ok(v) => v,
            Err(_) => {
                return Err(DecodeError::TruncatedMessage);
            },
        };
        Ok(XLogMessageHeader { start_lsn, end_lsn, send_time: send_time as i64 })
    }

    /// The first log position of this message as an `Lsn`.
    pub fn start_position(&self) -> (r: Lsn)
        ensures
            r == lsn_of_u64(self.start_lsn),
    {
        Lsn::from_u64(self.start_lsn)
    }

    /// The sender's most recent log position as an `Lsn`.
    pub fn end_position(&self) -> (r: Lsn)
        ensures
            r == lsn_of_u64(self.end_lsn),
    {
        Lsn::from_u64(self.end_lsn)
    }

    /// The send time shifted to microseconds since the Unix epoch, by the
    /// fixed reference-epoch offset; `None` only if the shift would leave
    /// the 64-bit range.
    pub fn send_time_unix_micros(&self) -> (r: Option<i64>)
        ensures
            self.send_time + POSTGRES_EPOCH_OFFSET_MICROS <= i64::MAX ==> r == Some(
                (self.send_time + POSTGRES_EPOCH_OFFSET_MICROS) as i64,
            ),
            self.send_time + POSTGRES_EPOCH_OFFSET_MICROS > i64::MAX ==> r == None::<i64>,
    {
        if self.send_time <= i64::MAX - POSTGRES_EPOCH_OFFSET_MICROS {
            Some(self.send_time + POSTGRES_EPOCH_OFFSET_MICROS)
        } else {
            None
        }
    }
}

} // verus!
