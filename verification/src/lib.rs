//! Decoder for PostgreSQL physical-replication WAL messages.
//!
//! A streamed `CopyData` payload (tag byte already stripped by the caller)
//! carries a fixed 24-byte message header, the fixed header of one WAL
//! record, and a variable-shape run of per-block reference headers whose
//! layout depends on flag bits read along the way.  Everything here works on
//! plain byte slices: no pointer walks, every read bounds-checked, every
//! malformed input reported as a typed error.

pub mod block_header;
pub mod block_image_header;
pub mod errors;
pub mod lsn;
pub mod message_header;
pub mod reader;
pub mod record_header;
pub mod rmgr;
pub mod transaction_id;
pub mod xlog_message;
pub mod xlog_parser;
