use pg_dig_server::block_header::XLogRecordBlockHeader;
use pg_dig_server::block_image_header::XLogRecordBlockImageHeader;
use pg_dig_server::errors::DecodeError;
use pg_dig_server::message_header::{XLogMessageHeader, POSTGRES_EPOCH_OFFSET_MICROS};
use pg_dig_server::reader::{read_bytes, read_u16, read_u32, read_u64, read_u8, Endianness};
use pg_dig_server::record_header::XLogRecordHeader;
use pg_dig_server::rmgr::RmgrId;
use pg_dig_server::transaction_id::TransactionId;

/// The leading bytes of one observed replication frame: the `w` tag,
/// the 24-byte message header, and the record header that follows.
const FRAME: [u8; 64] = [
    0x77, 0x00, 0x00, 0x00, 0x00, 0x01, 0x55, 0x2c, 0x80, 0x00, 0x00, 0x00, 0x00, 0x01, 0x55,
    0xe0, 0x80, 0x00, 0x02, 0xcc, 0xe9, 0xaa, 0x79, 0xd4, 0x00, 0x2a, 0x00, 0x00, 0x00, 0xea,
    0x02, 0x00, 0x00, 0x48, 0x2c, 0x55, 0x01, 0x00, 0x00, 0x00, 0x00, 0x00, 0x08, 0x00, 0x00,
    0x06, 0x06, 0x87, 0x20, 0xff, 0x10, 0x01, 0x00, 0x00, 0x00, 0xea, 0x02, 0x00, 0x00, 0x05,
    0x00, 0x00, 0x00, 0x01,
];

#[test]
fn xlog_header_from_buffer() {
    let record = XLogMessageHeader::from_bytes(&FRAME, 1).expect("header must decode");

    // Big-endian decode of the eight bytes after the tag: hex 1552C80.
    assert_eq!(record.start_lsn, 22359168, "data_start should be 22359168");
    assert_eq!(record.start_position().format().as_str(), "0/1552C80");
    assert_eq!(record.end_lsn, 0x155E080);
    assert_eq!(record.send_time, 0x2CCE9AA79D400);
}

#[test]
fn xlog_record_from_buffer() {
    let offset = 24 + 1;
    let record = XLogRecordHeader::from_bytes(&FRAME, offset).expect("record must decode");

    assert_eq!(record.xl_tot_len, 42, "total length should be 42");
    assert_eq!(
        record.xl_xid,
        TransactionId(746),
        "transaction id should be TransactionId(746)"
    );
    assert_eq!(record.xl_prev, 22_359_112, "previous xlog ptr should be 22359112");
    assert_eq!(record.xl_rmid, RmgrId(8), "rmid should be RmgrId(8)");
    assert_eq!(record.xl_crc, 101_056_512, "crc should be 101056512");
}

// "block_ref": "blkref #0: rel 1663/1/1249 fork fsm blk 2 (FPW); hole: offset: 0, length: 0"
#[test]
fn xlog_block_header_from_buffer() {
    let buffer: [u8; 36] = [
        0x0, 0x11, 0x0, 0x0, 0x0, 0x20, 0x0, 0x0, 0x2, 0x7F, 0x6, 0x0, 0x0, 0x1, 0x0, 0x0, 0x0,
        0xDF, 0x4, 0x0, 0x0, 0x2, 0x0, 0x0, 0x0, 0x0, 0x0, 0x0, 0x0, 0x0, 0x0, 0x0, 0x0, 0x0,
        0x0, 0x0,
    ];
    let (record, size) = XLogRecordBlockHeader::from_bytes(&buffer, 0).expect("block must decode");

    assert_eq!(record.id, 0);
    assert_eq!(record.fork_flags, 17);
    assert_eq!(record.data_length, 0);
    assert_eq!(
        record.image_header,
        Some(XLogRecordBlockImageHeader { length: 8192, hole_offset: 0, bimg_info: 2 })
    );
    let locator = record.rel_file_locator.expect("SAME_REL is unset, a locator is present");
    assert_eq!(locator.spc_oid, 1663);
    assert_eq!(locator.db_oid, 1);
    assert_eq!(locator.rel_number, 1247);
    assert_eq!(record.block_number, 2);
    assert_eq!(size, 25, "4 fixed bytes, 5 image bytes, 12 locator bytes, 4 block-number bytes");
}

#[test]
fn message_header_is_byte_exact_big_endian() {
    let buffer: [u8; 24] = [
        0x00, 0x01, 0x55, 0x2c, 0x80, 0x00, 0x00, 0x00, 0x00, 0x01, 0x55, 0xe0, 0x80, 0x00,
        0x02, 0xcc, 0x00, 0x00, 0x00, 0x00, 0x00, 0x00, 0x00, 0x00,
    ];
    let header = XLogMessageHeader::from_bytes(&buffer, 0).expect("header must decode");
    assert_eq!(header.start_lsn, 0x0001552C80000000, "byte-exact big-endian concatenation");
    assert_eq!(header.end_lsn, 0x000155E0800002CC);
    assert_eq!(header.send_time, 0);
}

#[test]
fn message_header_truncated() {
    assert_eq!(
        XLogMessageHeader::from_bytes(&FRAME[..24], 1),
        Err(DecodeError::TruncatedMessage),
        "23 bytes are not enough"
    );
    assert_eq!(XLogMessageHeader::from_bytes(&[], 0), Err(DecodeError::TruncatedMessage));
    assert_eq!(
        XLogMessageHeader::from_bytes(&FRAME, 41),
        Err(DecodeError::TruncatedMessage),
        "the last 23 bytes are not enough either"
    );
}

#[test]
fn record_header_truncated() {
    assert_eq!(
        XLogRecordHeader::from_bytes(&FRAME[..46], 25),
        Err(DecodeError::TruncatedRecord),
        "21 bytes are one short of the record header"
    );
    assert_eq!(XLogRecordHeader::from_bytes(&[], 0), Err(DecodeError::TruncatedRecord));
}

#[test]
fn image_header_fields_and_truncation() {
    let bytes: [u8; 5] = [0x00, 0x20, 0x00, 0x00, 0x02];
    let header = XLogRecordBlockImageHeader::from_bytes(&bytes, 0).expect("image must decode");
    assert_eq!(header.length, 8192);
    assert_eq!(header.hole_offset, 0);
    assert_eq!(header.bimg_info, 2);
    assert_eq!(
        XLogRecordBlockImageHeader::from_bytes(&bytes[..4], 0),
        Err(DecodeError::OutOfBounds)
    );
}

#[test]
fn record_header_flag_accessors() {
    let record = XLogRecordHeader::from_bytes(&FRAME, 25).expect("record must decode");
    assert_eq!(record.read_rmgr_info_bytes(), 0, "the fixture record has no sub-type bits");
    let mut info = record;
    info.xl_info = 0x87;
    assert_eq!(info.read_rmgr_info_bytes(), 8);
    let flags = info.read_flags();
    assert!(flags.special_rel_update);
    assert!(flags.check_consistency);
    info.xl_info = 0x85;
    let flags = info.read_flags();
    assert!(flags.special_rel_update);
    assert!(!flags.check_consistency);
}

#[test]
fn block_header_flag_accessors() {
    let buffer: [u8; 8] = [0x03, 0x80, 0x05, 0x00, 0x07, 0x00, 0x00, 0x00];
    let (block, size) = XLogRecordBlockHeader::from_bytes(&buffer, 0).expect("block must decode");
    assert_eq!(size, 8, "SAME_REL and no image leave only the fixed bytes");
    assert_eq!(block.id, 3);
    assert_eq!(block.data_length, 5);
    assert_eq!(block.block_number, 7);
    assert_eq!(block.rel_file_locator, None, "SAME_REL reuses the previous relation");
    let mut block = block;
    block.fork_flags = 0x91;
    let flags = block.read_flags();
    assert!(flags.has_image);
    assert!(!flags.has_data);
    assert!(!flags.will_init);
    assert!(flags.same_rel);
    assert_eq!(block.fork_number(), 1, "fsm fork");
}

// The SAME_REL test above uses flags 0x91 (image expected); decode with 0x80 instead.
#[test]
fn block_header_same_rel_without_image() {
    let buffer: [u8; 8] = [0x01, 0x80, 0x00, 0x00, 0x2A, 0x00, 0x00, 0x00];
    let (block, size) = XLogRecordBlockHeader::from_bytes(&buffer, 0).expect("block must decode");
    assert_eq!(size, 8);
    assert_eq!(block.image_header, None);
    assert_eq!(block.rel_file_locator, None);
    assert_eq!(block.block_number, 42);
}

#[test]
fn image_flag_accessors() {
    let header = XLogRecordBlockImageHeader { length: 0, hole_offset: 0, bimg_info: 0x03 };
    let flags = header.read_flags();
    assert!(flags.has_hole);
    assert!(flags.apply);
    assert!(!flags.compress_pglz);
    assert!(!flags.compress_lz4);
    assert!(!flags.compress_zstd);
    let header = XLogRecordBlockImageHeader { length: 0, hole_offset: 0, bimg_info: 0x1C };
    let flags = header.read_flags();
    assert!(!flags.has_hole);
    assert!(!flags.apply);
    assert!(flags.compress_pglz);
    assert!(flags.compress_lz4);
    assert!(flags.compress_zstd);
}

#[test]
fn send_time_shifts_by_the_reference_epoch() {
    let mut header = XLogMessageHeader { start_lsn: 0, end_lsn: 0, send_time: 0 };
    assert_eq!(header.send_time_unix_micros(), Some(POSTGRES_EPOCH_OFFSET_MICROS));
    header.send_time = 1_000_000;
    assert_eq!(header.send_time_unix_micros(), Some(POSTGRES_EPOCH_OFFSET_MICROS + 1_000_000));
    header.send_time = i64::MAX;
    assert_eq!(header.send_time_unix_micros(), None, "the shift would overflow");
}

#[test]
fn reader_reads_fixed_width_integers() {
    let bytes: [u8; 9] = [0x01, 0x02, 0x03, 0x04, 0x05, 0x06, 0x07, 0x08, 0x09];
    assert_eq!(read_u8(&bytes, 0), Ok(0x01));
    assert_eq!(read_u8(&bytes, 8), Ok(0x09));
    assert_eq!(read_u16(&bytes, 0, Endianness::Big), Ok(0x0102));
    assert_eq!(read_u16(&bytes, 0, Endianness::Little), Ok(0x0201));
    assert_eq!(read_u32(&bytes, 1, Endianness::Big), Ok(0x02030405));
    assert_eq!(read_u32(&bytes, 1, Endianness::Little), Ok(0x05040302));
    assert_eq!(read_u64(&bytes, 0, Endianness::Big), Ok(0x0102030405060708));
    assert_eq!(read_u64(&bytes, 1, Endianness::Little), Ok(0x0908070605040302));
}

#[test]
fn reader_rejects_reads_past_the_bound() {
    let bytes: [u8; 9] = [0x01, 0x02, 0x03, 0x04, 0x05, 0x06, 0x07, 0x08, 0x09];
    assert_eq!(read_u8(&bytes, 9), Err(DecodeError::OutOfBounds));
    assert_eq!(read_u16(&bytes, 8, Endianness::Big), Err(DecodeError::OutOfBounds));
    assert_eq!(read_u32(&bytes, 6, Endianness::Little), Err(DecodeError::OutOfBounds));
    assert_eq!(read_u64(&bytes, 2, Endianness::Big), Err(DecodeError::OutOfBounds));
    assert_eq!(read_u64(&bytes, usize::MAX, Endianness::Big), Err(DecodeError::OutOfBounds));
}

#[test]
fn reader_borrows_exact_byte_ranges() {
    let bytes: [u8; 5] = [0x0A, 0x0B, 0x0C, 0x0D, 0x0E];
    assert_eq!(read_bytes(&bytes, 1, 3), Ok(&bytes[1..4]));
    assert_eq!(read_bytes(&bytes, 5, 0), Ok(&bytes[5..5]));
    assert_eq!(read_bytes(&bytes, 3, 3), Err(DecodeError::OutOfBounds));
}
