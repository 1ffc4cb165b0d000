use pg_dig_server::block_header::XLogRecordBlockHeader;
use pg_dig_server::errors::DecodeError;
use pg_dig_server::rmgr::{get_simple_rmgr_info, is_heap, ResourceManager, RmgrId};
use pg_dig_server::transaction_id::TransactionId;
use pg_dig_server::xlog_message::{decode, XLogMessage};
use pg_dig_server::xlog_parser::{process_wal_record, scan_blocks};

/// A message frame without its tag byte: a zeroed 24-byte message header,
/// a record header with the given transaction id and resource-manager id,
/// and whatever block-reference bytes follow.
fn message(xid: u32, rmid: u8, tail: &[u8]) -> Vec<u8> {
    let mut buf = vec![0u8; 24];
    buf.extend_from_slice(&42u32.to_le_bytes()); // xl_tot_len
    buf.extend_from_slice(&xid.to_le_bytes()); // xl_xid
    buf.extend_from_slice(&22_359_112u64.to_le_bytes()); // xl_prev
    buf.push(0); // xl_info
    buf.push(rmid); // xl_rmid
    buf.extend_from_slice(&101_056_512u32.to_le_bytes()); // xl_crc
    buf.extend_from_slice(tail);
    buf
}

/// One ordinary block reference: id 0, fsm fork with an image, a
/// relation-file locator 1663/1/1247, block number 2.
fn block_with_image_and_locator() -> Vec<u8> {
    vec![
        0x00, 0x11, 0x00, 0x00, // id, fork_flags, data_length
        0x00, 0x20, 0x00, 0x00, 0x02, // image: length 8192, hole_offset 0, info 2
        0x7F, 0x06, 0x00, 0x00, // tablespace 1663
        0x01, 0x00, 0x00, 0x00, // database 1
        0xDF, 0x04, 0x00, 0x00, // relation 1247
        0x02, 0x00, 0x00, 0x00, // block number 2
    ]
}

#[test]
fn decode_heap_record_with_one_block() {
    let mut tail = block_with_image_and_locator();
    tail.push(0xFF); // short-data sentinel ends the scan
    let buf = message(746, 10, &tail);
    let msg = decode(&buf, 0).expect("a heap record with one block must decode");

    assert_eq!(msg.wal_header.xl_xid, TransactionId(746));
    assert_eq!(msg.wal_header.xl_rmid, RmgrId(10));
    assert_eq!(msg.wal_block_headers.len(), 1);
    let block = &msg.wal_block_headers[0];
    assert_eq!(block.fork_flags, 0x11);
    assert_eq!(block.image_header.unwrap().length, 8192);
    assert_eq!(block.rel_file_locator.unwrap().rel_number, 1247);
    assert_eq!(block.block_number, 2);
    assert_eq!(msg.get_block_numbers(), vec![2]);
}

#[test]
fn decode_reserved_xid_gives_empty_blocks() {
    let mut tail = block_with_image_and_locator();
    tail.push(0xFF);
    for xid in [0u32, 1] {
        let buf = message(xid, 10, &tail);
        let msg = decode(&buf, 0).expect("a reserved transaction id is never an error");
        assert_eq!(msg.wal_block_headers.len(), 0);
    }
    // The transaction-id gate comes first: even an unknown resource
    // manager does not turn a reserved-id record into an error.
    let buf = message(0, 99, &tail);
    let msg = decode(&buf, 0).expect("the reserved id wins over the unknown manager");
    assert_eq!(msg.wal_block_headers.len(), 0);
}

#[test]
fn decode_unsupported_rmgr_gives_empty_blocks() {
    // Btree (11) is registered but not the heap manager; its block
    // references are out of scope, not an error -- whatever bytes follow.
    let buf = message(746, 11, &[0xAB, 0xCD, 0xEF]);
    let msg = decode(&buf, 0).expect("a known non-heap manager is a benign skip");
    assert_eq!(msg.wal_block_headers.len(), 0);
}

#[test]
fn decode_unknown_rmgr_is_an_error() {
    for rmid in [22u8, 23, 99, 255] {
        let buf = message(746, rmid, &[]);
        assert_eq!(
            decode(&buf, 0),
            Err(DecodeError::UnknownResourceManager(rmid)),
            "id {} is outside the registry",
            rmid
        );
    }
}

#[test]
fn decode_invalid_block_id_is_an_error() {
    let buf = message(746, 10, &[200]);
    assert_eq!(decode(&buf, 0), Err(DecodeError::InvalidBlockId(200)));
    let mut tail = block_with_image_and_locator();
    tail.push(37); // beyond the ordinary ids, yet no known sentinel
    let buf = message(746, 10, &tail);
    assert_eq!(
        decode(&buf, 0),
        Err(DecodeError::InvalidBlockId(37)),
        "the scan surfaces the first framing error and discards the good block"
    );
}

#[test]
fn decode_skips_toplevel_xid_sentinel() {
    // The sentinel carries a four-byte id that is read past and
    // discarded; scanning continues after it.
    let buf = message(746, 10, &[252, 0x01, 0x02, 0x03, 0x04, 0xFF]);
    let msg = decode(&buf, 0).expect("the sentinel itself is no error");
    assert_eq!(msg.wal_block_headers.len(), 0);

    let mut tail = vec![252, 0x01, 0x02, 0x03, 0x04];
    tail.extend_from_slice(&block_with_image_and_locator());
    tail.push(0xFE); // long-data sentinel
    let buf = message(746, 10, &tail);
    let msg = decode(&buf, 0).expect("a block after the sentinel still decodes");
    assert_eq!(msg.wal_block_headers.len(), 1);
    assert_eq!(msg.wal_block_headers[0].block_number, 2);
}

#[test]
fn decode_stops_at_each_terminating_sentinel() {
    for sentinel in [255u8, 254, 253] {
        let buf = message(746, 10, &[sentinel]);
        let msg = decode(&buf, 0).expect("a terminating sentinel ends the scan cleanly");
        assert_eq!(msg.wal_block_headers.len(), 0);
    }
}

#[test]
fn decode_same_rel_reuses_nothing_but_omits_the_locator() {
    let mut tail = block_with_image_and_locator();
    // A second block: SAME_REL set, no image; the locator is omitted.
    tail.extend_from_slice(&[0x01, 0x80, 0x00, 0x00, 0x2A, 0x00, 0x00, 0x00]);
    tail.push(0xFF);
    let buf = message(746, 10, &tail);
    let msg = decode(&buf, 0).expect("both blocks must decode");
    assert_eq!(msg.wal_block_headers.len(), 2);
    assert!(msg.wal_block_headers[0].rel_file_locator.is_some());
    assert_eq!(msg.wal_block_headers[1].rel_file_locator, None);
    assert_eq!(msg.get_block_numbers(), vec![2, 42]);
}

#[test]
fn decode_truncated_block_section_is_out_of_bounds() {
    // The scan needs at least one id byte after the record header.
    let buf = message(746, 10, &[]);
    assert_eq!(decode(&buf, 0), Err(DecodeError::OutOfBounds));

    // A block cut off in the middle of its declared shape.
    let mut tail = block_with_image_and_locator();
    tail.truncate(10);
    let buf = message(746, 10, &tail);
    assert_eq!(decode(&buf, 0), Err(DecodeError::OutOfBounds));

    // The toplevel-xid sentinel cut off before its four-byte payload.
    let buf = message(746, 10, &[252, 0x01]);
    assert_eq!(decode(&buf, 0), Err(DecodeError::OutOfBounds));
}

#[test]
fn decode_truncated_headers_are_reported() {
    let mut tail = block_with_image_and_locator();
    tail.push(0xFF);
    let buf = message(746, 10, &tail);
    assert_eq!(decode(&buf[..20], 0), Err(DecodeError::TruncatedMessage));
    assert_eq!(decode(&buf[..30], 0), Err(DecodeError::TruncatedRecord));
    assert_eq!(decode(&buf, buf.len()), Err(DecodeError::TruncatedMessage));
}

#[test]
fn decode_twice_yields_equal_results() {
    let mut tail = block_with_image_and_locator();
    tail.push(0xFF);
    let buf = message(746, 10, &tail);
    let first = decode(&buf, 0).expect("decode");
    let second = decode(&buf, 0).expect("decode");
    assert_eq!(first, second, "no hidden state may affect the output");
    let third = XLogMessage::from_bytes(&buf, 0).expect("decode");
    assert_eq!(first, third);
}

#[test]
fn decode_observed_standby_frame_skips_blocks() {
    // The record of the observed frame belongs to the Standby manager
    // (id 8): registered, not heap, so its blocks are skipped.
    let frame: [u8; 47] = [
        0x77, 0x00, 0x00, 0x00, 0x00, 0x01, 0x55, 0x2c, 0x80, 0x00, 0x00, 0x00, 0x00, 0x01,
        0x55, 0xe0, 0x80, 0x00, 0x02, 0xcc, 0xe9, 0xaa, 0x79, 0xd4, 0x00, 0x2a, 0x00, 0x00,
        0x00, 0xea, 0x02, 0x00, 0x00, 0x48, 0x2c, 0x55, 0x01, 0x00, 0x00, 0x00, 0x00, 0x00,
        0x08, 0x00, 0x00, 0x06, 0x06,
    ];
    let msg = decode(&frame, 1).expect("the observed frame must decode");
    assert_eq!(msg.header.start_lsn, 22359168);
    assert_eq!(msg.wal_header.xl_rmid, RmgrId(8));
    assert_eq!(msg.wal_block_headers.len(), 0);
}

#[test]
fn process_wal_record_applies_the_gates() {
    let mut tail = block_with_image_and_locator();
    tail.push(0xFF);
    let record = &message(746, 10, &tail)[24..];
    let blocks = process_wal_record(record, 0).expect("heap record");
    assert_eq!(blocks.len(), 1);
    let record = &message(0, 10, &tail)[24..];
    assert_eq!(process_wal_record(record, 0).expect("reserved id").len(), 0);
    let record = &message(746, 30, &tail)[24..];
    assert_eq!(process_wal_record(record, 0), Err(DecodeError::UnknownResourceManager(30)));
}

#[test]
fn scan_blocks_reads_until_a_sentinel() {
    let mut bytes = block_with_image_and_locator();
    bytes.extend_from_slice(&[0x01, 0x80, 0x00, 0x00, 0x2A, 0x00, 0x00, 0x00]);
    bytes.push(0xFD); // origin sentinel
    let blocks = scan_blocks(&bytes, 0).expect("two blocks");
    assert_eq!(blocks.len(), 2);
    assert_eq!(blocks[0].block_number, 2);
    assert_eq!(blocks[1].block_number, 42);
    assert_eq!(scan_blocks(&bytes, bytes.len()), Err(DecodeError::OutOfBounds));
}

#[test]
fn registry_maps_every_known_id() {
    let names: [&str; 22] = [
        "XLOG",
        "Transaction",
        "Storage",
        "CLOG",
        "Database",
        "Tablespace",
        "MultiXact",
        "RelMap",
        "Standby",
        "Heap2",
        "Heap",
        "Btree",
        "Hash",
        "Gin",
        "Gist",
        "Sequence",
        "SPGist",
        "BRIN",
        "CommitTs",
        "ReplicationOrigin",
        "Generic",
        "LogicalMessage",
    ];
    for (id, name) in names.iter().enumerate() {
        let rm = ResourceManager::try_from(RmgrId(id as u8)).expect("registered id");
        assert_eq!(rm.name().as_str(), *name);
    }
    assert_eq!(
        ResourceManager::try_from(RmgrId(22)),
        Err(DecodeError::UnknownResourceManager(22)),
        "the registry is closed at 21"
    );
}

#[test]
fn registry_heap_gate() {
    assert!(is_heap(RmgrId(10)));
    assert!(!is_heap(RmgrId(9)), "Heap2 is not the heap gate");
    assert!(ResourceManager::Heap.is_heap());
    assert!(!ResourceManager::Btree.is_heap());
}

#[test]
fn registry_simple_info() {
    let info = get_simple_rmgr_info(RmgrId(8), 0x87);
    assert_eq!(info.rmgr_name.as_str(), "Standby");
    assert_eq!(info.record_type.as_str(), "NYI");
    assert_eq!(ResourceManager::Heap.get_record_type(3).as_str(), "NYI");
}

#[test]
fn transaction_id_sentinels() {
    assert!(TransactionId(0).is_reserved());
    assert!(TransactionId(1).is_reserved());
    assert!(!TransactionId(2).is_reserved(), "frozen is not gated");
    assert!(!TransactionId(746).is_reserved());
}

#[test]
fn error_descriptions_name_the_failure() {
    assert_eq!(DecodeError::OutOfBounds.describe().as_str(), "read out of bounds");
    assert_eq!(
        DecodeError::UnknownResourceManager(42).describe().as_str(),
        "unknown resource manager"
    );
    assert_eq!(
        DecodeError::MalformedLogPosition.describe().as_str(),
        "malformed log position"
    );
}

#[test]
fn block_headers_are_plain_values() {
    // A decoded block owns all its data; nothing borrows the buffer.
    let bytes = block_with_image_and_locator();
    let (block, _) = XLogRecordBlockHeader::from_bytes(&bytes, 0).expect("block");
    drop(bytes);
    assert_eq!(block.block_number, 2);
}
