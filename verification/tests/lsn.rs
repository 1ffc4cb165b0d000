use pg_dig_server::errors::DecodeError;
use pg_dig_server::lsn::Lsn;

#[test]
fn lsn_u64_round_trip() {
    let values: [u64; 7] = [
        0,
        1,
        0x1552C80,
        0xFFFF_FFFF,
        0x1_0000_0000,
        0x155_2C80_0000_0000,
        u64::MAX,
    ];
    for v in values {
        assert_eq!(Lsn::from_u64(v).to_u64(), v, "halves must recombine to the value");
    }
}

#[test]
fn lsn_new_and_halves() {
    let lsn = Lsn::new(1, 2);
    assert_eq!(lsn.to_u64(), (1u64 << 32) | 2);
    assert_eq!(Lsn::from_u64((1u64 << 32) | 2), lsn);
}

#[test]
fn lsn_format_examples() {
    assert_eq!(Lsn::from_u64(0x1552C80).format().as_str(), "0/1552C80");
    assert_eq!(Lsn::from_u64(0).format().as_str(), "0/0");
    assert_eq!(Lsn::from_u64(u64::MAX).format().as_str(), "FFFFFFFF/FFFFFFFF");
    assert_eq!(Lsn::from_u64(0xABCDEF).format().as_str(), "0/ABCDEF");
    assert_eq!(Lsn::new(0x16, 0xB3740).format().as_str(), "16/B3740");
}

#[test]
fn lsn_parse_examples() {
    assert_eq!(Lsn::parse("0/1552C80"), Ok(Lsn::from_u64(0x1552C80)));
    assert_eq!(Lsn::parse("16/B3740"), Ok(Lsn::new(0x16, 0xB3740)));
    assert_eq!(Lsn::parse("ff/ab"), Ok(Lsn::new(0xFF, 0xAB)), "either case is hex");
    assert_eq!(Lsn::parse("FFFFFFFF/FFFFFFFF"), Ok(Lsn::from_u64(u64::MAX)));
}

#[test]
fn lsn_parse_format_round_trip() {
    let values: [u64; 6] = [0, 1, 0x1552C80, 0xFFFF_FFFF, 0xDEAD_BEEF_0000_0001, u64::MAX];
    for v in values {
        let lsn = Lsn::from_u64(v);
        assert_eq!(Lsn::parse(lsn.format().as_str()), Ok(lsn));
    }
}

#[test]
fn lsn_parse_rejects_malformed_text() {
    let malformed: [&str; 8] = [
        "1552C80",      // no separator
        "",             // empty
        "0/",           // empty low half
        "/0",           // empty high half
        "0/XYZ",        // not hex
        "0/123456789",  // more than 32 bits
        "1/2/3",        // second separator makes the low half non-hex
        "+1/2",         // a sign is not hex text
    ];
    for text in malformed {
        assert_eq!(
            Lsn::parse(text),
            Err(DecodeError::MalformedLogPosition),
            "{:?} must be rejected",
            text
        );
    }
}

#[test]
fn lsn_ordering_is_numeric() {
    assert!(Lsn::from_u64(5) < Lsn::from_u64(6));
    assert!(Lsn::new(1, 0) > Lsn::new(0, 0xFFFF_FFFF), "high half dominates");
    assert!(Lsn::new(3, 7) == Lsn::from_u64((3u64 << 32) | 7));
    assert!(Lsn::from_u64(100) <= Lsn::from_u64(100));
}
