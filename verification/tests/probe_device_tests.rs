use vtr_sentinel::device::reader::{read_outcome, wait_outcome, EIO};
use vtr_sentinel::error::{ErrorKind, ErrorLayer, ErrorSeverity, VtrError};
use vtr_sentinel::event::kind::EventKind;
use vtr_sentinel::event::record::{EventRecord, TsDelta};
use vtr_sentinel::probe::dnp3::{crc16, parse, FunctionCode, MIN_FRAME_LEN};
use vtr_sentinel::probe::entropy::{byte_counts, byte_profile, ByteProfile, MIN_BYTES};
use vtr_sentinel::sentinel::{ends_event_loop, Sentinel};
use vtr_sentinel::custody::chain::GENESIS_HASH;

#[test]
fn crc16_check_value() {
    assert_eq!(crc16(b"123456789"), 0xEA82);
    assert_eq!(crc16(&[]), 0xFFFF);
}

#[test]
fn crc16_link_header_example() {
    assert_eq!(crc16(&[0x05, 0x64, 0x05, 0xC0, 0x01, 0x00, 0x00, 0x04]), 0x21E9);
}

#[test]
fn parse_short_frame_refused() {
    assert_eq!(MIN_FRAME_LEN, 10);
    assert!(parse(&[0u8; 9]).is_err());
    assert!(parse(&[]).is_err());
}

#[test]
fn parse_valid_header() {
    let frame = [0x05, 0x64, 0x05, 0xC0, 0x01, 0x00, 0x00, 0x04, 0xE9, 0x21];
    let p = parse(&frame).expect("long enough");
    assert!(p.crc_valid);
    assert_eq!(p.payload_len, 0x05);
    assert_eq!(p.master_addr, 0x0001);
    assert_eq!(p.outstation, 0x0400);
    assert_eq!(p.function_code, None);
}

#[test]
fn parse_bad_crc_and_function_byte() {
    let frame = [0x05, 0x64, 0x0A, 0x44, 0x34, 0x12, 0x78, 0x56, 0x81, 0x00, 0xAA];
    let p = parse(&frame).expect("long enough");
    assert!(!p.crc_valid);
    assert_eq!(p.payload_len, 0x0A);
    assert_eq!(p.master_addr, 0x1234);
    assert_eq!(p.outstation, 0x5678);
    assert_eq!(p.function_code, Some(FunctionCode::Response));
}

#[test]
fn function_codes() {
    assert_eq!(FunctionCode::from_u8(0x00), Some(FunctionCode::Confirm));
    assert_eq!(FunctionCode::from_u8(0x03), Some(FunctionCode::DirectOperate));
    assert_eq!(FunctionCode::from_u8(0x0D), Some(FunctionCode::ColdRestart));
    assert_eq!(FunctionCode::from_u8(0x04), None);
    assert_eq!(FunctionCode::from_u8(0x82), None);
    assert_eq!(FunctionCode::Response.code(), 0x81);
    assert_eq!(FunctionCode::from_u8(FunctionCode::InitData.code()), Some(FunctionCode::InitData));
}

#[test]
fn histogram_counts_bytes() {
    let counts = byte_counts(b"hello world!").expect("small input");
    assert_eq!(counts.len(), 256);
    assert_eq!(counts[b'l' as usize], 3);
    assert_eq!(counts[b'o' as usize], 2);
    assert_eq!(counts[b'z' as usize], 0);
    assert_eq!(counts.iter().sum::<u32>(), 12);
    assert_eq!(MIN_BYTES, 8);
}

#[test]
fn profile_of_payloads() {
    assert!(matches!(byte_profile(b"short"), ByteProfile::TooShort));
    match byte_profile(b"hello world!") {
        ByteProfile::Measured { counts, buckets, confidence } => {
            assert_eq!(counts[b'l' as usize], 3);
            assert_eq!(buckets, 9);
            assert_eq!(confidence, 12);
        }
        _ => panic!("expected a measurement"),
    }
    let all: Vec<u8> = (0..=255u8).chain(0..=255u8).collect();
    match byte_profile(&all) {
        ByteProfile::Measured { buckets, confidence, .. } => {
            assert_eq!(buckets, 256);
            assert_eq!(confidence, 255);
        }
        _ => panic!("expected a measurement"),
    }
}

#[test]
fn wait_outcomes() {
    assert_eq!(wait_outcome(1, 0), Ok(true));
    assert_eq!(wait_outcome(0, 0), Ok(false));
    assert_eq!(
        wait_outcome(-1, 4),
        Err(VtrError::new(ErrorKind::KqueueEvent, ErrorLayer::Hardware, ErrorSeverity::DaemonFatal, 4))
    );
}

#[test]
fn read_outcomes() {
    let good = EventRecord::system_event(EventKind::SentinelStopped, TsDelta::new(2));
    let raw = good.to_bytes();
    assert_eq!(read_outcome(0, 0, &raw), Ok(None));
    assert_eq!(read_outcome(16, 0, &raw), Ok(Some(good)));
    assert_eq!(
        read_outcome(7, 0, &raw),
        Err(VtrError::new(ErrorKind::PayloadOverflow, ErrorLayer::Protocol, ErrorSeverity::DaemonFatal, 7))
    );
    let other = read_outcome(-1, 4, &raw).unwrap_err();
    assert_eq!((other.kind, other.os_code), (ErrorKind::PayloadOverflow, -1));
    let mut bad = raw;
    bad[3] ^= 0x10;
    assert_eq!(read_outcome(16, 0, &bad).unwrap_err().kind, ErrorKind::ChecksumInvalid);
}

#[test]
fn failed_read_with_eio_is_a_rejected_checksum() {
    let raw = [0u8; 16];
    let e = read_outcome(-1, EIO, &raw).unwrap_err();
    assert_eq!(e, VtrError::new(ErrorKind::ChecksumInvalid, ErrorLayer::Protocol, ErrorSeverity::DaemonFatal, 5));
    assert!(e.is_forensic_evidence());
    assert_ne!(e.kind, ErrorKind::PayloadOverflow);
}

#[test]
fn sentinel_seals_every_record() {
    let (mut s, genesis) = Sentinel::start();
    assert_eq!(genesis.seq, 0);
    assert_eq!(genesis.prev_hash, GENESIS_HASH);
    assert_eq!(genesis.record.kind_raw(), 0x60);
    let r = EventRecord::system_event(EventKind::ProbeRestarted, TsDelta::new(1));
    let b = s.ingest(r);
    assert_eq!(b.seq, 1);
    assert_eq!(b.prev_hash, genesis.hash);
    assert_eq!(b.record, r);
    let mut last = b;
    for i in 0..3000u32 {
        let r = EventRecord::system_event(EventKind::EventRateAnomaly, TsDelta::new(i));
        let b = s.ingest(r);
        assert_eq!(b.prev_hash, last.hash);
        last = b;
    }
    assert_eq!(last.seq, 3001);
}

#[test]
fn fatal_errors_end_the_loop() {
    assert!(ends_event_loop(&VtrError::kqueue_init(1)));
    assert!(!ends_event_loop(&VtrError::sequence_jump()));
    assert!(!ends_event_loop(&VtrError::ring_full()));
}
