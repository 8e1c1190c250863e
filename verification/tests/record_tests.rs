use vtr_sentinel::error::{ErrorKind, ErrorLayer, ErrorSeverity};
use vtr_sentinel::event::kind::{EventKind, EventSeverity};
use vtr_sentinel::event::record::{Crc32, EventRecord, SourceId, TsDelta};

#[test]
fn test_diagnose_crc() {
    let genesis_data: [u8; 12] = [
        0x61, 0x00, 0x00, 0x00, 0x00, 0x00,
        0x00, 0x00, 0x00, 0x00, 0x00, 0x00,
    ];
    let genesis_crc = Crc32::compute(&genesis_data).value();
    let genesis_stored = u32::from_le_bytes([0x71, 0x08, 0x86, 0x90]);
    println!("genesis computed=0x{:08X} stored=0x{:08X}", genesis_crc, genesis_stored);

    let fork_data: [u8; 12] = [
        0x20, 0x00, 0x07, 0x00, 0x2d, 0x0a,
        0x00, 0x00, 0x01, 0x00, 0x00, 0x00,
    ];
    let fork_crc = Crc32::compute(&fork_data).value();
    let fork_stored = u32::from_le_bytes([0x50, 0xfd, 0xc7, 0xdb]);
    println!("fork    computed=0x{:08X} stored=0x{:08X}", fork_crc, fork_stored);
}

#[test]
fn test_genesis_event_from_c_bytes() {
    let raw: [u8; 16] = [
        0x60, 0x00, 0x00, 0x00, 0x00, 0x00, 0x00, 0x00,
        0x00, 0x00, 0x00, 0x00, 0x67, 0xaa, 0x87, 0x53,
    ];
    let record = EventRecord::from_bytes(&raw).expect("genesis must parse");
    assert_eq!(record.kind_raw(),      0x60);
    assert_eq!(record.severity_raw(),  0x00);
    assert_eq!(record.source_id_raw(), 0x0000);
    assert_eq!(record.pid(),           0);
    assert_eq!(record.ts_delta_raw(),  0);
}

#[test]
fn test_fork_event_from_c_bytes() {
    let raw: [u8; 16] = [
        0x20, 0x00, 0x07, 0x00, 0x42, 0x09, 0x00, 0x00,
        0x01, 0x00, 0x00, 0x00, 0xc8, 0xe1, 0xa4, 0xc7,
    ];
    let record = EventRecord::from_bytes(&raw).expect("fork must parse");
    assert_eq!(record.kind_raw(),      0x20);
    assert_eq!(record.severity_raw(),  0x00);
    assert_eq!(record.source_id_raw(), 0x0007);
    assert_eq!(record.pid(),           0x0942);
    assert_eq!(record.ts_delta_raw(),  1);
}

#[test]
fn test_exec_event_from_c_bytes() {
    let raw: [u8; 16] = [
        0x45, 0x00, 0x07, 0x00, 0x2d, 0x0a, 0x00, 0x00,
        0x02, 0x00, 0x00, 0x00, 0xb4, 0xfd, 0xc3, 0x5d,
    ];
    let record = EventRecord::from_bytes(&raw).expect("exec must parse");
    assert_eq!(record.kind_raw(),      0x45);
    assert_eq!(record.severity_raw(),  0x00);
    assert_eq!(record.source_id_raw(), 0x0007);
    assert_eq!(record.pid(),           2605);
    assert_eq!(record.ts_delta_raw(),  2);
}

#[test]
fn test_invalid_crc_rejected() {
    let mut raw: [u8; 16] = [
        0x20, 0x00, 0x07, 0x00, 0x2d, 0x0a, 0x00, 0x00,
        0x01, 0x00, 0x00, 0x00, 0x50, 0xfd, 0xc7, 0xdb,
    ];
    raw[15] ^= 0xFF;
    assert!(EventRecord::from_bytes(&raw).is_err());
}

#[test]
fn crc32_check_value() {
    assert_eq!(Crc32::compute(b"123456789").value(), 0xCBF4_3926);
}

#[test]
fn crc32_of_nothing_is_zero() {
    assert_eq!(Crc32::compute(&[]).value(), 0);
}

#[test]
fn crc32_single_byte() {
    assert_eq!(Crc32::compute(b"a").value(), 0xE8B7_BE43);
}

#[test]
fn new_record_matches_kernel_bytes() {
    let r = EventRecord::new(
        EventKind::StateContamination,
        EventSeverity::Observed,
        SourceId::new(0x0007),
        0x0942,
        TsDelta::new(1),
    );
    assert_eq!(
        r.to_bytes(),
        [0x20, 0x00, 0x07, 0x00, 0x42, 0x09, 0x00, 0x00, 0x01, 0x00, 0x00, 0x00, 0xc8, 0xe1, 0xa4, 0xc7]
    );
    assert_eq!(r.checksum(), 0xC7A4_E1C8);
    assert!(r.verify().is_ok());
}

#[test]
fn system_event_is_the_genesis_blob() {
    let r = EventRecord::system_event(EventKind::SentinelStarted, TsDelta::genesis());
    assert_eq!(
        r.to_bytes(),
        [0x60, 0, 0, 0, 0, 0, 0, 0, 0, 0, 0, 0, 0x67, 0xaa, 0x87, 0x53]
    );
}

#[test]
fn wire_roundtrip_gives_the_record_back() {
    let r = EventRecord::new(
        EventKind::Dnp3UnauthorizedMaster,
        EventSeverity::Confirmed,
        SourceId::dnp3(),
        0xDEAD_BEEF,
        TsDelta::new(0x0102_0304),
    );
    let back = EventRecord::from_bytes(&r.to_bytes()).expect("own bytes parse");
    assert_eq!(back, r);
    assert_eq!(back.to_bytes()[4..8], [0xEF, 0xBE, 0xAD, 0xDE]);
    assert_eq!(back.to_bytes()[8..12], [0x04, 0x03, 0x02, 0x01]);
    assert_eq!(back.to_bytes()[2..4], [0x02, 0x00]);
}

#[test]
fn every_single_header_byte_change_is_refused() {
    let raw = EventRecord::new(
        EventKind::HashMismatch,
        EventSeverity::Confirmed,
        SourceId::custody(),
        77,
        TsDelta::new(9),
    )
    .to_bytes();
    for i in 0..12 {
        for delta in [1u8, 0x80, 0xFF] {
            let mut t = raw;
            t[i] ^= delta;
            assert!(EventRecord::from_bytes(&t).is_err(), "byte {} xor {}", i, delta);
        }
    }
}

#[test]
fn checksum_error_carries_its_context() {
    let mut raw = EventRecord::system_event(EventKind::ConfigReloaded, TsDelta::new(3)).to_bytes();
    raw[1] = 0x02;
    let e = EventRecord::from_bytes(&raw).unwrap_err();
    assert_eq!(e.kind, ErrorKind::ChecksumInvalid);
    assert_eq!(e.layer, ErrorLayer::Protocol);
    assert_eq!(e.severity, ErrorSeverity::DaemonFatal);
    assert_eq!(e.os_code, 0);
    assert!(e.is_forensic_evidence());
}

#[test]
fn unknown_kind_requires_immediate_custody() {
    let mut blob = [0u8; 16];
    blob[0] = 0x07;
    let crc = Crc32::compute(&blob[0..12]).value();
    blob[12..16].copy_from_slice(&crc.to_le_bytes());
    let r = EventRecord::from_bytes(&blob).expect("valid checksum");
    assert!(r.requires_immediate_custody());
    let known = EventRecord::system_event(EventKind::SentinelStarted, TsDelta::genesis());
    assert!(!known.requires_immediate_custody());
    let urgent = EventRecord::system_event(EventKind::CustodySequenceJump, TsDelta::genesis());
    assert!(urgent.requires_immediate_custody());
}

#[test]
fn source_and_delta_values() {
    assert_eq!(SourceId::system().value(), 0);
    assert_eq!(SourceId::kqueue().value(), 1);
    assert_eq!(SourceId::dnp3().value(), 2);
    assert_eq!(SourceId::dns().value(), 3);
    assert_eq!(SourceId::tls().value(), 4);
    assert_eq!(SourceId::http().value(), 5);
    assert_eq!(SourceId::custody().value(), 6);
    assert_eq!(SourceId::new(0xBEEF).value(), 0xBEEF);
    assert!(TsDelta::genesis().is_genesis());
    assert!(!TsDelta::new(5).is_genesis());
    assert_eq!(TsDelta::new(5).millis(), 5);
}
