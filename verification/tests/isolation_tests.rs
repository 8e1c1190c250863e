use vtr_sentinel::custody::chain::CustodyChain;
use vtr_sentinel::event::kind::{EventKind, EventSeverity};
use vtr_sentinel::event::record::{Crc32, EventRecord, SourceId, TsDelta};

fn build_blob(
    kind: u8,
    severity: u8,
    source_id: u16,
    pid: u32,
    ts_delta: u32,
) -> [u8; 16] {
    let mut blob = [0u8; 16];
    blob[0] = kind;
    blob[1] = severity;
    blob[2..4].copy_from_slice(&source_id.to_le_bytes());
    blob[4..8].copy_from_slice(&pid.to_le_bytes());
    blob[8..12].copy_from_slice(&ts_delta.to_le_bytes());
    let crc = Crc32::compute(&blob[0..12]).value();
    blob[12..16].copy_from_slice(&crc.to_le_bytes());
    blob
}

#[test]
fn test_kernel_primitive_immutable_in_custody_block() {
    let blob = build_blob(0x60, 0x00, 0x0000, 0, 0);
    let record = EventRecord::from_bytes(&blob).expect("blob must parse");
    let mut chain = CustodyChain::new();
    let block = chain.seal(&record).expect("seal must not fail");

    assert_eq!(block.record.kind_raw(),      blob[0],  "kind modified");
    assert_eq!(block.record.severity_raw(),  blob[1],  "severity modified");
    assert_eq!(block.record.source_id_raw(), u16::from_le_bytes([blob[2], blob[3]]), "source_id modified");
    assert_eq!(block.record.pid(),           u32::from_le_bytes([blob[4], blob[5], blob[6], blob[7]]), "pid modified");
    assert_eq!(block.record.ts_delta_raw(),  u32::from_le_bytes([blob[8], blob[9], blob[10], blob[11]]), "ts_delta modified");
    assert_eq!(block.record.checksum(),      u32::from_le_bytes([blob[12], blob[13], blob[14], blob[15]]), "checksum modified");
}

#[test]
fn test_semantic_reclassification_produces_new_block() {
    let kernel_blob = build_blob(0x20, 0x00, 0x0007, 2370, 1);
    let kernel_record = EventRecord::from_bytes(&kernel_blob).expect("kernel blob must parse");

    let mut chain = CustodyChain::new();
    let kernel_block = chain.seal(&kernel_record).expect("kernel seal");
    assert_eq!(kernel_block.seq, 0);

    let classification_record = EventRecord::new(
        EventKind::Dnp3CrcInvalid,
        EventSeverity::Probable,
        SourceId::custody(),
        0,
        TsDelta::new(1),
    );
    let classification_block = chain.seal(&classification_record).expect("classification seal");

    assert_eq!(classification_block.seq, 1);
    assert_eq!(kernel_block.seq, 0);
    assert_eq!(classification_block.prev_hash, kernel_block.hash);
    assert_ne!(kernel_block.hash, classification_block.hash);
}

#[test]
fn test_severity_elevation_without_new_block_is_detectable() {
    let kernel_blob = build_blob(0x20, 0x00, 0x0007, 2370, 1);
    let kernel_record = EventRecord::from_bytes(&kernel_blob).expect("kernel blob must parse");

    let mut tampered_blob = kernel_blob;
    tampered_blob[1] = 0x02;

    let result = EventRecord::from_bytes(&tampered_blob);
    assert!(result.is_err(), "tampered blob must be rejected — CRC protects severity field");

    let elevated_blob = build_blob(0x20, 0x02, 0x0006, 2370, 1);
    let elevated_record = EventRecord::from_bytes(&elevated_blob).expect("elevated blob must parse");

    assert_ne!(
        elevated_record.checksum(),
        kernel_record.checksum(),
        "elevated record must have different checksum"
    );

    let mut chain = CustodyChain::new();
    let b0 = chain.seal(&kernel_record).expect("kernel seal");
    let b1 = chain.seal(&elevated_record).expect("elevation seal");
    assert_eq!(b0.seq, 0);
    assert_eq!(b1.seq, 1);
}

#[test]
fn test_misclassification_detectable_from_chain() {
    let fork_blob = build_blob(0x20, 0x00, 0x0007, 2370, 1);
    let fork_record = EventRecord::from_bytes(&fork_blob).expect("fork blob");

    let misclassified_blob = build_blob(0x51, 0x00, 0x0007, 2370, 1);
    let misclassified_record = EventRecord::from_bytes(&misclassified_blob).expect("misclassified blob");

    let mut chain = CustodyChain::new();
    let original_block = chain.seal(&fork_record).expect("original seal");
    let misclassified_block = chain.seal(&misclassified_record).expect("misclassified seal");

    assert_eq!(original_block.record.kind_raw(),      0x20);
    assert_eq!(original_block.record.source_id_raw(), 0x0007);
    assert_eq!(misclassified_block.record.kind_raw(),      0x51);
    assert_eq!(misclassified_block.record.source_id_raw(), 0x0007);
}
