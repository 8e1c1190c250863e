use sha2::{Digest, Sha256};
use vtr_sentinel::custody::chain::{CustodyChain, GENESIS_HASH};
use vtr_sentinel::event::kind::EventKind;
use vtr_sentinel::event::record::{EventRecord, SourceId, TsDelta};

fn make_record(kind: EventKind, pid: u32, ts: u32) -> EventRecord {
    EventRecord::new(
        kind,
        kind.default_severity(),
        SourceId::system(),
        pid,
        TsDelta::new(ts),
    )
}

#[test]
fn test_genesis_block_seq_zero() {
    let mut chain = CustodyChain::new();
    let r = make_record(EventKind::SentinelStarted, 0, 0);
    let block = chain.seal(&r).expect("seal must not fail");
    assert_eq!(block.seq, 0);
    assert_eq!(block.prev_hash, GENESIS_HASH);
    assert_ne!(block.hash, GENESIS_HASH);
}

#[test]
fn test_chain_links_correctly() {
    let mut chain = CustodyChain::new();
    let r1 = make_record(EventKind::SentinelStarted, 0, 0);
    let r2 = make_record(EventKind::StateContamination, 1000, 1);

    let b1 = chain.seal(&r1).expect("seal 1");
    let b2 = chain.seal(&r2).expect("seal 2");

    assert_eq!(b1.seq, 0);
    assert_eq!(b2.seq, 1);
    assert_eq!(b2.prev_hash, b1.hash);
}

#[test]
fn test_different_records_produce_different_hashes() {
    let mut c1 = CustodyChain::new();
    let mut c2 = CustodyChain::new();
    let r1 = make_record(EventKind::SentinelStarted, 0, 0);
    let r2 = make_record(EventKind::StateContamination, 999, 0);

    let b1 = c1.seal(&r1).expect("seal 1");
    let b2 = c2.seal(&r2).expect("seal 2");

    assert_ne!(b1.hash, b2.hash);
}

#[test]
fn test_seal_is_deterministic() {
    let r = make_record(EventKind::SentinelStarted, 0, 0);
    let mut c1 = CustodyChain::new();
    let mut c2 = CustodyChain::new();
    let b1 = c1.seal(&r).expect("seal 1");
    let b2 = c2.seal(&r).expect("seal 2");
    assert_eq!(b1.hash, b2.hash);
}

#[test]
fn test_sequence_jump_detectable() {
    let mut chain = CustodyChain::new();
    let r = make_record(EventKind::SentinelStarted, 0, 0);
    let b1 = chain.seal(&r).expect("seal 1");
    assert_eq!(b1.seq, 0);
    assert_eq!(chain.seq(), 1);
}

#[test]
fn hash_input_layout() {
    let chain = CustodyChain::new();
    let r = make_record(EventKind::HashMismatch, 7, 3);
    let input = chain.hash_input(&r);
    assert_eq!(input.len(), 56);
    assert_eq!(input[0..32], [0u8; 32]);
    assert_eq!(input[32..40], [0u8; 8]);
    assert_eq!(input[40..56], r.to_bytes());
}

#[test]
fn seal_hash_is_sha256_of_the_input() {
    let mut chain = CustodyChain::new();
    let r1 = make_record(EventKind::SentinelStarted, 0, 0);
    let r2 = make_record(EventKind::UnsignedExecution, 42, 5);
    let b1 = chain.seal(&r1).expect("seal 1");
    let input2 = chain.hash_input(&r2);
    assert_eq!(input2[0..32], b1.hash);
    assert_eq!(input2[32..40], 1u64.to_le_bytes());
    let b2 = chain.seal(&r2).expect("seal 2");
    let expected: [u8; 32] = Sha256::digest(&input2).into();
    assert_eq!(b2.hash, expected);
    assert_ne!(b2.hash[..], input2[0..32]);
    assert_eq!(chain.prev_hash(), &b2.hash);
    assert_eq!(chain.seq(), 2);
}

#[test]
fn genesis_block_hash_value() {
    let mut chain = CustodyChain::new();
    let r = make_record(EventKind::SentinelStarted, 0, 0);
    let b = chain.seal(&r).expect("seal");
    let mut input = vec![0u8; 40];
    input.extend_from_slice(&[0x60, 0, 0, 0, 0, 0, 0, 0, 0, 0, 0, 0, 0x67, 0xaa, 0x87, 0x53]);
    let expected: [u8; 32] = Sha256::digest(&input).into();
    assert_eq!(b.hash, expected);
}

#[test]
fn link_advances_with_given_hash() {
    let mut chain = CustodyChain::new();
    let r = make_record(EventKind::ConfigReloaded, 1, 1);
    let h = [7u8; 32];
    let b = chain.link(&r, h);
    assert_eq!(b.seq, 0);
    assert_eq!(b.prev_hash, GENESIS_HASH);
    assert_eq!(b.hash, h);
    assert_eq!(b.record, r);
    assert_eq!(chain.seq(), 1);
    assert_eq!(chain.prev_hash(), &h);
}

#[test]
fn sequence_numbers_are_gap_free() {
    let mut chain = CustodyChain::new();
    let mut prev = GENESIS_HASH;
    for i in 0..20u64 {
        let r = make_record(EventKind::EventRateAnomaly, i as u32, i as u32);
        let b = chain.seal(&r).expect("seal");
        assert_eq!(b.seq, i);
        assert_eq!(b.prev_hash, prev);
        prev = b.hash;
    }
    assert_eq!(chain.seq(), 20);
}

#[test]
fn hash_input_tells_blocks_apart() {
    let r1 = make_record(EventKind::StateContamination, 2370, 1);
    let r2 = make_record(EventKind::Dnp3CrcInvalid, 2370, 1);
    let mut c1 = CustodyChain::new();
    let c2 = CustodyChain::new();
    assert_ne!(c1.hash_input(&r1), c2.hash_input(&r2));
    assert_eq!(c1.hash_input(&r1), c2.hash_input(&r1));
    let before = c1.hash_input(&r1);
    c1.link(&r1, GENESIS_HASH);
    let after = c1.hash_input(&r1);
    assert_eq!(before[0..32], after[0..32]);
    assert_ne!(before, after);
}
