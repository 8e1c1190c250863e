//! Append-only forensic custody: a hash chain over event records.
//!
//! Each block hashes, with SHA-256, the 56 bytes
//! `prev_hash (32) || seq (8, little-endian) || record (16)`,
//! which binds it to its position and to its predecessor.

use vstd::prelude::*;
use sha2::{Digest, Sha256};
use crate::error::VtrError;
use crate::event::record::EventRecord;
use crate::le::{lemma_u64_le_bytes_are_shifts, lemma_u64_le_injective, u64_le_bytes, u64_to_le};

verus! {

/// The SHA-256 digest of `data` (FIPS 180-4).
pub uninterp spec fn sha256(data: Seq<u8>) -> Seq<u8>;

/// Calls `sha2::Sha256::digest` on `data` and copies the 32-byte digest out.
/// Its contract claims that the result is the SHA-256 digest of exactly these
/// bytes, named `sha256`, and nothing about its value beyond that.
#[verifier::external_body]
fn sha256_digest(data: &[u8]) -> (h: [u8; 32])
    ensures
        h@ == sha256(data@),
{
    let digest = Sha256::digest(data);
    let mut h = [0u8; 32];
    h.copy_from_slice(digest.as_slice());
    h
}

/// The predecessor hash of the first block.
pub const GENESIS_HASH: [u8; 32] = [
    0, 0, 0, 0, 0, 0, 0, 0, 0, 0, 0, 0, 0, 0, 0, 0,
    0, 0, 0, 0, 0, 0, 0, 0, 0, 0, 0, 0, 0, 0, 0, 0,
];

/// The 56 bytes that a block's hash covers.
pub open spec fn seal_input(prev_hash: Seq<u8>, seq: u64, record: EventRecord) -> Seq<u8> {
    prev_hash + u64_le_bytes(seq) + record.spec_bytes()
}

/// The hash of the block at position `seq` after `prev_hash` that seals `record`.
pub open spec fn block_hash(prev_hash: Seq<u8>, seq: u64, record: EventRecord) -> Seq<u8> {
    sha256(seal_input(prev_hash, seq, record))
}

/// The sequence number that follows `seq`; it stays at the maximum once there.
pub open spec fn next_seq(seq: u64) -> u64 {
    if seq == u64::MAX {
        u64::MAX
    } else {
        (seq + 1) as u64
    }
}

/// One sealed record.
#[derive(Debug, Clone, Copy)]
pub struct CustodyBlock {
    pub seq: u64,
    pub prev_hash: [u8; 32],
    pub record: EventRecord,
    pub hash: [u8; 32],
}

/// The state of a chain: the sequence number of its next block and the hash
/// that block links to.
pub struct ChainView {
    pub seq: u64,
    pub prev_hash: Seq<u8>,
}

/// The chain state after sealing `record` into `c`.
pub open spec fn seal_view(c: ChainView, record: EventRecord) -> ChainView {
    ChainView { seq: next_seq(c.seq), prev_hash: block_hash(c.prev_hash, c.seq, record) }
}

/// The chain state after sealing `records` into `c`, in order.
pub open spec fn seal_all_view(c: ChainView, records: Seq<EventRecord>) -> ChainView
    decreases records.len(),
{
    if records.len() == 0 {
        c
    } else {
        seal_view(seal_all_view(c, records.drop_last()), records.last())
    }
}

/// The chain's head: the next sequence number and the hash of the last block.
pub struct CustodyChain {
    seq: u64,
    prev_hash: [u8; 32],
}

impl View for CustodyChain {
    type V = ChainView;

    closed spec fn view(&self) -> ChainView {
        ChainView { seq: self.seq, prev_hash: self.prev_hash@ }
    }
}

impl CustodyChain {
    /// An empty chain: the first block gets sequence number 0 and links to the genesis hash.
    pub fn new() -> (c: Self)
        ensures
            c@.seq == 0,
            c@.prev_hash == GENESIS_HASH@,
    {
        Self { seq: 0, prev_hash: GENESIS_HASH }
    }

    pub fn seq(&self) -> (s: u64)
        ensures
            s == self@.seq,
    {
        self.seq
    }

    pub fn prev_hash(&self) -> (h: &[u8; 32])
        ensures
            h@ == self@.prev_hash,
    {
        &self.prev_hash
    }

    /// The 56 bytes that the next block's hash covers when it seals `record`.
    pub fn hash_input(&self, record: &EventRecord) -> (input: [u8; 56])
        ensures
            input@ == seal_input(self@.prev_hash, self@.seq, *record),
    {
        let p = &self.prev_hash;
        let s = u64_to_le(self.seq);
        let r = record.to_bytes();
        let input = [
            p[0], p[1], p[2], p[3], p[4], p[5], p[6], p[7],
            p[8], p[9], p[10], p[11], p[12], p[13], p[14], p[15],
            p[16], p[17], p[18], p[19], p[20], p[21], p[22], p[23],
            p[24], p[25], p[26], p[27], p[28], p[29], p[30], p[31],
            s[0], s[1], s[2], s[3], s[4], s[5], s[6], s[7],
            r[0], r[1], r[2], r[3], r[4], r[5], r[6], r[7],
            r[8], r[9], r[10], r[11], r[12], r[13], r[14], r[15],
        ];
        assert(input@ =~= seal_input(self.prev_hash@, self.seq, *record));
        input
    }

    /// Appends the block that seals `record` under `hash` and advances the chain.
    pub fn link(&mut self, record: &EventRecord, hash: [u8; 32]) -> (b: CustodyBlock)
        ensures
            b.seq == old(self)@.seq,
            b.prev_hash@ == old(self)@.prev_hash,
            b.record == *record,
            b.hash == hash,
            final(self)@.seq == next_seq(old(self)@.seq),
            final(self)@.prev_hash == hash@,
    {
        let block = CustodyBlock { seq: self.seq, prev_hash: self.prev_hash, record: *record, hash };
        self.seq = self.seq.saturating_add(1);
        self.prev_hash = hash;
        block
    }

    /// Seals `record` into the chain and advances it. Never fails; not idempotent.
    pub fn seal(&mut self, record: &EventRecord) -> (res: Result<CustodyBlock, VtrError>)
        ensures
            res is Ok,
            final(self)@ == seal_view(old(self)@, *record),
            res matches Ok(b) ==> {
                &&& b.seq == old(self)@.seq
                &&& b.prev_hash@ == old(self)@.prev_hash
                &&& b.record == *record
                &&& b.hash@ == block_hash(old(self)@.prev_hash, old(self)@.seq, *record)
                &&& b.hash@ == final(self)@.prev_hash
            },
    {
        let input = self.hash_input(record);
        let hash = sha256_digest(&input);
        Ok(self.link(record, hash))
    }
}

/// Law: consecutive blocks link. The block sealed after `r1` links to the hash
/// of the block that sealed `r1`, and its sequence number is one more.
pub proof fn lemma_consecutive_blocks_link(c: ChainView, r1: EventRecord, r2: EventRecord)
    requires
        c.seq < u64::MAX,
    ensures
        seal_view(c, r1).prev_hash == block_hash(c.prev_hash, c.seq, r1),
        seal_view(c, r1).seq == c.seq + 1,
        seal_view(seal_view(c, r1), r2).prev_hash == block_hash(
            block_hash(c.prev_hash, c.seq, r1),
            (c.seq + 1) as u64,
            r2,
        ),
{
}

/// Law: sequence numbers advance by one per sealed record, with no gap and no
/// repeat, until they reach the maximum, where they stay.
pub proof fn lemma_sequence_is_gap_free(c: ChainView, records: Seq<EventRecord>)
    ensures
        seal_all_view(c, records).seq == (if c.seq + records.len() <= u64::MAX {
            c.seq + records.len()
        } else {
            u64::MAX as int
        }),
    decreases records.len(),
{
    if records.len() > 0 {
        lemma_sequence_is_gap_free(c, records.drop_last());
    }
}

/// Law: the layout of the 56 bytes a block hashes: bytes 0..32 are the
/// predecessor hash, byte `32 + k` is byte `k` of the sequence number counted
/// from its least significant end, and bytes 40..56 are the record's wire bytes.
pub proof fn lemma_seal_input_layout(prev_hash: Seq<u8>, seq: u64, record: EventRecord)
    requires
        prev_hash.len() == 32,
    ensures
        seal_input(prev_hash, seq, record).len() == 56,
        seal_input(prev_hash, seq, record).subrange(0, 32) == prev_hash,
        seal_input(prev_hash, seq, record)[32] == (seq & 0xff) as u8,
        seal_input(prev_hash, seq, record)[33] == ((seq >> 8) & 0xff) as u8,
        seal_input(prev_hash, seq, record)[34] == ((seq >> 16) & 0xff) as u8,
        seal_input(prev_hash, seq, record)[35] == ((seq >> 24) & 0xff) as u8,
        seal_input(prev_hash, seq, record)[36] == ((seq >> 32) & 0xff) as u8,
        seal_input(prev_hash, seq, record)[37] == ((seq >> 40) & 0xff) as u8,
        seal_input(prev_hash, seq, record)[38] == ((seq >> 48) & 0xff) as u8,
        seal_input(prev_hash, seq, record)[39] == ((seq >> 56) & 0xff) as u8,
        seal_input(prev_hash, seq, record).subrange(40, 56) == record.spec_bytes(),
{
    lemma_u64_le_bytes_are_shifts(seq);
    let a = seal_input(prev_hash, seq, record);
    assert(a.subrange(0, 32) =~= prev_hash);
    assert(a.subrange(40, 56) =~= record.spec_bytes());
}

/// Law: the 56 bytes a block hashes determine its predecessor hash, its
/// sequence number and its record. Two blocks that hash the same input link to
/// the same predecessor, sit at the same position and seal the same record.
pub proof fn lemma_seal_input_determines_block(
    p1: Seq<u8>,
    s1: u64,
    r1: EventRecord,
    p2: Seq<u8>,
    s2: u64,
    r2: EventRecord,
)
    requires
        p1.len() == 32,
        p2.len() == 32,
        seal_input(p1, s1, r1) == seal_input(p2, s2, r2),
    ensures
        p1 == p2,
        s1 == s2,
        r1 == r2,
{
    let a = seal_input(p1, s1, r1);
    let b = seal_input(p2, s2, r2);
    assert(a.subrange(0, 32) =~= p1);
    assert(b.subrange(0, 32) =~= p2);
    assert(a.subrange(32, 40) =~= u64_le_bytes(s1));
    assert(b.subrange(32, 40) =~= u64_le_bytes(s2));
    assert(a.subrange(40, 56) =~= r1.spec_bytes());
    assert(b.subrange(40, 56) =~= r2.spec_bytes());
    lemma_u64_le_injective(s1, s2);
    EventRecord::lemma_wire_roundtrip(r1, r2);
}

/// Law: a block's hash depends on nothing but its predecessor hash, its
/// sequence number and the wire bytes of its record.
pub proof fn lemma_block_hash_determined(
    prev_hash: Seq<u8>,
    seq: u64,
    r1: EventRecord,
    r2: EventRecord,
)
    requires
        r1.spec_bytes() == r2.spec_bytes(),
    ensures
        block_hash(prev_hash, seq, r1) == block_hash(prev_hash, seq, r2),
{
}

} // verus!
