//! The 16-byte event record of the wire contract, and the CRC-32 that seals it.
//!
//! Wire layout (little-endian): kind (1), severity (1), source id (2),
//! pid (4), timestamp delta (4), CRC-32 over the first 12 bytes (4).

use vstd::prelude::*;
use crate::error::{ErrorKind, ErrorLayer, ErrorSeverity, VtrError};
use crate::event::kind::{is_urgent_code, lemma_urgent_kinds_by_code, EventKind, EventSeverity};
use crate::le::{
    lemma_u16_from_le_roundtrip, lemma_u16_le_roundtrip, lemma_u32_from_le_roundtrip,
    lemma_u32_le_roundtrip, lemma_u16_le_bytes_are_shifts, lemma_u32_le_bytes_are_shifts,
    le_u16, le_u32, u16_from_le, u16_le_bytes, u16_to_le, u32_from_le, u32_le_bytes, u32_to_le,
};

verus! {

/// The reflected CRC-32 polynomial.
pub const CRC32_POLY: u32 = 0xEDB8_8320;

/// One bit step of the reflected CRC-32 register.
pub open spec fn crc32_bit(c: u32) -> u32 {
    if c & 1 != 0 {
        CRC32_POLY ^ (c >> 1)
    } else {
        c >> 1
    }
}

/// `n` bit steps of the CRC-32 register.
pub open spec fn crc32_bits(c: u32, n: nat) -> u32
    decreases n,
{
    if n == 0 {
        c
    } else {
        crc32_bit(crc32_bits(c, (n - 1) as nat))
    }
}

/// The eight bit steps that consume one byte already mixed into the register.
pub open spec fn crc32_byte_step(c: u32) -> u32 {
    crc32_bit(crc32_bit(crc32_bit(crc32_bit(crc32_bit(crc32_bit(crc32_bit(crc32_bit(c))))))))
}

/// The CRC-32 register after feeding `data` from the initial value 0xFFFFFFFF.
pub open spec fn crc32_register(data: Seq<u8>) -> u32
    decreases data.len(),
{
    if data.len() == 0 {
        0xFFFF_FFFF
    } else {
        crc32_byte_step(crc32_register(data.drop_last()) ^ (data.last() as u32))
    }
}

/// CRC-32 (poly 0xEDB88320 reflected, init 0xFFFFFFFF, xorout 0xFFFFFFFF).
pub open spec fn crc32(data: Seq<u8>) -> u32 {
    crc32_register(data) ^ 0xFFFF_FFFF
}

proof fn lemma_crc32_bits_eight(c: u32)
    ensures
        crc32_bits(c, 8) == crc32_byte_step(c),
{
    reveal_with_fuel(crc32_bits, 9);
}

/// Feeding a byte through the table: the step on `c ^ b` is the table entry
/// of the low byte combined with the register shifted by a byte.
proof fn lemma_crc32_table_step(c: u32, b: u32)
    requires
        b < 256,
    ensures
        crc32_byte_step(c ^ b) == crc32_byte_step((c ^ b) & 0xff) ^ (c >> 8),
{
    assert(crc32_byte_step(c ^ b) == crc32_byte_step((c ^ b) & 0xff) ^ (c >> 8)) by (bit_vector)
        requires
            b < 256,
    ;
}

proof fn lemma_crc32_byte_step_injective(x: u32, y: u32)
    requires
        crc32_byte_step(x) == crc32_byte_step(y),
    ensures
        x == y,
{
    assert(forall|a: u32, b: u32| #[trigger] crc32_bit(a) == #[trigger] crc32_bit(b) ==> a == b)
        by (bit_vector);
}

proof fn lemma_xor_byte_distinct(r: u32, s: u32, a: u8, b: u8)
    requires
        r != s || a != b,
        r == s || a == b,
    ensures
        r ^ (a as u32) != s ^ (b as u32),
{
    assert(r != s || a != b ==> (r == s || a == b) ==> r ^ (a as u32) != s ^ (b as u32))
        by (bit_vector);
}

/// The CRC-32 register tells apart two inputs of the same length that differ in one byte.
proof fn lemma_crc32_register_single_change(a: Seq<u8>, b: Seq<u8>, i: int)
    requires
        a.len() == b.len(),
        0 <= i < a.len(),
        a[i] != b[i],
        forall|j: int| 0 <= j < a.len() && j != i ==> a[j] == b[j],
    ensures
        crc32_register(a) != crc32_register(b),
    decreases a.len(),
{
    let n = a.len() as int;
    let pa = a.drop_last();
    let pb = b.drop_last();
    if i == n - 1 {
        assert(pa =~= pb);
    } else {
        lemma_crc32_register_single_change(pa, pb, i);
        assert(a.last() == b.last());
    }
    let ra = crc32_register(pa);
    let rb = crc32_register(pb);
    lemma_xor_byte_distinct(ra, rb, a.last(), b.last());
    if crc32_byte_step(ra ^ (a.last() as u32)) == crc32_byte_step(rb ^ (b.last() as u32)) {
        lemma_crc32_byte_step_injective(ra ^ (a.last() as u32), rb ^ (b.last() as u32));
    }
}

/// Law: CRC-32 detects every change of a single byte.
pub proof fn lemma_crc32_detects_single_byte_change(a: Seq<u8>, b: Seq<u8>, i: int)
    requires
        a.len() == b.len(),
        0 <= i < a.len(),
        a[i] != b[i],
        forall|j: int| 0 <= j < a.len() && j != i ==> a[j] == b[j],
    ensures
        crc32(a) != crc32(b),
{
    lemma_crc32_register_single_change(a, b, i);
    let x = crc32_register(a);
    let y = crc32_register(b);
    assert(x != y ==> x ^ 0xFFFF_FFFF != y ^ 0xFFFF_FFFF) by (bit_vector);
}

/// Feeding, from a register that holds `s ^ g`, the complement of the low byte
/// of `s` leaves `s >> 8` mixed with a value that depends on `g` alone.
proof fn lemma_crc32_feed_complement_byte(s: u32, g: u32)
    ensures
        crc32_byte_step((s ^ g) ^ ((s & 0xff) ^ 0xff)) == (s >> 8) ^ (crc32_byte_step(
            (g & 0xff) ^ 0xff,
        ) ^ (g >> 8)),
{
    assert(crc32_byte_step((s ^ g) ^ ((s & 0xff) ^ 0xff)) == (s >> 8) ^ (crc32_byte_step(
        (g & 0xff) ^ 0xff,
    ) ^ (g >> 8))) by (bit_vector);
}

/// Law: the CRC-32 residue. Appending to any data its CRC-32, least
/// significant byte first, gives data whose CRC-32 is the constant 0x2144DF1C;
/// this is how a receiver checks a frame with its CRC in one pass.
pub proof fn lemma_crc32_residue(data: Seq<u8>)
    ensures
        crc32(data + u32_le_bytes(crc32(data))) == 0x2144_DF1C,
{
    let r = crc32_register(data);
    let c = crc32(data);
    let b = u32_le_bytes(c);
    lemma_u32_le_bytes_are_shifts(c);
    let b0 = b[0];
    let b1 = b[1];
    let b2 = b[2];
    let b3 = b[3];
    assert(b0 as u32 == (r & 0xff) ^ 0xff && b1 as u32 == ((r >> 8) & 0xff) ^ 0xff && b2 as u32 == ((r
        >> 16) & 0xff) ^ 0xff && b3 as u32 == ((r >> 24) & 0xff) ^ 0xff) by (bit_vector)
        requires
            c == r ^ 0xFFFF_FFFF,
            b0 == (c & 0xff) as u8,
            b1 == ((c >> 8) & 0xff) as u8,
            b2 == ((c >> 16) & 0xff) as u8,
            b3 == ((c >> 24) & 0xff) as u8,
    ;
    let d1 = data.push(b0);
    let d2 = d1.push(b1);
    let d3 = d2.push(b2);
    let d4 = d3.push(b3);
    assert(d4 =~= data + b);
    assert(d1.drop_last() =~= data);
    assert(d2.drop_last() =~= d1);
    assert(d3.drop_last() =~= d2);
    assert(d4.drop_last() =~= d3);
    let g1: u32 = 0x2D02_EF8D;
    let g2: u32 = 0xBE26_12FF;
    let g3: u32 = 0x00BE_2612;
    let g4: u32 = 0xDEBB_20E3;
    assert(crc32_byte_step((0u32 & 0xff) ^ 0xff) ^ (0u32 >> 8) == g1 && crc32_byte_step((g1 & 0xff)
        ^ 0xff) ^ (g1 >> 8) == g2 && crc32_byte_step((g2 & 0xff) ^ 0xff) ^ (g2 >> 8) == g3
        && crc32_byte_step((g3 & 0xff) ^ 0xff) ^ (g3 >> 8) == g4) by (bit_vector)
        requires
            g1 == 0x2D02_EF8D,
            g2 == 0xBE26_12FF,
            g3 == 0x00BE_2612,
            g4 == 0xDEBB_20E3,
    ;
    assert(r ^ 0 == r && (r >> 8) >> 8 == r >> 16 && (r >> 16) >> 8 == r >> 24 && (r >> 24) >> 8 == 0
        && 0u32 ^ g4 == g4 && g4 ^ 0xFFFF_FFFF == 0x2144_DF1C) by (bit_vector)
        requires
            g4 == 0xDEBB_20E3,
    ;
    lemma_crc32_feed_complement_byte(r, 0);
    lemma_crc32_feed_complement_byte(r >> 8, g1);
    lemma_crc32_feed_complement_byte(r >> 16, g2);
    lemma_crc32_feed_complement_byte(r >> 24, g3);
    assert(crc32_register(d1) == (r >> 8) ^ g1);
    assert(crc32_register(d2) == (r >> 16) ^ g2);
    assert(crc32_register(d3) == (r >> 24) ^ g3);
    assert(crc32_register(d4) == g4);
}

/// Law: the CRC-32 check value of the ASCII digits "123456789" is
/// 0xCBF43926, and the CRC-32 of no data is 0.
pub proof fn lemma_crc32_check_value()
    ensures
        crc32(seq![0x31u8, 0x32, 0x33, 0x34, 0x35, 0x36, 0x37, 0x38, 0x39]) == 0xCBF4_3926,
        crc32(Seq::<u8>::empty()) == 0,
{
    let s = seq![0x31u8, 0x32, 0x33, 0x34, 0x35, 0x36, 0x37, 0x38, 0x39];
    assert(crc32_byte_step(0xFFFF_FFFFu32 ^ 49u32) == 0x7c231048u32
        && crc32_byte_step(0x7c231048u32 ^ 50u32) == 0xb0acbb32u32
        && crc32_byte_step(0xb0acbb32u32 ^ 51u32) == 0x77b79c2du32
        && crc32_byte_step(0x77b79c2du32 ^ 52u32) == 0x641c1f5cu32
        && crc32_byte_step(0x641c1f5cu32 ^ 53u32) == 0x340ac5e3u32
        && crc32_byte_step(0x340ac5e3u32 ^ 54u32) == 0xf68d2c9eu32
        && crc32_byte_step(0xf68d2c9eu32 ^ 55u32) == 0xaffc9660u32
        && crc32_byte_step(0xaffc9660u32 ^ 56u32) == 0x651f2550u32
        && crc32_byte_step(0x651f2550u32 ^ 57u32) == 0x340bc6d9u32) by (bit_vector);
    assert(0x340b_c6d9u32 ^ 0xFFFF_FFFF == 0xCBF4_3926u32 && 0xFFFF_FFFFu32 ^ 0xFFFF_FFFF == 0u32)
        by (bit_vector);
    assert(s.take(0) =~= Seq::<u8>::empty());
    assert(crc32_register(s.take(0)) == 0xFFFF_FFFFu32);
    assert(s.take(1).drop_last() =~= s.take(0));
    assert(s.take(1).last() == 0x31u8);
    assert(s.take(2).drop_last() =~= s.take(1));
    assert(s.take(2).last() == 0x32u8);
    assert(s.take(3).drop_last() =~= s.take(2));
    assert(s.take(3).last() == 0x33u8);
    assert(s.take(4).drop_last() =~= s.take(3));
    assert(s.take(4).last() == 0x34u8);
    assert(s.take(5).drop_last() =~= s.take(4));
    assert(s.take(5).last() == 0x35u8);
    assert(s.take(6).drop_last() =~= s.take(5));
    assert(s.take(6).last() == 0x36u8);
    assert(s.take(7).drop_last() =~= s.take(6));
    assert(s.take(7).last() == 0x37u8);
    assert(s.take(8).drop_last() =~= s.take(7));
    assert(s.take(8).last() == 0x38u8);
    assert(s.take(9).drop_last() =~= s.take(8));
    assert(s.take(9).last() == 0x39u8);
    assert(crc32_register(s.take(1)) == crc32_byte_step(0xFFFF_FFFFu32 ^ 0x31u32));
    assert(crc32_register(s.take(1)) == 0x7c231048u32);
    assert(crc32_register(s.take(2)) == crc32_byte_step(0x7c231048u32 ^ 0x32u32));
    assert(crc32_register(s.take(2)) == 0xb0acbb32u32);
    assert(crc32_register(s.take(3)) == crc32_byte_step(0xb0acbb32u32 ^ 0x33u32));
    assert(crc32_register(s.take(3)) == 0x77b79c2du32);
    assert(crc32_register(s.take(4)) == crc32_byte_step(0x77b79c2du32 ^ 0x34u32));
    assert(crc32_register(s.take(4)) == 0x641c1f5cu32);
    assert(crc32_register(s.take(5)) == crc32_byte_step(0x641c1f5cu32 ^ 0x35u32));
    assert(crc32_register(s.take(5)) == 0x340ac5e3u32);
    assert(crc32_register(s.take(6)) == crc32_byte_step(0x340ac5e3u32 ^ 0x36u32));
    assert(crc32_register(s.take(6)) == 0xf68d2c9eu32);
    assert(crc32_register(s.take(7)) == crc32_byte_step(0xf68d2c9eu32 ^ 0x37u32));
    assert(crc32_register(s.take(7)) == 0xaffc9660u32);
    assert(crc32_register(s.take(8)) == crc32_byte_step(0xaffc9660u32 ^ 0x38u32));
    assert(crc32_register(s.take(8)) == 0x651f2550u32);
    assert(crc32_register(s.take(9)) == crc32_byte_step(0x651f2550u32 ^ 0x39u32));
    assert(crc32_register(s.take(9)) == 0x340bc6d9u32);
    assert(s.take(9) =~= s);
}

/// The 256-entry lookup table: entry `i` is the byte step of `i`.
fn crc32_table() -> (t: [u32; 256])
    ensures
        forall|i: int| 0 <= i < 256 ==> #[trigger] t@[i] == crc32_byte_step(i as u32),
{
    let mut t: [u32; 256] = [0u32; 256];
    let mut i: u32 = 0;
    while i < 256
        invariant
            i <= 256,
            forall|k: int| 0 <= k < i ==> #[trigger] t@[k] == crc32_byte_step(k as u32),
        decreases 256 - i,
    {
        let mut c: u32 = i;
        let mut j: u32 = 0;
        while j < 8
            invariant
                j <= 8,
                c == crc32_bits(i, j as nat),
            decreases 8 - j,
        {
            if c & 1 != 0 {
                c = CRC32_POLY ^ (c >> 1);
            } else {
                c = c >> 1;
            }
            j = j + 1;
        }
        proof {
            lemma_crc32_bits_eight(i);
        }
        t[i as usize] = c;
        i = i + 1;
    }
    t
}

/// A CRC-32 value.
#[derive(Debug, Clone, Copy, PartialEq, Eq, Structural)]
pub struct Crc32(u32);

impl View for Crc32 {
    type V = u32;

    closed spec fn view(&self) -> u32 {
        self.0
    }
}

impl Crc32 {
    /// The CRC-32 of `data`.
    pub fn compute(data: &[u8]) -> (c: Self)
        ensures
            c@ == crc32(data@),
    {
        let table = crc32_table();
        let mut crc: u32 = 0xFFFF_FFFF;
        let mut i: usize = 0;
        while i < data.len()
            invariant
                i <= data@.len(),
                forall|k: int| 0 <= k < 256 ==> #[trigger] table@[k] == crc32_byte_step(k as u32),
                crc == crc32_register(data@.take(i as int)),
            decreases data@.len() - i,
        {
            let byte = data[i];
            let idx = ((crc ^ (byte as u32)) & 0xff) as usize;
            proof {
                lemma_crc32_table_step(crc, byte as u32);
                assert(data@.take(i + 1).drop_last() =~= data@.take(i as int));
                assert(((crc ^ (byte as u32)) & 0xff) < 256) by (bit_vector);
            }
            crc = table[idx] ^ (crc >> 8);
            i = i + 1;
        }
        assert(data@.take(data@.len() as int) =~= data@);
        Crc32(crc ^ 0xFFFF_FFFF)
    }

    /// The checksum as an integer.
    pub fn value(&self) -> (v: u32)
        ensures
            v == self@,
    {
        self.0
    }
}

/// The origin of an event: which probe observed it.
#[derive(Debug, Clone, Copy, PartialEq, Eq, Structural)]
pub struct SourceId(u16);

impl View for SourceId {
    type V = u16;

    closed spec fn view(&self) -> u16 {
        self.0
    }
}

impl SourceId {
    /// The sentinel itself.
    pub fn system() -> (s: Self)
        ensures
            s@ == 0,
    {
        Self(0)
    }

    /// The kernel event queue.
    pub fn kqueue() -> (s: Self)
        ensures
            s@ == 1,
    {
        Self(1)
    }

    /// The DNP3 probe.
    pub fn dnp3() -> (s: Self)
        ensures
            s@ == 2,
    {
        Self(2)
    }

    /// The DNS probe.
    pub fn dns() -> (s: Self)
        ensures
            s@ == 3,
    {
        Self(3)
    }

    /// The TLS probe.
    pub fn tls() -> (s: Self)
        ensures
            s@ == 4,
    {
        Self(4)
    }

    /// The HTTP probe.
    pub fn http() -> (s: Self)
        ensures
            s@ == 5,
    {
        Self(5)
    }

    /// The custody chain (classifications made in userspace).
    pub fn custody() -> (s: Self)
        ensures
            s@ == 6,
    {
        Self(6)
    }


    pub fn new(id: u16) -> (s: Self)
        ensures
            s@ == id,
    {
        Self(id)
    }

    pub fn value(&self) -> (v: u16)
        ensures
            v == self@,
    {
        self.0
    }
}

/// Milliseconds since the previous event.
#[derive(Debug, Clone, Copy, PartialEq, Eq, Structural)]
pub struct TsDelta(u32);

impl View for TsDelta {
    type V = u32;

    closed spec fn view(&self) -> u32 {
        self.0
    }
}

impl TsDelta {
    /// The delta of the first event of a run.
    pub fn genesis() -> (t: Self)
        ensures
            t@ == 0,
    {
        Self(0)
    }


    pub fn new(ms: u32) -> (t: Self)
        ensures
            t@ == ms,
    {
        Self(ms)
    }

    pub fn millis(&self) -> (ms: u32)
        ensures
            ms == self@,
    {
        self.0
    }

    pub fn is_genesis(&self) -> (b: bool)
        ensures
            b == (self@ == 0),
    {
        self.0 == 0
    }
}

/// The first 12 wire bytes: everything the checksum covers.
pub open spec fn header_bytes(kind: u8, severity: u8, source_id: u16, pid: u32, ts_delta: u32) -> Seq<
    u8,
> {
    seq![kind, severity] + u16_le_bytes(source_id) + u32_le_bytes(pid) + u32_le_bytes(ts_delta)
}

/// Whether 16 wire bytes carry, in their last four, the CRC-32 of their first twelve.
pub open spec fn wire_checksum_ok(raw: Seq<u8>) -> bool {
    crc32(raw.take(12)) == u32_from_le(raw[12], raw[13], raw[14], raw[15])
}

/// The error that a record with a wrong checksum is refused with.
pub open spec fn checksum_invalid_error() -> VtrError {
    VtrError {
        kind: ErrorKind::ChecksumInvalid,
        layer: ErrorLayer::Protocol,
        severity: ErrorSeverity::DaemonFatal,
        os_code: 0,
    }
}

/// Law: the checksum protects every header byte. Changing any one of the first
/// 12 bytes of 16 wire bytes that pass the checksum test makes them fail it,
/// so `from_bytes` refuses a record whose kind, severity, source, pid or
/// timestamp was altered without resealing it.
pub proof fn lemma_header_tamper_detected(raw: Seq<u8>, tampered: Seq<u8>, i: int)
    requires
        raw.len() == 16,
        tampered.len() == 16,
        0 <= i < 12,
        tampered[i] != raw[i],
        forall|j: int| 0 <= j < 16 && j != i ==> tampered[j] == raw[j],
        wire_checksum_ok(raw),
    ensures
        !wire_checksum_ok(tampered),
{
    lemma_crc32_detects_single_byte_change(raw.take(12), tampered.take(12), i);
}

/// One observed event, exactly as it travels on the wire.
#[derive(Debug, Clone, Copy, PartialEq, Eq, Structural)]
pub struct EventRecord {
    kind: u8,
    severity: u8,
    source_id: u16,
    pid: u32,
    ts_delta: u32,
    checksum: u32,
}

impl EventRecord {
    pub closed spec fn spec_kind(self) -> u8 {
        self.kind
    }

    pub closed spec fn spec_severity(self) -> u8 {
        self.severity
    }

    pub closed spec fn spec_source_id(self) -> u16 {
        self.source_id
    }

    pub closed spec fn spec_pid(self) -> u32 {
        self.pid
    }

    pub closed spec fn spec_ts_delta(self) -> u32 {
        self.ts_delta
    }

    pub closed spec fn spec_checksum(self) -> u32 {
        self.checksum
    }

    /// The 12 bytes that the checksum covers.
    pub open spec fn spec_header(self) -> Seq<u8> {
        header_bytes(
            self.spec_kind(),
            self.spec_severity(),
            self.spec_source_id(),
            self.spec_pid(),
            self.spec_ts_delta(),
        )
    }

    /// The 16 wire bytes of the record.
    pub open spec fn spec_bytes(self) -> Seq<u8> {
        self.spec_header() + u32_le_bytes(self.spec_checksum())
    }

    /// The stored checksum is the CRC-32 of the header bytes.
    pub open spec fn spec_checksum_valid(self) -> bool {
        self.spec_checksum() == crc32(self.spec_header())
    }

    /// Law: the 16-byte wire layout of the kernel contract. Byte 0 is the kind,
    /// byte 1 the severity, then the source id (2 bytes), pid (4), timestamp delta
    /// (4) and checksum (4), each least significant byte first.
    pub proof fn lemma_wire_layout(self)
        ensures
            self.spec_bytes().len() == 16,
            self.spec_bytes()[0] == self.spec_kind(),
            self.spec_bytes()[1] == self.spec_severity(),
            self.spec_bytes()[2] == (self.spec_source_id() & 0xff) as u8,
            self.spec_bytes()[3] == ((self.spec_source_id() >> 8) & 0xff) as u8,
            self.spec_bytes()[4] == (self.spec_pid() & 0xff) as u8,
            self.spec_bytes()[5] == ((self.spec_pid() >> 8) & 0xff) as u8,
            self.spec_bytes()[6] == ((self.spec_pid() >> 16) & 0xff) as u8,
            self.spec_bytes()[7] == ((self.spec_pid() >> 24) & 0xff) as u8,
            self.spec_bytes()[8] == (self.spec_ts_delta() & 0xff) as u8,
            self.spec_bytes()[9] == ((self.spec_ts_delta() >> 8) & 0xff) as u8,
            self.spec_bytes()[10] == ((self.spec_ts_delta() >> 16) & 0xff) as u8,
            self.spec_bytes()[11] == ((self.spec_ts_delta() >> 24) & 0xff) as u8,
            self.spec_bytes()[12] == (self.spec_checksum() & 0xff) as u8,
            self.spec_bytes()[13] == ((self.spec_checksum() >> 8) & 0xff) as u8,
            self.spec_bytes()[14] == ((self.spec_checksum() >> 16) & 0xff) as u8,
            self.spec_bytes()[15] == ((self.spec_checksum() >> 24) & 0xff) as u8,
    {
        lemma_u16_le_bytes_are_shifts(self.source_id);
        lemma_u32_le_bytes_are_shifts(self.pid);
        lemma_u32_le_bytes_are_shifts(self.ts_delta);
        lemma_u32_le_bytes_are_shifts(self.checksum);
    }

    /// Law: a record requires immediate custody exactly when its kind byte is
    /// one of the urgent codes, or names no known kind.
    pub proof fn lemma_urgency_by_kind_byte(self)
        ensures
            (forall|k: EventKind| #[trigger] k.spec_code() == self.spec_kind()
                ==> k.spec_requires_immediate_custody()) <==> (is_urgent_code(self.spec_kind())
                || EventKind::spec_from_u8(self.spec_kind()) is None),
    {
        let v = self.spec_kind();
        match EventKind::spec_from_u8(v) {
            Some(k) => {
                assert(k.spec_code() == v);
                lemma_urgent_kinds_by_code(k);
                assert forall|k2: EventKind| #[trigger] k2.spec_code() == v implies k2 == k by {
                    lemma_urgent_kinds_by_code(k2);
                }
            },
            None => {
                assert(!is_urgent_code(v));
                assert forall|k2: EventKind| #[trigger] k2.spec_code() != v by {
                }
            },
        }
    }

    /// Law of the wire format: the wire bytes of a record pass the checksum test
    /// exactly when its stored checksum is valid, and no two records share their
    /// wire bytes. So `from_bytes` of `to_bytes` gives a sealed record back, and
    /// refuses one whose checksum is wrong.
    pub proof fn lemma_wire_roundtrip(r: Self, s: Self)
        ensures
            wire_checksum_ok(r.spec_bytes()) <==> r.spec_checksum_valid(),
            s.spec_bytes() == r.spec_bytes() ==> s == r,
    {
        let b = r.spec_bytes();
        assert(b.take(12) =~= r.spec_header());
        lemma_u32_le_roundtrip(r.checksum);
        if s.spec_bytes() == r.spec_bytes() {
            let c = s.spec_bytes();
            assert(c[2] == b[2] && c[3] == b[3]);
            lemma_u16_le_roundtrip(r.source_id);
            lemma_u16_le_roundtrip(s.source_id);
            lemma_u32_le_roundtrip(r.pid);
            lemma_u32_le_roundtrip(s.pid);
            lemma_u32_le_roundtrip(r.ts_delta);
            lemma_u32_le_roundtrip(s.ts_delta);
            lemma_u32_le_roundtrip(s.checksum);
            assert(c[4] == b[4] && c[5] == b[5] && c[6] == b[6] && c[7] == b[7]);
            assert(c[8] == b[8] && c[9] == b[9] && c[10] == b[10] && c[11] == b[11]);
            assert(c[12] == b[12] && c[13] == b[13] && c[14] == b[14] && c[15] == b[15]);
            assert(c[0] == b[0] && c[1] == b[1]);
        }
    }

    /// Builds a record and seals it with the CRC-32 of its first 12 wire bytes.
    pub fn new(
        kind: EventKind,
        severity: EventSeverity,
        source_id: SourceId,
        pid: u32,
        ts_delta: TsDelta,
    ) -> (r: Self)
        ensures
            r.spec_kind() == kind.spec_code(),
            r.spec_severity() == severity.spec_code(),
            r.spec_source_id() == source_id@,
            r.spec_pid() == pid,
            r.spec_ts_delta() == ts_delta@,
            r.spec_checksum() == crc32(r.spec_header()),
    {
        let kb = kind.code();
        let sb = severity.code();
        let ss = u16_to_le(source_id.value());
        let pb = u32_to_le(pid);
        let tb = u32_to_le(ts_delta.millis());
        let data: [u8; 12] = [kb, sb, ss[0], ss[1], pb[0], pb[1], pb[2], pb[3], tb[0], tb[1], tb[2], tb[3]];
        let checksum = Crc32::compute(&data).value();
        let r = Self {
            kind: kb,
            severity: sb,
            source_id: source_id.value(),
            pid,
            ts_delta: ts_delta.millis(),
            checksum,
        };
        assert(data@ =~= r.spec_header());
        r
    }

    /// A record of the sentinel itself: default severity, system source, pid 0.
    pub fn system_event(kind: EventKind, ts_delta: TsDelta) -> (r: Self)
        ensures
            r.spec_kind() == kind.spec_code(),
            r.spec_severity() == kind.spec_default_severity().spec_code(),
            r.spec_source_id() == 0,
            r.spec_pid() == 0,
            r.spec_ts_delta() == ts_delta@,
            r.spec_checksum() == crc32(r.spec_header()),
    {
        Self::new(kind, kind.default_severity(), SourceId::system(), 0, ts_delta)
    }

    /// Checks the stored checksum against the CRC-32 of the header bytes.
    pub fn verify(&self) -> (res: Result<(), VtrError>)
        ensures
            res is Ok <==> self.spec_checksum_valid(),
            res matches Err(e) ==> e == checksum_invalid_error(),
    {
        let raw = self.to_bytes();
        let computed = Crc32::compute(&raw[0..12]).value();
        let stored = le_u32(raw[12], raw[13], raw[14], raw[15]);
        proof {
            assert(raw@.subrange(0, 12) =~= self.spec_header());
            lemma_u32_le_roundtrip(self.checksum);
        }
        if computed == stored {
            Ok(())
        } else {
            Err(
                VtrError::new(
                    ErrorKind::ChecksumInvalid,
                    ErrorLayer::Protocol,
                    ErrorSeverity::DaemonFatal,
                    0,
                ),
            )
        }
    }

    /// Deserializes 16 wire bytes. Refused when the checksum does not match.
    pub fn from_bytes(raw: &[u8; 16]) -> (res: Result<Self, VtrError>)
        ensures
            res is Ok <==> wire_checksum_ok(raw@),
            res matches Ok(r) ==> {
                &&& r.spec_bytes() == raw@
                &&& r.spec_kind() == raw@[0]
                &&& r.spec_severity() == raw@[1]
                &&& r.spec_source_id() == u16_from_le(raw@[2], raw@[3])
                &&& r.spec_pid() == u32_from_le(raw@[4], raw@[5], raw@[6], raw@[7])
                &&& r.spec_ts_delta() == u32_from_le(raw@[8], raw@[9], raw@[10], raw@[11])
                &&& r.spec_checksum() == u32_from_le(raw@[12], raw@[13], raw@[14], raw@[15])
                &&& r.spec_checksum_valid()
            },
            res matches Err(e) ==> e == checksum_invalid_error(),
    {
        let kind = raw[0];
        let severity = raw[1];
        let source_id = le_u16(raw[2], raw[3]);
        let pid = le_u32(raw[4], raw[5], raw[6], raw[7]);
        let ts_delta = le_u32(raw[8], raw[9], raw[10], raw[11]);
        let checksum = le_u32(raw[12], raw[13], raw[14], raw[15]);
        let record = Self { kind, severity, source_id, pid, ts_delta, checksum };
        proof {
            lemma_u16_from_le_roundtrip(raw@[2], raw@[3]);
            lemma_u32_from_le_roundtrip(raw@[4], raw@[5], raw@[6], raw@[7]);
            lemma_u32_from_le_roundtrip(raw@[8], raw@[9], raw@[10], raw@[11]);
            lemma_u32_from_le_roundtrip(raw@[12], raw@[13], raw@[14], raw@[15]);
            assert(record.spec_bytes() =~= raw@);
            assert(record.spec_header() =~= raw@.take(12));
        }
        match record.verify() {
            Ok(()) => Ok(record),
            Err(e) => Err(e),
        }
    }

    pub fn kind_raw(&self) -> (k: u8)
        ensures
            k == self.spec_kind(),
    {
        self.kind
    }

    pub fn severity_raw(&self) -> (s: u8)
        ensures
            s == self.spec_severity(),
    {
        self.severity
    }

    pub fn source_id_raw(&self) -> (s: u16)
        ensures
            s == self.spec_source_id(),
    {
        self.source_id
    }

    pub fn pid(&self) -> (p: u32)
        ensures
            p == self.spec_pid(),
    {
        self.pid
    }

    pub fn ts_delta_raw(&self) -> (t: u32)
        ensures
            t == self.spec_ts_delta(),
    {
        self.ts_delta
    }

    pub fn checksum(&self) -> (c: u32)
        ensures
            c == self.spec_checksum(),
    {
        self.checksum
    }

    /// Whether the record must be sealed at once: so for the kinds that ask for it,
    /// and for any byte that names no known kind.
    pub fn requires_immediate_custody(&self) -> (b: bool)
        ensures
            b <==> forall|k: EventKind| #[trigger] k.spec_code() == self.spec_kind()
                ==> k.spec_requires_immediate_custody(),
    {
        match EventKind::from_u8(self.kind) {
            Some(k) => {
                assert(k.spec_code() == self.kind);
                k.requires_immediate_custody()
            },
            None => true,
        }
    }

    /// The 16 wire bytes of the record.
    pub fn to_bytes(&self) -> (b: [u8; 16])
        ensures
            b@ == self.spec_bytes(),
    {
        let s = u16_to_le(self.source_id);
        let p = u32_to_le(self.pid);
        let t = u32_to_le(self.ts_delta);
        let c = u32_to_le(self.checksum);
        let b = [
            self.kind,
            self.severity,
            s[0],
            s[1],
            p[0],
            p[1],
            p[2],
            p[3],
            t[0],
            t[1],
            t[2],
            t[3],
            c[0],
            c[1],
            c[2],
            c[3],
        ];
        assert(b@ =~= self.spec_bytes());
        b
    }
}

} // verus!
