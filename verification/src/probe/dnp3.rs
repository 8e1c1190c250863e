//! DNP3 link-layer frame parsing, with the CRC-16 of IEEE 1815-2012
//! (polynomial 0x3D65, here in its reflected form 0xA6BC).

use vstd::prelude::*;
use crate::le::{lemma_u16_le_bytes_are_shifts, le_u16, u16_from_le, u16_le_bytes};

verus! {

/// The DNP3 application function codes the probe recognises.
#[derive(Debug, Clone, Copy, PartialEq, Eq, Structural)]
pub enum FunctionCode {
    Confirm,
    Read,
    Write,
    DirectOperate,
    FreezeNoAck,
    ColdRestart,
    WarmRestart,
    InitData,
    Response,
}

impl FunctionCode {
    /// The wire byte of the function code.
    pub open spec fn spec_code(self) -> u8 {
        match self {
            FunctionCode::Confirm => 0x00,
            FunctionCode::Read => 0x01,
            FunctionCode::Write => 0x02,
            FunctionCode::DirectOperate => 0x03,
            FunctionCode::FreezeNoAck => 0x08,
            FunctionCode::ColdRestart => 0x0D,
            FunctionCode::WarmRestart => 0x0E,
            FunctionCode::InitData => 0x0F,
            FunctionCode::Response => 0x81,
        }
    }

    /// The wire byte of the function code.
    pub fn code(&self) -> (c: u8)
        ensures
            c == self.spec_code(),
    {
        match self {
            FunctionCode::Confirm => 0x00,
            FunctionCode::Read => 0x01,
            FunctionCode::Write => 0x02,
            FunctionCode::DirectOperate => 0x03,
            FunctionCode::FreezeNoAck => 0x08,
            FunctionCode::ColdRestart => 0x0D,
            FunctionCode::WarmRestart => 0x0E,
            FunctionCode::InitData => 0x0F,
            FunctionCode::Response => 0x81,
        }
    }

    /// The function code whose wire byte is `v`, if any.
    pub open spec fn spec_from_u8(v: u8) -> Option<Self> {
        if v == 0x00 {
            Some(FunctionCode::Confirm)
        } else if v == 0x01 {
            Some(FunctionCode::Read)
        } else if v == 0x02 {
            Some(FunctionCode::Write)
        } else if v == 0x03 {
            Some(FunctionCode::DirectOperate)
        } else if v == 0x08 {
            Some(FunctionCode::FreezeNoAck)
        } else if v == 0x0D {
            Some(FunctionCode::ColdRestart)
        } else if v == 0x0E {
            Some(FunctionCode::WarmRestart)
        } else if v == 0x0F {
            Some(FunctionCode::InitData)
        } else if v == 0x81 {
            Some(FunctionCode::Response)
        } else {
            None
        }
    }

    /// Decodes a function byte. `None` exactly for the bytes that no function code has.
    pub fn from_u8(v: u8) -> (r: Option<Self>)
        ensures
            forall|f: FunctionCode| (r == Some(f)) <==> #[trigger] f.spec_code() == v,
            r == Self::spec_from_u8(v),
    {
        let r = match v {
            0x00 => Some(FunctionCode::Confirm),
            0x01 => Some(FunctionCode::Read),
            0x02 => Some(FunctionCode::Write),
            0x03 => Some(FunctionCode::DirectOperate),
            0x08 => Some(FunctionCode::FreezeNoAck),
            0x0D => Some(FunctionCode::ColdRestart),
            0x0E => Some(FunctionCode::WarmRestart),
            0x0F => Some(FunctionCode::InitData),
            0x81 => Some(FunctionCode::Response),
            _ => None,
        };
        r
    }
}

/// Law: the function codes are those of IEEE 1815-2012: Confirm 0x00, Read
/// 0x01, Write 0x02, Direct Operate 0x03, Freeze No Ack 0x08, Cold Restart
/// 0x0D, Warm Restart 0x0E, Initialize Data 0x0F, Response 0x81. Only the
/// response has the high bit set.
pub proof fn lemma_function_codes_ieee_1815(f: FunctionCode)
    ensures
        FunctionCode::Confirm.spec_code() == 0x00,
        FunctionCode::Read.spec_code() == 0x01,
        FunctionCode::Write.spec_code() == 0x02,
        FunctionCode::DirectOperate.spec_code() == 0x03,
        FunctionCode::FreezeNoAck.spec_code() == 0x08,
        FunctionCode::ColdRestart.spec_code() == 0x0D,
        FunctionCode::WarmRestart.spec_code() == 0x0E,
        FunctionCode::InitData.spec_code() == 0x0F,
        FunctionCode::Response.spec_code() == 0x81,
        (f.spec_code() >= 0x80) <==> f == FunctionCode::Response,
        FunctionCode::spec_from_u8(f.spec_code()) == Some(f),
{
}

/// The reflected CRC-16 polynomial of DNP3.
pub const DNP3_CRC_POLY: u16 = 0xA6BC;

/// One bit step of the CRC-16 register, consuming the low bit of `b`.
pub open spec fn crc16_bit(crc: u16, b: u8) -> u16 {
    let mix = (crc ^ (b as u16)) & 1;
    let c = crc >> 1;
    if mix != 0 {
        c ^ DNP3_CRC_POLY
    } else {
        c
    }
}

/// `n` bit steps consuming the low `n` bits of `b`, lowest first.
pub open spec fn crc16_bits(crc: u16, b: u8, n: nat) -> u16
    decreases n,
{
    if n == 0 {
        crc
    } else {
        crc16_bits(crc16_bit(crc, b), b >> 1, (n - 1) as nat)
    }
}

/// The CRC-16 register after feeding `data` from the initial value 0.
pub open spec fn crc16_register(data: Seq<u8>) -> u16
    decreases data.len(),
{
    if data.len() == 0 {
        0
    } else {
        crc16_bits(crc16_register(data.drop_last()), data.last(), 8)
    }
}

/// The DNP3 CRC-16 of `data`: the ones' complement of the register.
pub open spec fn crc16_spec(data: Seq<u8>) -> u16 {
    (0xFFFF - crc16_register(data)) as u16
}

/// The DNP3 CRC-16 of `data`.
pub fn crc16(data: &[u8]) -> (c: u16)
    ensures
        c == crc16_spec(data@),
{
    let mut crc: u16 = 0x0000;
    let mut i: usize = 0;
    while i < data.len()
        invariant
            i <= data@.len(),
            crc == crc16_register(data@.take(i as int)),
        decreases data@.len() - i,
    {
        let byte = data[i];
        let ghost start = crc;
        let mut b = byte;
        let mut j: u32 = 0;
        while j < 8
            invariant
                j <= 8,
                crc16_bits(crc, b, (8 - j) as nat) == crc16_bits(start, byte, 8),
            decreases 8 - j,
        {
            let mix = (crc ^ b as u16) & 0x01;
            crc = crc >> 1;
            if mix != 0 {
                crc = crc ^ DNP3_CRC_POLY;
            }
            b = b >> 1;
            j = j + 1;
        }
        assert(data@.take(i + 1).drop_last() =~= data@.take(i as int));
        i = i + 1;
    }
    assert(data@.take(data@.len() as int) =~= data@);
    assert(!crc == 0xFFFF - crc) by (bit_vector);
    !crc
}

/// The eight bit steps that consume the byte `b`.
spec fn crc16_byte(c: u16, b: u8) -> u16 {
    let b1 = b >> 1;
    let b2 = b1 >> 1;
    let b3 = b2 >> 1;
    let b4 = b3 >> 1;
    let b5 = b4 >> 1;
    let b6 = b5 >> 1;
    let b7 = b6 >> 1;
    crc16_bit(
        crc16_bit(
            crc16_bit(crc16_bit(crc16_bit(crc16_bit(crc16_bit(crc16_bit(c, b), b1), b2), b3), b4), b5),
            b6,
        ),
        b7,
    )
}

proof fn lemma_crc16_bits_eight(c: u16, b: u8)
    ensures
        crc16_bits(c, b, 8) == crc16_byte(c, b),
{
    reveal_with_fuel(crc16_bits, 9);
}

/// Feeding, from a register that holds `s ^ g`, the complement of the low byte
/// of `s` leaves `s >> 8` mixed with a value that depends on `g` alone.
proof fn lemma_crc16_feed_complement_byte(s: u16, g: u16)
    ensures
        crc16_byte(s ^ g, ((s & 0xff) ^ 0xff) as u8) == (s >> 8) ^ crc16_byte(g, 0xff),
{
    assert(crc16_byte(s ^ g, ((s & 0xff) ^ 0xff) as u8) == (s >> 8) ^ crc16_byte(g, 0xff))
        by (bit_vector);
}

/// Law: the DNP3 CRC-16 residue. Appending to any data its CRC-16, least
/// significant byte first, as every DNP3 block carries it, gives data whose
/// CRC-16 is the constant 0x993A.
pub proof fn lemma_crc16_residue(data: Seq<u8>)
    ensures
        crc16_spec(data + u16_le_bytes(crc16_spec(data))) == 0x993A,
{
    let r = crc16_register(data);
    let c = crc16_spec(data);
    let b = u16_le_bytes(c);
    lemma_u16_le_bytes_are_shifts(c);
    let b0 = b[0];
    let b1 = b[1];
    assert(b0 == ((r & 0xff) ^ 0xff) as u8 && b1 == (((r >> 8) & 0xff) ^ 0xff) as u8) by (bit_vector)
        requires
            c == (0xFFFF - r) as u16,
            b0 == (c & 0xff) as u8,
            b1 == ((c >> 8) & 0xff) as u8,
    ;
    let d1 = data.push(b0);
    let d2 = d1.push(b1);
    assert(d2 =~= data + b);
    assert(d1.drop_last() =~= data);
    assert(d2.drop_last() =~= d1);
    let g1: u16 = 0x1235;
    let g2: u16 = 0x66C5;
    assert(crc16_byte(0, 0xff) == g1 && crc16_byte(g1, 0xff) == g2 && r ^ 0 == r && (r >> 8) >> 8
        == 0 && 0u16 ^ g2 == g2) by (bit_vector)
        requires
            g1 == 0x1235,
            g2 == 0x66C5,
    ;
    lemma_crc16_bits_eight(r, b0);
    lemma_crc16_bits_eight((r >> 8) ^ g1, b1);
    lemma_crc16_feed_complement_byte(r, 0);
    lemma_crc16_feed_complement_byte(r >> 8, g1);
    assert(crc16_register(d1) == (r >> 8) ^ g1);
    assert(crc16_register(d2) == g2);
}

/// Law: the DNP3 CRC-16 check value of the ASCII digits "123456789" is
/// 0xEA82, and the CRC-16 of no data is 0xFFFF.
pub proof fn lemma_crc16_check_value()
    ensures
        crc16_spec(seq![0x31u8, 0x32, 0x33, 0x34, 0x35, 0x36, 0x37, 0x38, 0x39]) == 0xEA82,
        crc16_spec(Seq::<u8>::empty()) == 0xFFFF,
{
    let s = seq![0x31u8, 0x32, 0x33, 0x34, 0x35, 0x36, 0x37, 0x38, 0x39];
    assert(crc16_byte(0u16, 49u8) == 0xad9au16
        && crc16_byte(0xad9au16, 50u8) == 0x7037u16
        && crc16_byte(0x7037u16, 51u8) == 0xd908u16
        && crc16_byte(0xd908u16, 52u8) == 0xbdecu16
        && crc16_byte(0xbdecu16, 53u8) == 0x8ee3u16
        && crc16_byte(0x8ee3u16, 54u8) == 0xa821u16
        && crc16_byte(0xa821u16, 55u8) == 0x707u16
        && crc16_byte(0x707u16, 56u8) == 0xe7d0u16
        && crc16_byte(0xe7d0u16, 57u8) == 0x157du16) by (bit_vector);
    lemma_crc16_bits_eight(0u16, 49u8);
    lemma_crc16_bits_eight(0xad9au16, 50u8);
    lemma_crc16_bits_eight(0x7037u16, 51u8);
    lemma_crc16_bits_eight(0xd908u16, 52u8);
    lemma_crc16_bits_eight(0xbdecu16, 53u8);
    lemma_crc16_bits_eight(0x8ee3u16, 54u8);
    lemma_crc16_bits_eight(0xa821u16, 55u8);
    lemma_crc16_bits_eight(0x707u16, 56u8);
    lemma_crc16_bits_eight(0xe7d0u16, 57u8);
    assert(s.take(0) =~= Seq::<u8>::empty());
    assert(crc16_register(s.take(0)) == 0u16);
    assert(s.take(1).drop_last() =~= s.take(0));
    assert(s.take(1).last() == 0x31u8);
    assert(s.take(2).drop_last() =~= s.take(1));
    assert(s.take(2).last() == 0x32u8);
    assert(s.take(3).drop_last() =~= s.take(2));
    assert(s.take(3).last() == 0x33u8);
    assert(s.take(4).drop_last() =~= s.take(3));
    assert(s.take(4).last() == 0x34u8);
    assert(s.take(5).drop_last() =~= s.take(4));
    assert(s.take(5).last() == 0x35u8);
    assert(s.take(6).drop_last() =~= s.take(5));
    assert(s.take(6).last() == 0x36u8);
    assert(s.take(7).drop_last() =~= s.take(6));
    assert(s.take(7).last() == 0x37u8);
    assert(s.take(8).drop_last() =~= s.take(7));
    assert(s.take(8).last() == 0x38u8);
    assert(s.take(9).drop_last() =~= s.take(8));
    assert(s.take(9).last() == 0x39u8);
    assert(crc16_register(s.take(1)) == crc16_bits(0u16, 0x31u8, 8));
    assert(crc16_register(s.take(1)) == 0xad9au16);
    assert(crc16_register(s.take(2)) == crc16_bits(0xad9au16, 0x32u8, 8));
    assert(crc16_register(s.take(2)) == 0x7037u16);
    assert(crc16_register(s.take(3)) == crc16_bits(0x7037u16, 0x33u8, 8));
    assert(crc16_register(s.take(3)) == 0xd908u16);
    assert(crc16_register(s.take(4)) == crc16_bits(0xd908u16, 0x34u8, 8));
    assert(crc16_register(s.take(4)) == 0xbdecu16);
    assert(crc16_register(s.take(5)) == crc16_bits(0xbdecu16, 0x35u8, 8));
    assert(crc16_register(s.take(5)) == 0x8ee3u16);
    assert(crc16_register(s.take(6)) == crc16_bits(0x8ee3u16, 0x36u8, 8));
    assert(crc16_register(s.take(6)) == 0xa821u16);
    assert(crc16_register(s.take(7)) == crc16_bits(0xa821u16, 0x37u8, 8));
    assert(crc16_register(s.take(7)) == 0x707u16);
    assert(crc16_register(s.take(8)) == crc16_bits(0x707u16, 0x38u8, 8));
    assert(crc16_register(s.take(8)) == 0xe7d0u16);
    assert(crc16_register(s.take(9)) == crc16_bits(0xe7d0u16, 0x39u8, 8));
    assert(crc16_register(s.take(9)) == 0x157du16);
    assert(s.take(9) =~= s);
}

/// The shortest frame `parse` accepts.
pub const MIN_FRAME_LEN: usize = 10;

/// The fields `parse` reads out of a frame.
#[derive(Debug, Clone, Copy, PartialEq, Eq)]
pub struct Dnp3ParseResult {
    pub crc_valid: bool,
    pub function_code: Option<FunctionCode>,
    pub master_addr: u16,
    pub outstation: u16,
    pub payload_len: u8,
}

/// Reads a DNP3 frame: the length byte, the two addresses, the function byte
/// (byte 8) and whether bytes 8..10 carry the CRC-16 of bytes 0..8.
/// Refused exactly when the frame is shorter than `MIN_FRAME_LEN`.
pub fn parse(frame: &[u8]) -> (res: Result<Dnp3ParseResult, ()>)
    ensures
        res is Err <==> frame@.len() < MIN_FRAME_LEN,
        res matches Ok(p) ==> {
            &&& p.payload_len == frame@[2]
            &&& p.master_addr == u16_from_le(frame@[4], frame@[5])
            &&& p.outstation == u16_from_le(frame@[6], frame@[7])
            &&& p.function_code == FunctionCode::spec_from_u8(frame@[8])
            &&& p.crc_valid == (crc16_spec(frame@.subrange(0, 8)) == u16_from_le(frame@[8], frame@[9]))
        },
{
    if frame.len() < MIN_FRAME_LEN {
        return Err(());
    }
    let payload_len = frame[2];
    let master_addr = le_u16(frame[4], frame[5]);
    let outstation = le_u16(frame[6], frame[7]);
    let func_byte = frame[8];
    let expected_crc = crc16(&frame[0..8]);
    let frame_crc = le_u16(frame[8], frame[9]);
    let crc_valid = expected_crc == frame_crc;
    let function_code = FunctionCode::from_u8(func_byte);
    Ok(Dnp3ParseResult { crc_valid, function_code, master_addr, outstation, payload_len })
}

} // verus!
