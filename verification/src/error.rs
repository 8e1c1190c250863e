//! Error taxonomy: every error carries its cause, its layer of origin and
//! the continuation decision for the daemon.

use vstd::prelude::*;
use vstd::string::StringExecFns;

verus! {

/// Layer of origin of an error, for forensic traceability.
#[derive(Debug, Clone, Copy, PartialEq, Eq, Structural)]
pub enum ErrorLayer {
    Hardware,
    Protocol,
    Logic,
    Init,
}

/// Severity of an error: the daemon's continuation decision.
#[derive(Debug, Clone, Copy, PartialEq, Eq, Structural, PartialOrd, Ord)]
pub enum ErrorSeverity {
    Recoverable,
    ModuleFatal,
    DaemonFatal,
}

/// Cause of an error.
#[derive(Debug, Clone, Copy, PartialEq, Eq, Structural)]
pub enum ErrorKind {
    // Layer 0: hardware / operating system
    KqueueInit,
    KqueueEvent,
    CustodyWriteFailed,
    ProcUnavailable,
    // Layer 1: protocol / parsing
    Dnp3CrcInvalid,
    Dnp3UnknownFunction,
    EntropyInsufficient,
    ChecksumInvalid,
    PayloadOverflow,
    // Layer 2: internal logic
    RingBufferFull,
    CustodyHashMismatch,
    SequenceJump,
    CustodyNoGenesis,
    // Layer 3: initialisation
    PledgeViolation,
    UnveilViolation,
    ConfigMissing,
    CliInvalid,
}

impl ErrorLayer {
    /// The numeric code of the layer.
    pub open spec fn spec_code(self) -> u8 {
        match self {
            ErrorLayer::Hardware => 0,
            ErrorLayer::Protocol => 1,
            ErrorLayer::Logic => 2,
            ErrorLayer::Init => 3,
        }
    }

    /// The numeric code of the layer.
    pub fn code(&self) -> (c: u8)
        ensures
            c == self.spec_code(),
    {
        match self {
            ErrorLayer::Hardware => 0,
            ErrorLayer::Protocol => 1,
            ErrorLayer::Logic => 2,
            ErrorLayer::Init => 3,
        }
    }

    /// The name of the layer.
    pub open spec fn spec_name(self) -> Seq<char> {
        match self {
            ErrorLayer::Hardware => "Hardware"@,
            ErrorLayer::Protocol => "Protocol"@,
            ErrorLayer::Logic => "Logic"@,
            ErrorLayer::Init => "Init"@,
        }
    }

    /// The name of the layer.
    pub fn name(&self) -> (s: &'static str)
        ensures
            s@ == self.spec_name(),
    {
        match self {
            ErrorLayer::Hardware => "Hardware",
            ErrorLayer::Protocol => "Protocol",
            ErrorLayer::Logic => "Logic",
            ErrorLayer::Init => "Init",
        }
    }
}

impl ErrorSeverity {
    /// The numeric code of the severity.
    pub open spec fn spec_code(self) -> u8 {
        match self {
            ErrorSeverity::Recoverable => 0,
            ErrorSeverity::ModuleFatal => 1,
            ErrorSeverity::DaemonFatal => 2,
        }
    }

    /// The numeric code of the severity.
    pub fn code(&self) -> (c: u8)
        ensures
            c == self.spec_code(),
    {
        match self {
            ErrorSeverity::Recoverable => 0,
            ErrorSeverity::ModuleFatal => 1,
            ErrorSeverity::DaemonFatal => 2,
        }
    }

    /// The name of the severity.
    pub open spec fn spec_name(self) -> Seq<char> {
        match self {
            ErrorSeverity::Recoverable => "Recoverable"@,
            ErrorSeverity::ModuleFatal => "ModuleFatal"@,
            ErrorSeverity::DaemonFatal => "DaemonFatal"@,
        }
    }

    /// The name of the severity.
    pub fn name(&self) -> (s: &'static str)
        ensures
            s@ == self.spec_name(),
    {
        match self {
            ErrorSeverity::Recoverable => "Recoverable",
            ErrorSeverity::ModuleFatal => "ModuleFatal",
            ErrorSeverity::DaemonFatal => "DaemonFatal",
        }
    }
}

impl ErrorKind {
    /// The numeric code of the error kind.
    pub open spec fn spec_code(self) -> u8 {
        match self {
            ErrorKind::KqueueInit => 0,
            ErrorKind::KqueueEvent => 1,
            ErrorKind::CustodyWriteFailed => 2,
            ErrorKind::ProcUnavailable => 3,
            ErrorKind::Dnp3CrcInvalid => 10,
            ErrorKind::Dnp3UnknownFunction => 11,
            ErrorKind::EntropyInsufficient => 12,
            ErrorKind::ChecksumInvalid => 13,
            ErrorKind::PayloadOverflow => 14,
            ErrorKind::RingBufferFull => 20,
            ErrorKind::CustodyHashMismatch => 21,
            ErrorKind::SequenceJump => 22,
            ErrorKind::CustodyNoGenesis => 23,
            ErrorKind::PledgeViolation => 30,
            ErrorKind::UnveilViolation => 31,
            ErrorKind::ConfigMissing => 32,
            ErrorKind::CliInvalid => 33,
        }
    }

    /// The numeric code of the error kind.
    pub fn code(&self) -> (c: u8)
        ensures
            c == self.spec_code(),
    {
        match self {
            ErrorKind::KqueueInit => 0,
            ErrorKind::KqueueEvent => 1,
            ErrorKind::CustodyWriteFailed => 2,
            ErrorKind::ProcUnavailable => 3,
            ErrorKind::Dnp3CrcInvalid => 10,
            ErrorKind::Dnp3UnknownFunction => 11,
            ErrorKind::EntropyInsufficient => 12,
            ErrorKind::ChecksumInvalid => 13,
            ErrorKind::PayloadOverflow => 14,
            ErrorKind::RingBufferFull => 20,
            ErrorKind::CustodyHashMismatch => 21,
            ErrorKind::SequenceJump => 22,
            ErrorKind::CustodyNoGenesis => 23,
            ErrorKind::PledgeViolation => 30,
            ErrorKind::UnveilViolation => 31,
            ErrorKind::ConfigMissing => 32,
            ErrorKind::CliInvalid => 33,
        }
    }

    /// The name of the error kind.
    pub open spec fn spec_name(self) -> Seq<char> {
        match self {
            ErrorKind::KqueueInit => "KqueueInit"@,
            ErrorKind::KqueueEvent => "KqueueEvent"@,
            ErrorKind::CustodyWriteFailed => "CustodyWriteFailed"@,
            ErrorKind::ProcUnavailable => "ProcUnavailable"@,
            ErrorKind::Dnp3CrcInvalid => "Dnp3CrcInvalid"@,
            ErrorKind::Dnp3UnknownFunction => "Dnp3UnknownFunction"@,
            ErrorKind::EntropyInsufficient => "EntropyInsufficient"@,
            ErrorKind::ChecksumInvalid => "ChecksumInvalid"@,
            ErrorKind::PayloadOverflow => "PayloadOverflow"@,
            ErrorKind::RingBufferFull => "RingBufferFull"@,
            ErrorKind::CustodyHashMismatch => "CustodyHashMismatch"@,
            ErrorKind::SequenceJump => "SequenceJump"@,
            ErrorKind::CustodyNoGenesis => "CustodyNoGenesis"@,
            ErrorKind::PledgeViolation => "PledgeViolation"@,
            ErrorKind::UnveilViolation => "UnveilViolation"@,
            ErrorKind::ConfigMissing => "ConfigMissing"@,
            ErrorKind::CliInvalid => "CliInvalid"@,
        }
    }

    /// The name of the error kind.
    pub fn name(&self) -> (s: &'static str)
        ensures
            s@ == self.spec_name(),
    {
        match self {
            ErrorKind::KqueueInit => "KqueueInit",
            ErrorKind::KqueueEvent => "KqueueEvent",
            ErrorKind::CustodyWriteFailed => "CustodyWriteFailed",
            ErrorKind::ProcUnavailable => "ProcUnavailable",
            ErrorKind::Dnp3CrcInvalid => "Dnp3CrcInvalid",
            ErrorKind::Dnp3UnknownFunction => "Dnp3UnknownFunction",
            ErrorKind::EntropyInsufficient => "EntropyInsufficient",
            ErrorKind::ChecksumInvalid => "ChecksumInvalid",
            ErrorKind::PayloadOverflow => "PayloadOverflow",
            ErrorKind::RingBufferFull => "RingBufferFull",
            ErrorKind::CustodyHashMismatch => "CustodyHashMismatch",
            ErrorKind::SequenceJump => "SequenceJump",
            ErrorKind::CustodyNoGenesis => "CustodyNoGenesis",
            ErrorKind::PledgeViolation => "PledgeViolation",
            ErrorKind::UnveilViolation => "UnveilViolation",
            ErrorKind::ConfigMissing => "ConfigMissing",
            ErrorKind::CliInvalid => "CliInvalid",
        }
    }
}

/// An error with forensic context; no heap, no strings.
#[derive(Debug, Clone, Copy, PartialEq, Eq, Structural)]
pub struct VtrError {
    pub kind: ErrorKind,
    pub layer: ErrorLayer,
    pub severity: ErrorSeverity,
    pub os_code: i32,
}

/// The decimal digit `d`, for `d < 10`.
pub open spec fn digit_char(d: nat) -> char {
    if d == 0 {
        '0'
    } else if d == 1 {
        '1'
    } else if d == 2 {
        '2'
    } else if d == 3 {
        '3'
    } else if d == 4 {
        '4'
    } else if d == 5 {
        '5'
    } else if d == 6 {
        '6'
    } else if d == 7 {
        '7'
    } else if d == 8 {
        '8'
    } else {
        '9'
    }
}

/// The decimal numeral of `n`, without leading zeros.
pub open spec fn decimal(n: nat) -> Seq<char>
    decreases n,
{
    if n < 10 {
        seq![digit_char(n)]
    } else {
        decimal(n / 10) + seq![digit_char(n % 10)]
    }
}

/// The decimal numeral of `x`, with a leading minus sign when negative.
pub open spec fn signed_decimal(x: int) -> Seq<char> {
    if x < 0 {
        seq!['-'] + decimal((-x) as nat)
    } else {
        decimal(x as nat)
    }
}

/// The number a string of decimal digits denotes.
pub open spec fn numeral_value(s: Seq<char>) -> int
    decreases s.len(),
{
    if s.len() == 0 {
        0
    } else {
        numeral_value(s.drop_last()) * 10 + (s.last() as int - '0' as int)
    }
}

/// Law: `decimal(n)` is a numeral for `n`: it is made of the digits `0`..`9`,
/// it denotes `n`, and it has no leading zero.
pub proof fn lemma_decimal_denotes(n: nat)
    ensures
        numeral_value(decimal(n)) == n,
        decimal(n).len() > 0,
        forall|i: int| 0 <= i < decimal(n).len() ==> '0' <= #[trigger] decimal(n)[i] <= '9',
        n >= 10 ==> decimal(n)[0] != '0',
    decreases n,
{
    let d = digit_char(n % 10);
    assert(d as int - '0' as int == n % 10);
    if n >= 10 {
        lemma_decimal_denotes(n / 10);
        let p = decimal(n / 10);
        assert((p + seq![d]).drop_last() =~= p);
        assert(forall|i: int| 0 <= i < p.len() ==> (p + seq![d])[i] == p[i]);
        assert((p + seq![d]).last() == d);
        assert(numeral_value(p + seq![d]) == numeral_value(p) * 10 + (d as int - '0' as int));
        assert(decimal(n) == p + seq![d]);
    } else {
        assert(decimal(n) == seq![d]);
        let e = seq![d];
        assert(numeral_value(e) == numeral_value(e.drop_last()) * 10 + (e.last() as int - '0' as int));
        assert(e.drop_last() =~= Seq::<char>::empty());
    }
}

fn digit_str(d: u32) -> (s: &'static str)
    requires
        d < 10,
    ensures
        s@ == seq![digit_char(d as nat)],
{
    match d {
        0 => {
            proof {
                reveal_strlit("0");
            }
            "0"
        },
        1 => {
            proof {
                reveal_strlit("1");
            }
            "1"
        },
        2 => {
            proof {
                reveal_strlit("2");
            }
            "2"
        },
        3 => {
            proof {
                reveal_strlit("3");
            }
            "3"
        },
        4 => {
            proof {
                reveal_strlit("4");
            }
            "4"
        },
        5 => {
            proof {
                reveal_strlit("5");
            }
            "5"
        },
        6 => {
            proof {
                reveal_strlit("6");
            }
            "6"
        },
        7 => {
            proof {
                reveal_strlit("7");
            }
            "7"
        },
        8 => {
            proof {
                reveal_strlit("8");
            }
            "8"
        },
        _ => {
            proof {
                reveal_strlit("9");
            }
            "9"
        },
    }
}

fn append_decimal(s: &mut String, n: u32)
    ensures
        final(s)@ == old(s)@ + decimal(n as nat),
    decreases n,
{
    if n >= 10 {
        append_decimal(s, n / 10);
    }
    s.append(digit_str(n % 10));
    proof {
        if n < 10 {
            assert(n % 10 == n);
        }
    }
}

/// Law: the numeric codes of the error kinds. The tens digit is the layer
/// the kind belongs to: 0 hardware, 1 protocol, 2 logic, 3 initialisation.
pub proof fn lemma_error_kind_codes()
    ensures
        ErrorKind::KqueueInit.spec_code() == 0,
        ErrorKind::KqueueEvent.spec_code() == 1,
        ErrorKind::CustodyWriteFailed.spec_code() == 2,
        ErrorKind::ProcUnavailable.spec_code() == 3,
        ErrorKind::Dnp3CrcInvalid.spec_code() == 10,
        ErrorKind::Dnp3UnknownFunction.spec_code() == 11,
        ErrorKind::EntropyInsufficient.spec_code() == 12,
        ErrorKind::ChecksumInvalid.spec_code() == 13,
        ErrorKind::PayloadOverflow.spec_code() == 14,
        ErrorKind::RingBufferFull.spec_code() == 20,
        ErrorKind::CustodyHashMismatch.spec_code() == 21,
        ErrorKind::SequenceJump.spec_code() == 22,
        ErrorKind::CustodyNoGenesis.spec_code() == 23,
        ErrorKind::PledgeViolation.spec_code() == 30,
        ErrorKind::UnveilViolation.spec_code() == 31,
        ErrorKind::ConfigMissing.spec_code() == 32,
        ErrorKind::CliInvalid.spec_code() == 33,
        ErrorLayer::Hardware.spec_code() == 0,
        ErrorLayer::Protocol.spec_code() == 1,
        ErrorLayer::Logic.spec_code() == 2,
        ErrorLayer::Init.spec_code() == 3,
        ErrorSeverity::Recoverable.spec_code() == 0,
        ErrorSeverity::ModuleFatal.spec_code() == 1,
        ErrorSeverity::DaemonFatal.spec_code() == 2,
{
}

/// The error kinds that are themselves evidence of tampering.
pub open spec fn is_forensic_kind(kind: ErrorKind) -> bool {
    ||| kind == ErrorKind::SequenceJump
    ||| kind == ErrorKind::CustodyHashMismatch
    ||| kind == ErrorKind::ChecksumInvalid
    ||| kind == ErrorKind::PledgeViolation
}

impl VtrError {
    /// The one-line rendering of the error.
    pub open spec fn spec_display(self) -> Seq<char> {
        "VTR-ERR layer="@ + self.layer.spec_name() + " kind="@ + self.kind.spec_name()
            + " severity="@ + self.severity.spec_name() + " os="@ + signed_decimal(
            self.os_code as int,
        )
    }

    /// Renders the error as `VTR-ERR layer=.. kind=.. severity=.. os=..`.
    pub fn to_display_string(&self) -> (s: String)
        ensures
            s@ == self.spec_display(),
    {
        let mut s = String::new();
        s.append("VTR-ERR layer=");
        s.append(self.layer.name());
        s.append(" kind=");
        s.append(self.kind.name());
        s.append(" severity=");
        s.append(self.severity.name());
        s.append(" os=");
        let magnitude: u32 = if self.os_code < 0 {
            s.append("-");
            proof {
                reveal_strlit("-");
            }
            (-(self.os_code as i64)) as u32
        } else {
            self.os_code as u32
        };
        append_decimal(&mut s, magnitude);
        s
    }

    pub fn new(kind: ErrorKind, layer: ErrorLayer, severity: ErrorSeverity, os_code: i32) -> (e: Self)
        ensures
            e == (VtrError { kind, layer, severity, os_code }),
    {
        VtrError { kind, layer, severity, os_code }
    }

    pub fn is_recoverable(&self) -> (b: bool)
        ensures
            b == (self.severity == ErrorSeverity::Recoverable),
    {
        matches!(self.severity, ErrorSeverity::Recoverable)
    }

    pub fn is_forensic_evidence(&self) -> (b: bool)
        ensures
            b == is_forensic_kind(self.kind),
    {
        match self.kind {
            ErrorKind::SequenceJump
            | ErrorKind::CustodyHashMismatch
            | ErrorKind::ChecksumInvalid
            | ErrorKind::PledgeViolation => true,
            _ => false,
        }
    }

    pub fn kqueue_init(os_code: i32) -> (e: Self)
        ensures
            e == (VtrError {
                kind: ErrorKind::KqueueInit,
                layer: ErrorLayer::Hardware,
                severity: ErrorSeverity::DaemonFatal,
                os_code,
            }),
    {
        Self::new(ErrorKind::KqueueInit, ErrorLayer::Hardware, ErrorSeverity::DaemonFatal, os_code)
    }

    pub fn dnp3_crc(os_code: i32) -> (e: Self)
        ensures
            e == (VtrError {
                kind: ErrorKind::Dnp3CrcInvalid,
                layer: ErrorLayer::Protocol,
                severity: ErrorSeverity::Recoverable,
                os_code,
            }),
    {
        Self::new(ErrorKind::Dnp3CrcInvalid, ErrorLayer::Protocol, ErrorSeverity::Recoverable, os_code)
    }

    pub fn custody_mismatch() -> (e: Self)
        ensures
            e == (VtrError {
                kind: ErrorKind::CustodyHashMismatch,
                layer: ErrorLayer::Logic,
                severity: ErrorSeverity::DaemonFatal,
                os_code: 0,
            }),
    {
        Self::new(ErrorKind::CustodyHashMismatch, ErrorLayer::Logic, ErrorSeverity::DaemonFatal, 0)
    }

    pub fn sequence_jump() -> (e: Self)
        ensures
            e == (VtrError {
                kind: ErrorKind::SequenceJump,
                layer: ErrorLayer::Logic,
                severity: ErrorSeverity::ModuleFatal,
                os_code: 0,
            }),
    {
        Self::new(ErrorKind::SequenceJump, ErrorLayer::Logic, ErrorSeverity::ModuleFatal, 0)
    }

    pub fn ring_full() -> (e: Self)
        ensures
            e == (VtrError {
                kind: ErrorKind::RingBufferFull,
                layer: ErrorLayer::Logic,
                severity: ErrorSeverity::Recoverable,
                os_code: 0,
            }),
    {
        Self::new(ErrorKind::RingBufferFull, ErrorLayer::Logic, ErrorSeverity::Recoverable, 0)
    }

    pub fn entropy_insufficient() -> (e: Self)
        ensures
            e == (VtrError {
                kind: ErrorKind::EntropyInsufficient,
                layer: ErrorLayer::Protocol,
                severity: ErrorSeverity::Recoverable,
                os_code: 0,
            }),
    {
        Self::new(ErrorKind::EntropyInsufficient, ErrorLayer::Protocol, ErrorSeverity::Recoverable, 0)
    }

    pub fn pledge_violation(os_code: i32) -> (e: Self)
        ensures
            e == (VtrError {
                kind: ErrorKind::PledgeViolation,
                layer: ErrorLayer::Init,
                severity: ErrorSeverity::DaemonFatal,
                os_code,
            }),
    {
        Self::new(ErrorKind::PledgeViolation, ErrorLayer::Init, ErrorSeverity::DaemonFatal, os_code)
    }
}

} // verus!
