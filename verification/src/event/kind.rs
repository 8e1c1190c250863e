//! Exhaustive taxonomy of observed events. Each kind travels on the wire
//! as one byte whose high nibble names its family.

use vstd::prelude::*;

verus! {

/// The family of an event kind.
#[derive(Debug, Clone, Copy, PartialEq, Eq, Structural)]
pub enum EventFamily {
    Memory,
    Contract,
    State,
    DoS,
    Provenance,
    Network,
    System,
}

/// How sure the sentinel is of an observation.
#[derive(Debug, Clone, Copy, PartialEq, Eq, Structural, PartialOrd, Ord)]
pub enum EventSeverity {
    Observed,
    Probable,
    Confirmed,
}

/// Who can exploit a finding.
#[derive(Debug, Clone, Copy, PartialEq, Eq, Structural)]
pub enum Exploitability {
    DirectUserspace,
    LatentApi,
    PrivilegedOnly,
    Undetermined,
}

/// Every kind of event the sentinel records. There is no catch-all.
#[derive(Debug, Clone, Copy, PartialEq, Eq, Structural)]
pub enum EventKind {
    // Memory (0x00-0x0F)
    AllocWithoutRelease,
    IoctlRollbackMissing,
    BoundaryViolation,
    RefcountLeak,
    UseAfterError,
    StackLayoutViolation,
    // Contract (0x10-0x1F)
    ImplicitContractBreach,
    UntrustedInputPropagated,
    ExportSymbolImplicit,
    UndocumentedDelegation,
    StatefulApiImplicit,
    // State (0x20-0x2F)
    StateContamination,
    SingletonReuse,
    MutableLimitExposed,
    InvalidStateTransition,
    StateRaceCondition,
    GlobalStateResidual,
    // DoS (0x30-0x3F)
    AlgorithmicDoS,
    UnboundedLoop,
    UnboundedRecursion,
    EventRateAnomaly,
    MemoryGrowthAnomaly,
    // Provenance (0x40-0x4F)
    ProvenanceBroken,
    UnsealedDependency,
    HashMismatch,
    NonReproducibleBuild,
    TrojanSourceCandidate,
    UnsignedExecution,
    PostSealModification,
    // Network (0x50-0x5F)
    HighEntropyPayload,
    Dnp3CrcInvalid,
    Dnp3UnknownFunction,
    Dnp3UnauthorizedMaster,
    TlsObsoleteVersion,
    TlsWeakCipher,
    TlsMissingSni,
    DnsRateAnomaly,
    DnsLabelAnomaly,
    HttpAnomalousRequest,
    // System (0x60-0x6F)
    SentinelStarted,
    SentinelStopped,
    ProbeRestarted,
    RingBufferOverflow,
    CustodySequenceJump,
    PledgeViolation,
    ConfigReloaded,
}

impl EventFamily {
    /// The numeric code of the family.
    pub open spec fn spec_code(self) -> u8 {
        match self {
            EventFamily::Memory => 0,
            EventFamily::Contract => 1,
            EventFamily::State => 2,
            EventFamily::DoS => 3,
            EventFamily::Provenance => 4,
            EventFamily::Network => 5,
            EventFamily::System => 6,
        }
    }

    /// The numeric code of the family.
    pub fn code(&self) -> (c: u8)
        ensures
            c == self.spec_code(),
    {
        match self {
            EventFamily::Memory => 0,
            EventFamily::Contract => 1,
            EventFamily::State => 2,
            EventFamily::DoS => 3,
            EventFamily::Provenance => 4,
            EventFamily::Network => 5,
            EventFamily::System => 6,
        }
    }
}

impl Exploitability {
    /// The numeric code of the exploitability.
    pub open spec fn spec_code(self) -> u8 {
        match self {
            Exploitability::DirectUserspace => 0,
            Exploitability::LatentApi => 1,
            Exploitability::PrivilegedOnly => 2,
            Exploitability::Undetermined => 3,
        }
    }

    /// The numeric code of the exploitability.
    pub fn code(&self) -> (c: u8)
        ensures
            c == self.spec_code(),
    {
        match self {
            Exploitability::DirectUserspace => 0,
            Exploitability::LatentApi => 1,
            Exploitability::PrivilegedOnly => 2,
            Exploitability::Undetermined => 3,
        }
    }
}

/// The family named by the high nibble of a wire code.
pub open spec fn family_of_code(code: u8) -> EventFamily {
    if code < 0x10 {
        EventFamily::Memory
    } else if code < 0x20 {
        EventFamily::Contract
    } else if code < 0x30 {
        EventFamily::State
    } else if code < 0x40 {
        EventFamily::DoS
    } else if code < 0x50 {
        EventFamily::Provenance
    } else if code < 0x60 {
        EventFamily::Network
    } else {
        EventFamily::System
    }
}

impl EventKind {
    /// The one-byte wire code of the kind.
    pub open spec fn spec_code(self) -> u8 {
        match self {
            EventKind::AllocWithoutRelease => 0x00,
            EventKind::IoctlRollbackMissing => 0x01,
            EventKind::BoundaryViolation => 0x02,
            EventKind::RefcountLeak => 0x03,
            EventKind::UseAfterError => 0x04,
            EventKind::StackLayoutViolation => 0x05,
            EventKind::ImplicitContractBreach => 0x10,
            EventKind::UntrustedInputPropagated => 0x11,
            EventKind::ExportSymbolImplicit => 0x12,
            EventKind::UndocumentedDelegation => 0x13,
            EventKind::StatefulApiImplicit => 0x14,
            EventKind::StateContamination => 0x20,
            EventKind::SingletonReuse => 0x21,
            EventKind::MutableLimitExposed => 0x22,
            EventKind::InvalidStateTransition => 0x23,
            EventKind::StateRaceCondition => 0x24,
            EventKind::GlobalStateResidual => 0x25,
            EventKind::AlgorithmicDoS => 0x30,
            EventKind::UnboundedLoop => 0x31,
            EventKind::UnboundedRecursion => 0x32,
            EventKind::EventRateAnomaly => 0x33,
            EventKind::MemoryGrowthAnomaly => 0x34,
            EventKind::ProvenanceBroken => 0x40,
            EventKind::UnsealedDependency => 0x41,
            EventKind::HashMismatch => 0x42,
            EventKind::NonReproducibleBuild => 0x43,
            EventKind::TrojanSourceCandidate => 0x44,
            EventKind::UnsignedExecution => 0x45,
            EventKind::PostSealModification => 0x46,
            EventKind::HighEntropyPayload => 0x50,
            EventKind::Dnp3CrcInvalid => 0x51,
            EventKind::Dnp3UnknownFunction => 0x52,
            EventKind::Dnp3UnauthorizedMaster => 0x53,
            EventKind::TlsObsoleteVersion => 0x54,
            EventKind::TlsWeakCipher => 0x55,
            EventKind::TlsMissingSni => 0x56,
            EventKind::DnsRateAnomaly => 0x57,
            EventKind::DnsLabelAnomaly => 0x58,
            EventKind::HttpAnomalousRequest => 0x59,
            EventKind::SentinelStarted => 0x60,
            EventKind::SentinelStopped => 0x61,
            EventKind::ProbeRestarted => 0x62,
            EventKind::RingBufferOverflow => 0x63,
            EventKind::CustodySequenceJump => 0x64,
            EventKind::PledgeViolation => 0x65,
            EventKind::ConfigReloaded => 0x66,
        }
    }

    /// The severity a kind is reported with unless a probe says otherwise.
    pub open spec fn spec_default_severity(self) -> EventSeverity {
        match self {
            EventKind::AllocWithoutRelease => EventSeverity::Confirmed,
            EventKind::IoctlRollbackMissing => EventSeverity::Probable,
            EventKind::BoundaryViolation => EventSeverity::Confirmed,
            EventKind::RefcountLeak => EventSeverity::Confirmed,
            EventKind::UseAfterError => EventSeverity::Probable,
            EventKind::StackLayoutViolation => EventSeverity::Confirmed,
            EventKind::ImplicitContractBreach => EventSeverity::Probable,
            EventKind::UntrustedInputPropagated => EventSeverity::Probable,
            EventKind::ExportSymbolImplicit => EventSeverity::Observed,
            EventKind::UndocumentedDelegation => EventSeverity::Observed,
            EventKind::StatefulApiImplicit => EventSeverity::Observed,
            EventKind::StateContamination => EventSeverity::Confirmed,
            EventKind::SingletonReuse => EventSeverity::Probable,
            EventKind::MutableLimitExposed => EventSeverity::Probable,
            EventKind::InvalidStateTransition => EventSeverity::Confirmed,
            EventKind::StateRaceCondition => EventSeverity::Probable,
            EventKind::GlobalStateResidual => EventSeverity::Observed,
            EventKind::AlgorithmicDoS => EventSeverity::Probable,
            EventKind::UnboundedLoop => EventSeverity::Probable,
            EventKind::UnboundedRecursion => EventSeverity::Probable,
            EventKind::EventRateAnomaly => EventSeverity::Observed,
            EventKind::MemoryGrowthAnomaly => EventSeverity::Observed,
            EventKind::ProvenanceBroken => EventSeverity::Confirmed,
            EventKind::UnsealedDependency => EventSeverity::Confirmed,
            EventKind::HashMismatch => EventSeverity::Confirmed,
            EventKind::NonReproducibleBuild => EventSeverity::Confirmed,
            EventKind::TrojanSourceCandidate => EventSeverity::Confirmed,
            EventKind::UnsignedExecution => EventSeverity::Probable,
            EventKind::PostSealModification => EventSeverity::Confirmed,
            EventKind::HighEntropyPayload => EventSeverity::Observed,
            EventKind::Dnp3CrcInvalid => EventSeverity::Confirmed,
            EventKind::Dnp3UnknownFunction => EventSeverity::Probable,
            EventKind::Dnp3UnauthorizedMaster => EventSeverity::Confirmed,
            EventKind::TlsObsoleteVersion => EventSeverity::Confirmed,
            EventKind::TlsWeakCipher => EventSeverity::Confirmed,
            EventKind::TlsMissingSni => EventSeverity::Observed,
            EventKind::DnsRateAnomaly => EventSeverity::Observed,
            EventKind::DnsLabelAnomaly => EventSeverity::Observed,
            EventKind::HttpAnomalousRequest => EventSeverity::Observed,
            EventKind::SentinelStarted => EventSeverity::Observed,
            EventKind::SentinelStopped => EventSeverity::Observed,
            EventKind::ProbeRestarted => EventSeverity::Observed,
            EventKind::RingBufferOverflow => EventSeverity::Observed,
            EventKind::CustodySequenceJump => EventSeverity::Confirmed,
            EventKind::PledgeViolation => EventSeverity::Confirmed,
            EventKind::ConfigReloaded => EventSeverity::Observed,
        }
    }

    /// The kinds whose records must be sealed into the custody chain at once.
    pub open spec fn spec_requires_immediate_custody(self) -> bool {
        ||| self == EventKind::HashMismatch
        ||| self == EventKind::PostSealModification
        ||| self == EventKind::CustodySequenceJump
        ||| self == EventKind::TrojanSourceCandidate
        ||| self == EventKind::PledgeViolation
        ||| self == EventKind::Dnp3UnauthorizedMaster
        ||| self == EventKind::BoundaryViolation
    }

    /// The wire code of the kind.
    pub fn code(&self) -> (c: u8)
        ensures
            c == self.spec_code(),
    {
        match self {
            EventKind::AllocWithoutRelease => 0x00,
            EventKind::IoctlRollbackMissing => 0x01,
            EventKind::BoundaryViolation => 0x02,
            EventKind::RefcountLeak => 0x03,
            EventKind::UseAfterError => 0x04,
            EventKind::StackLayoutViolation => 0x05,
            EventKind::ImplicitContractBreach => 0x10,
            EventKind::UntrustedInputPropagated => 0x11,
            EventKind::ExportSymbolImplicit => 0x12,
            EventKind::UndocumentedDelegation => 0x13,
            EventKind::StatefulApiImplicit => 0x14,
            EventKind::StateContamination => 0x20,
            EventKind::SingletonReuse => 0x21,
            EventKind::MutableLimitExposed => 0x22,
            EventKind::InvalidStateTransition => 0x23,
            EventKind::StateRaceCondition => 0x24,
            EventKind::GlobalStateResidual => 0x25,
            EventKind::AlgorithmicDoS => 0x30,
            EventKind::UnboundedLoop => 0x31,
            EventKind::UnboundedRecursion => 0x32,
            EventKind::EventRateAnomaly => 0x33,
            EventKind::MemoryGrowthAnomaly => 0x34,
            EventKind::ProvenanceBroken => 0x40,
            EventKind::UnsealedDependency => 0x41,
            EventKind::HashMismatch => 0x42,
            EventKind::NonReproducibleBuild => 0x43,
            EventKind::TrojanSourceCandidate => 0x44,
            EventKind::UnsignedExecution => 0x45,
            EventKind::PostSealModification => 0x46,
            EventKind::HighEntropyPayload => 0x50,
            EventKind::Dnp3CrcInvalid => 0x51,
            EventKind::Dnp3UnknownFunction => 0x52,
            EventKind::Dnp3UnauthorizedMaster => 0x53,
            EventKind::TlsObsoleteVersion => 0x54,
            EventKind::TlsWeakCipher => 0x55,
            EventKind::TlsMissingSni => 0x56,
            EventKind::DnsRateAnomaly => 0x57,
            EventKind::DnsLabelAnomaly => 0x58,
            EventKind::HttpAnomalousRequest => 0x59,
            EventKind::SentinelStarted => 0x60,
            EventKind::SentinelStopped => 0x61,
            EventKind::ProbeRestarted => 0x62,
            EventKind::RingBufferOverflow => 0x63,
            EventKind::CustodySequenceJump => 0x64,
            EventKind::PledgeViolation => 0x65,
            EventKind::ConfigReloaded => 0x66,
        }
    }

    /// The family of the kind: the one that the high nibble of its code names.
    pub fn family(&self) -> (f: EventFamily)
        ensures
            f == family_of_code(self.spec_code()),
    {
        match self {
            EventKind::AllocWithoutRelease
            | EventKind::IoctlRollbackMissing
            | EventKind::BoundaryViolation
            | EventKind::RefcountLeak
            | EventKind::UseAfterError
            | EventKind::StackLayoutViolation => EventFamily::Memory,
            EventKind::ImplicitContractBreach
            | EventKind::UntrustedInputPropagated
            | EventKind::ExportSymbolImplicit
            | EventKind::UndocumentedDelegation
            | EventKind::StatefulApiImplicit => EventFamily::Contract,
            EventKind::StateContamination
            | EventKind::SingletonReuse
            | EventKind::MutableLimitExposed
            | EventKind::InvalidStateTransition
            | EventKind::StateRaceCondition
            | EventKind::GlobalStateResidual => EventFamily::State,
            EventKind::AlgorithmicDoS
            | EventKind::UnboundedLoop
            | EventKind::UnboundedRecursion
            | EventKind::EventRateAnomaly
            | EventKind::MemoryGrowthAnomaly => EventFamily::DoS,
            EventKind::ProvenanceBroken
            | EventKind::UnsealedDependency
            | EventKind::HashMismatch
            | EventKind::NonReproducibleBuild
            | EventKind::TrojanSourceCandidate
            | EventKind::UnsignedExecution
            | EventKind::PostSealModification => EventFamily::Provenance,
            EventKind::HighEntropyPayload
            | EventKind::Dnp3CrcInvalid
            | EventKind::Dnp3UnknownFunction
            | EventKind::Dnp3UnauthorizedMaster
            | EventKind::TlsObsoleteVersion
            | EventKind::TlsWeakCipher
            | EventKind::TlsMissingSni
            | EventKind::DnsRateAnomaly
            | EventKind::DnsLabelAnomaly
            | EventKind::HttpAnomalousRequest => EventFamily::Network,
            EventKind::SentinelStarted
            | EventKind::SentinelStopped
            | EventKind::ProbeRestarted
            | EventKind::RingBufferOverflow
            | EventKind::CustodySequenceJump
            | EventKind::PledgeViolation
            | EventKind::ConfigReloaded => EventFamily::System,
        }
    }

    pub fn default_severity(&self) -> (s: EventSeverity)
        ensures
            s == self.spec_default_severity(),
    {
        match self {
            EventKind::AllocWithoutRelease => EventSeverity::Confirmed,
            EventKind::IoctlRollbackMissing => EventSeverity::Probable,
            EventKind::BoundaryViolation => EventSeverity::Confirmed,
            EventKind::RefcountLeak => EventSeverity::Confirmed,
            EventKind::UseAfterError => EventSeverity::Probable,
            EventKind::StackLayoutViolation => EventSeverity::Confirmed,
            EventKind::ImplicitContractBreach => EventSeverity::Probable,
            EventKind::UntrustedInputPropagated => EventSeverity::Probable,
            EventKind::ExportSymbolImplicit => EventSeverity::Observed,
            EventKind::UndocumentedDelegation => EventSeverity::Observed,
            EventKind::StatefulApiImplicit => EventSeverity::Observed,
            EventKind::StateContamination => EventSeverity::Confirmed,
            EventKind::SingletonReuse => EventSeverity::Probable,
            EventKind::MutableLimitExposed => EventSeverity::Probable,
            EventKind::InvalidStateTransition => EventSeverity::Confirmed,
            EventKind::StateRaceCondition => EventSeverity::Probable,
            EventKind::GlobalStateResidual => EventSeverity::Observed,
            EventKind::AlgorithmicDoS => EventSeverity::Probable,
            EventKind::UnboundedLoop => EventSeverity::Probable,
            EventKind::UnboundedRecursion => EventSeverity::Probable,
            EventKind::EventRateAnomaly => EventSeverity::Observed,
            EventKind::MemoryGrowthAnomaly => EventSeverity::Observed,
            EventKind::ProvenanceBroken => EventSeverity::Confirmed,
            EventKind::UnsealedDependency => EventSeverity::Confirmed,
            EventKind::HashMismatch => EventSeverity::Confirmed,
            EventKind::NonReproducibleBuild => EventSeverity::Confirmed,
            EventKind::TrojanSourceCandidate => EventSeverity::Confirmed,
            EventKind::UnsignedExecution => EventSeverity::Probable,
            EventKind::PostSealModification => EventSeverity::Confirmed,
            EventKind::HighEntropyPayload => EventSeverity::Observed,
            EventKind::Dnp3CrcInvalid => EventSeverity::Confirmed,
            EventKind::Dnp3UnknownFunction => EventSeverity::Probable,
            EventKind::Dnp3UnauthorizedMaster => EventSeverity::Confirmed,
            EventKind::TlsObsoleteVersion => EventSeverity::Confirmed,
            EventKind::TlsWeakCipher => EventSeverity::Confirmed,
            EventKind::TlsMissingSni => EventSeverity::Observed,
            EventKind::DnsRateAnomaly => EventSeverity::Observed,
            EventKind::DnsLabelAnomaly => EventSeverity::Observed,
            EventKind::HttpAnomalousRequest => EventSeverity::Observed,
            EventKind::SentinelStarted => EventSeverity::Observed,
            EventKind::SentinelStopped => EventSeverity::Observed,
            EventKind::ProbeRestarted => EventSeverity::Observed,
            EventKind::RingBufferOverflow => EventSeverity::Observed,
            EventKind::CustodySequenceJump => EventSeverity::Confirmed,
            EventKind::PledgeViolation => EventSeverity::Confirmed,
            EventKind::ConfigReloaded => EventSeverity::Observed,
        }
    }

    pub fn requires_immediate_custody(&self) -> (b: bool)
        ensures
            b == self.spec_requires_immediate_custody(),
    {
        match self {
            EventKind::HashMismatch
            | EventKind::PostSealModification
            | EventKind::CustodySequenceJump
            | EventKind::TrojanSourceCandidate
            | EventKind::PledgeViolation
            | EventKind::Dnp3UnauthorizedMaster
            | EventKind::BoundaryViolation => true,
            _ => false,
        }
    }

    /// The kind whose wire code is `v`, if any.
    pub open spec fn spec_from_u8(v: u8) -> Option<Self> {
        if v == 0x00 {
            Some(EventKind::AllocWithoutRelease)
        } else if v == 0x01 {
            Some(EventKind::IoctlRollbackMissing)
        } else if v == 0x02 {
            Some(EventKind::BoundaryViolation)
        } else if v == 0x03 {
            Some(EventKind::RefcountLeak)
        } else if v == 0x04 {
            Some(EventKind::UseAfterError)
        } else if v == 0x05 {
            Some(EventKind::StackLayoutViolation)
        } else if v == 0x10 {
            Some(EventKind::ImplicitContractBreach)
        } else if v == 0x11 {
            Some(EventKind::UntrustedInputPropagated)
        } else if v == 0x12 {
            Some(EventKind::ExportSymbolImplicit)
        } else if v == 0x13 {
            Some(EventKind::UndocumentedDelegation)
        } else if v == 0x14 {
            Some(EventKind::StatefulApiImplicit)
        } else if v == 0x20 {
            Some(EventKind::StateContamination)
        } else if v == 0x21 {
            Some(EventKind::SingletonReuse)
        } else if v == 0x22 {
            Some(EventKind::MutableLimitExposed)
        } else if v == 0x23 {
            Some(EventKind::InvalidStateTransition)
        } else if v == 0x24 {
            Some(EventKind::StateRaceCondition)
        } else if v == 0x25 {
            Some(EventKind::GlobalStateResidual)
        } else if v == 0x30 {
            Some(EventKind::AlgorithmicDoS)
        } else if v == 0x31 {
            Some(EventKind::UnboundedLoop)
        } else if v == 0x32 {
            Some(EventKind::UnboundedRecursion)
        } else if v == 0x33 {
            Some(EventKind::EventRateAnomaly)
        } else if v == 0x34 {
            Some(EventKind::MemoryGrowthAnomaly)
        } else if v == 0x40 {
            Some(EventKind::ProvenanceBroken)
        } else if v == 0x41 {
            Some(EventKind::UnsealedDependency)
        } else if v == 0x42 {
            Some(EventKind::HashMismatch)
        } else if v == 0x43 {
            Some(EventKind::NonReproducibleBuild)
        } else if v == 0x44 {
            Some(EventKind::TrojanSourceCandidate)
        } else if v == 0x45 {
            Some(EventKind::UnsignedExecution)
        } else if v == 0x46 {
            Some(EventKind::PostSealModification)
        } else if v == 0x50 {
            Some(EventKind::HighEntropyPayload)
        } else if v == 0x51 {
            Some(EventKind::Dnp3CrcInvalid)
        } else if v == 0x52 {
            Some(EventKind::Dnp3UnknownFunction)
        } else if v == 0x53 {
            Some(EventKind::Dnp3UnauthorizedMaster)
        } else if v == 0x54 {
            Some(EventKind::TlsObsoleteVersion)
        } else if v == 0x55 {
            Some(EventKind::TlsWeakCipher)
        } else if v == 0x56 {
            Some(EventKind::TlsMissingSni)
        } else if v == 0x57 {
            Some(EventKind::DnsRateAnomaly)
        } else if v == 0x58 {
            Some(EventKind::DnsLabelAnomaly)
        } else if v == 0x59 {
            Some(EventKind::HttpAnomalousRequest)
        } else if v == 0x60 {
            Some(EventKind::SentinelStarted)
        } else if v == 0x61 {
            Some(EventKind::SentinelStopped)
        } else if v == 0x62 {
            Some(EventKind::ProbeRestarted)
        } else if v == 0x63 {
            Some(EventKind::RingBufferOverflow)
        } else if v == 0x64 {
            Some(EventKind::CustodySequenceJump)
        } else if v == 0x65 {
            Some(EventKind::PledgeViolation)
        } else if v == 0x66 {
            Some(EventKind::ConfigReloaded)
        } else {
            None
        }
    }

    /// Decodes a wire code. `None` exactly for the bytes that no kind has as its code.
    pub fn from_u8(v: u8) -> (r: Option<Self>)
        ensures
            forall|k: EventKind| (r == Some(k)) <==> #[trigger] k.spec_code() == v,
            r == Self::spec_from_u8(v),
    {
        match v {
            0x00 => Some(EventKind::AllocWithoutRelease),
            0x01 => Some(EventKind::IoctlRollbackMissing),
            0x02 => Some(EventKind::BoundaryViolation),
            0x03 => Some(EventKind::RefcountLeak),
            0x04 => Some(EventKind::UseAfterError),
            0x05 => Some(EventKind::StackLayoutViolation),
            0x10 => Some(EventKind::ImplicitContractBreach),
            0x11 => Some(EventKind::UntrustedInputPropagated),
            0x12 => Some(EventKind::ExportSymbolImplicit),
            0x13 => Some(EventKind::UndocumentedDelegation),
            0x14 => Some(EventKind::StatefulApiImplicit),
            0x20 => Some(EventKind::StateContamination),
            0x21 => Some(EventKind::SingletonReuse),
            0x22 => Some(EventKind::MutableLimitExposed),
            0x23 => Some(EventKind::InvalidStateTransition),
            0x24 => Some(EventKind::StateRaceCondition),
            0x25 => Some(EventKind::GlobalStateResidual),
            0x30 => Some(EventKind::AlgorithmicDoS),
            0x31 => Some(EventKind::UnboundedLoop),
            0x32 => Some(EventKind::UnboundedRecursion),
            0x33 => Some(EventKind::EventRateAnomaly),
            0x34 => Some(EventKind::MemoryGrowthAnomaly),
            0x40 => Some(EventKind::ProvenanceBroken),
            0x41 => Some(EventKind::UnsealedDependency),
            0x42 => Some(EventKind::HashMismatch),
            0x43 => Some(EventKind::NonReproducibleBuild),
            0x44 => Some(EventKind::TrojanSourceCandidate),
            0x45 => Some(EventKind::UnsignedExecution),
            0x46 => Some(EventKind::PostSealModification),
            0x50 => Some(EventKind::HighEntropyPayload),
            0x51 => Some(EventKind::Dnp3CrcInvalid),
            0x52 => Some(EventKind::Dnp3UnknownFunction),
            0x53 => Some(EventKind::Dnp3UnauthorizedMaster),
            0x54 => Some(EventKind::TlsObsoleteVersion),
            0x55 => Some(EventKind::TlsWeakCipher),
            0x56 => Some(EventKind::TlsMissingSni),
            0x57 => Some(EventKind::DnsRateAnomaly),
            0x58 => Some(EventKind::DnsLabelAnomaly),
            0x59 => Some(EventKind::HttpAnomalousRequest),
            0x60 => Some(EventKind::SentinelStarted),
            0x61 => Some(EventKind::SentinelStopped),
            0x62 => Some(EventKind::ProbeRestarted),
            0x63 => Some(EventKind::RingBufferOverflow),
            0x64 => Some(EventKind::CustodySequenceJump),
            0x65 => Some(EventKind::PledgeViolation),
            0x66 => Some(EventKind::ConfigReloaded),
            _ => None,
        }
    }
}

impl EventSeverity {
    /// The one-byte wire code of the severity.
    pub open spec fn spec_code(self) -> u8 {
        match self {
            EventSeverity::Observed => 0,
            EventSeverity::Probable => 1,
            EventSeverity::Confirmed => 2,
        }
    }

    /// The wire code of the severity.
    pub fn code(&self) -> (c: u8)
        ensures
            c == self.spec_code(),
    {
        match self {
            EventSeverity::Observed => 0,
            EventSeverity::Probable => 1,
            EventSeverity::Confirmed => 2,
        }
    }

    /// Decodes a wire code. `None` exactly for the bytes above 2.
    pub fn from_u8(v: u8) -> (r: Option<Self>)
        ensures
            forall|s: EventSeverity| (r == Some(s)) <==> #[trigger] s.spec_code() == v,
            r == (if v == 0 {
                Some(EventSeverity::Observed)
            } else if v == 1 {
                Some(EventSeverity::Probable)
            } else if v == 2 {
                Some(EventSeverity::Confirmed)
            } else {
                None
            }),
    {
        match v {
            0 => Some(EventSeverity::Observed),
            1 => Some(EventSeverity::Probable),
            2 => Some(EventSeverity::Confirmed),
            _ => None,
        }
    }
}

/// The wire codes of the kinds that must be sealed at once.
pub open spec fn is_urgent_code(v: u8) -> bool {
    ||| v == 0x02
    ||| v == 0x42
    ||| v == 0x44
    ||| v == 0x46
    ||| v == 0x53
    ||| v == 0x64
    ||| v == 0x65
}

/// Law: the family of a wire code is its high nibble: Memory 0x0_, Contract
/// 0x1_, State 0x2_, DoS 0x3_, Provenance 0x4_, Network 0x5_, System 0x6_.
pub proof fn lemma_family_is_high_nibble(code: u8)
    requires
        code < 0x70,
    ensures
        family_of_code(code).spec_code() == code / 16,
{
}

/// Law: the wire codes of the kinds are those of the kernel's event contract.
pub proof fn lemma_kind_codes_match_kernel_contract()
    ensures
        EventKind::AllocWithoutRelease.spec_code() == 0x00,
        EventKind::IoctlRollbackMissing.spec_code() == 0x01,
        EventKind::BoundaryViolation.spec_code() == 0x02,
        EventKind::RefcountLeak.spec_code() == 0x03,
        EventKind::UseAfterError.spec_code() == 0x04,
        EventKind::StackLayoutViolation.spec_code() == 0x05,
        EventKind::ImplicitContractBreach.spec_code() == 0x10,
        EventKind::UntrustedInputPropagated.spec_code() == 0x11,
        EventKind::ExportSymbolImplicit.spec_code() == 0x12,
        EventKind::UndocumentedDelegation.spec_code() == 0x13,
        EventKind::StatefulApiImplicit.spec_code() == 0x14,
        EventKind::StateContamination.spec_code() == 0x20,
        EventKind::SingletonReuse.spec_code() == 0x21,
        EventKind::MutableLimitExposed.spec_code() == 0x22,
        EventKind::InvalidStateTransition.spec_code() == 0x23,
        EventKind::StateRaceCondition.spec_code() == 0x24,
        EventKind::GlobalStateResidual.spec_code() == 0x25,
        EventKind::AlgorithmicDoS.spec_code() == 0x30,
        EventKind::UnboundedLoop.spec_code() == 0x31,
        EventKind::UnboundedRecursion.spec_code() == 0x32,
        EventKind::EventRateAnomaly.spec_code() == 0x33,
        EventKind::MemoryGrowthAnomaly.spec_code() == 0x34,
        EventKind::ProvenanceBroken.spec_code() == 0x40,
        EventKind::UnsealedDependency.spec_code() == 0x41,
        EventKind::HashMismatch.spec_code() == 0x42,
        EventKind::NonReproducibleBuild.spec_code() == 0x43,
        EventKind::TrojanSourceCandidate.spec_code() == 0x44,
        EventKind::UnsignedExecution.spec_code() == 0x45,
        EventKind::PostSealModification.spec_code() == 0x46,
        EventKind::HighEntropyPayload.spec_code() == 0x50,
        EventKind::Dnp3CrcInvalid.spec_code() == 0x51,
        EventKind::Dnp3UnknownFunction.spec_code() == 0x52,
        EventKind::Dnp3UnauthorizedMaster.spec_code() == 0x53,
        EventKind::TlsObsoleteVersion.spec_code() == 0x54,
        EventKind::TlsWeakCipher.spec_code() == 0x55,
        EventKind::TlsMissingSni.spec_code() == 0x56,
        EventKind::DnsRateAnomaly.spec_code() == 0x57,
        EventKind::DnsLabelAnomaly.spec_code() == 0x58,
        EventKind::HttpAnomalousRequest.spec_code() == 0x59,
        EventKind::SentinelStarted.spec_code() == 0x60,
        EventKind::SentinelStopped.spec_code() == 0x61,
        EventKind::ProbeRestarted.spec_code() == 0x62,
        EventKind::RingBufferOverflow.spec_code() == 0x63,
        EventKind::CustodySequenceJump.spec_code() == 0x64,
        EventKind::PledgeViolation.spec_code() == 0x65,
        EventKind::ConfigReloaded.spec_code() == 0x66,
{
}

/// Law: the severity each kind is reported with by default.
pub proof fn lemma_default_severities()
    ensures
        EventKind::AllocWithoutRelease.spec_default_severity() == EventSeverity::Confirmed,
        EventKind::IoctlRollbackMissing.spec_default_severity() == EventSeverity::Probable,
        EventKind::BoundaryViolation.spec_default_severity() == EventSeverity::Confirmed,
        EventKind::RefcountLeak.spec_default_severity() == EventSeverity::Confirmed,
        EventKind::UseAfterError.spec_default_severity() == EventSeverity::Probable,
        EventKind::StackLayoutViolation.spec_default_severity() == EventSeverity::Confirmed,
        EventKind::ImplicitContractBreach.spec_default_severity() == EventSeverity::Probable,
        EventKind::UntrustedInputPropagated.spec_default_severity() == EventSeverity::Probable,
        EventKind::ExportSymbolImplicit.spec_default_severity() == EventSeverity::Observed,
        EventKind::UndocumentedDelegation.spec_default_severity() == EventSeverity::Observed,
        EventKind::StatefulApiImplicit.spec_default_severity() == EventSeverity::Observed,
        EventKind::StateContamination.spec_default_severity() == EventSeverity::Confirmed,
        EventKind::SingletonReuse.spec_default_severity() == EventSeverity::Probable,
        EventKind::MutableLimitExposed.spec_default_severity() == EventSeverity::Probable,
        EventKind::InvalidStateTransition.spec_default_severity() == EventSeverity::Confirmed,
        EventKind::StateRaceCondition.spec_default_severity() == EventSeverity::Probable,
        EventKind::GlobalStateResidual.spec_default_severity() == EventSeverity::Observed,
        EventKind::AlgorithmicDoS.spec_default_severity() == EventSeverity::Probable,
        EventKind::UnboundedLoop.spec_default_severity() == EventSeverity::Probable,
        EventKind::UnboundedRecursion.spec_default_severity() == EventSeverity::Probable,
        EventKind::EventRateAnomaly.spec_default_severity() == EventSeverity::Observed,
        EventKind::MemoryGrowthAnomaly.spec_default_severity() == EventSeverity::Observed,
        EventKind::ProvenanceBroken.spec_default_severity() == EventSeverity::Confirmed,
        EventKind::UnsealedDependency.spec_default_severity() == EventSeverity::Confirmed,
        EventKind::HashMismatch.spec_default_severity() == EventSeverity::Confirmed,
        EventKind::NonReproducibleBuild.spec_default_severity() == EventSeverity::Confirmed,
        EventKind::TrojanSourceCandidate.spec_default_severity() == EventSeverity::Confirmed,
        EventKind::UnsignedExecution.spec_default_severity() == EventSeverity::Probable,
        EventKind::PostSealModification.spec_default_severity() == EventSeverity::Confirmed,
        EventKind::HighEntropyPayload.spec_default_severity() == EventSeverity::Observed,
        EventKind::Dnp3CrcInvalid.spec_default_severity() == EventSeverity::Confirmed,
        EventKind::Dnp3UnknownFunction.spec_default_severity() == EventSeverity::Probable,
        EventKind::Dnp3UnauthorizedMaster.spec_default_severity() == EventSeverity::Confirmed,
        EventKind::TlsObsoleteVersion.spec_default_severity() == EventSeverity::Confirmed,
        EventKind::TlsWeakCipher.spec_default_severity() == EventSeverity::Confirmed,
        EventKind::TlsMissingSni.spec_default_severity() == EventSeverity::Observed,
        EventKind::DnsRateAnomaly.spec_default_severity() == EventSeverity::Observed,
        EventKind::DnsLabelAnomaly.spec_default_severity() == EventSeverity::Observed,
        EventKind::HttpAnomalousRequest.spec_default_severity() == EventSeverity::Observed,
        EventKind::SentinelStarted.spec_default_severity() == EventSeverity::Observed,
        EventKind::SentinelStopped.spec_default_severity() == EventSeverity::Observed,
        EventKind::ProbeRestarted.spec_default_severity() == EventSeverity::Observed,
        EventKind::RingBufferOverflow.spec_default_severity() == EventSeverity::Observed,
        EventKind::CustodySequenceJump.spec_default_severity() == EventSeverity::Confirmed,
        EventKind::PledgeViolation.spec_default_severity() == EventSeverity::Confirmed,
        EventKind::ConfigReloaded.spec_default_severity() == EventSeverity::Observed,
{
}

/// Law: a kind requires immediate custody exactly when its wire code is one of
/// the urgent codes (boundary violation 0x02, hash mismatch 0x42, trojan source
/// 0x44, post-seal modification 0x46, unauthorized DNP3 master 0x53, custody
/// sequence jump 0x64, pledge violation 0x65).
pub proof fn lemma_urgent_kinds_by_code(k: EventKind)
    ensures
        k.spec_requires_immediate_custody() <==> is_urgent_code(k.spec_code()),
{
}

/// Law: decoding a wire byte and encoding the kind back gives the byte; bytes
/// that are no kind's code decode to nothing.
pub proof fn lemma_from_u8_inverts_code(v: u8)
    ensures
        EventKind::spec_from_u8(v) matches Some(k) ==> k.spec_code() == v,
        EventKind::spec_from_u8(v) is None ==> forall|k: EventKind| #[trigger] k.spec_code() != v,
{
}

} // verus!
