use vtr_sentinel::error::{ErrorKind, ErrorLayer, ErrorSeverity, VtrError};
use vtr_sentinel::event::kind::{EventFamily, EventKind, EventSeverity, Exploitability};

const ALL_KINDS: [EventKind; 46] = [
    EventKind::AllocWithoutRelease, EventKind::IoctlRollbackMissing, EventKind::BoundaryViolation,
    EventKind::RefcountLeak, EventKind::UseAfterError, EventKind::StackLayoutViolation,
    EventKind::ImplicitContractBreach, EventKind::UntrustedInputPropagated,
    EventKind::ExportSymbolImplicit, EventKind::UndocumentedDelegation,
    EventKind::StatefulApiImplicit, EventKind::StateContamination, EventKind::SingletonReuse,
    EventKind::MutableLimitExposed, EventKind::InvalidStateTransition,
    EventKind::StateRaceCondition, EventKind::GlobalStateResidual, EventKind::AlgorithmicDoS,
    EventKind::UnboundedLoop, EventKind::UnboundedRecursion, EventKind::EventRateAnomaly,
    EventKind::MemoryGrowthAnomaly, EventKind::ProvenanceBroken, EventKind::UnsealedDependency,
    EventKind::HashMismatch, EventKind::NonReproducibleBuild, EventKind::TrojanSourceCandidate,
    EventKind::UnsignedExecution, EventKind::PostSealModification, EventKind::HighEntropyPayload,
    EventKind::Dnp3CrcInvalid, EventKind::Dnp3UnknownFunction, EventKind::Dnp3UnauthorizedMaster,
    EventKind::TlsObsoleteVersion, EventKind::TlsWeakCipher, EventKind::TlsMissingSni,
    EventKind::DnsRateAnomaly, EventKind::DnsLabelAnomaly, EventKind::HttpAnomalousRequest,
    EventKind::SentinelStarted, EventKind::SentinelStopped, EventKind::ProbeRestarted,
    EventKind::RingBufferOverflow, EventKind::CustodySequenceJump, EventKind::PledgeViolation,
    EventKind::ConfigReloaded,
];

#[test]
fn kind_codes_roundtrip() {
    for k in ALL_KINDS {
        assert_eq!(EventKind::from_u8(k.code()), Some(k));
    }
    let known = (0u16..256).filter(|v| EventKind::from_u8(*v as u8).is_some()).count();
    assert_eq!(known, 46);
    assert_eq!(EventKind::from_u8(0x06), None);
    assert_eq!(EventKind::from_u8(0x67), None);
    assert_eq!(EventKind::from_u8(0xFF), None);
    assert_eq!(EventKind::from_u8(0x53), Some(EventKind::Dnp3UnauthorizedMaster));
}

#[test]
fn kind_family_is_high_nibble() {
    let families = [
        EventFamily::Memory, EventFamily::Contract, EventFamily::State, EventFamily::DoS,
        EventFamily::Provenance, EventFamily::Network, EventFamily::System,
    ];
    for k in ALL_KINDS {
        assert_eq!(k.family(), families[(k.code() >> 4) as usize]);
    }
    assert_eq!(EventKind::TrojanSourceCandidate.family(), EventFamily::Provenance);
}

#[test]
fn kind_default_severities() {
    assert_eq!(EventKind::AllocWithoutRelease.default_severity(), EventSeverity::Confirmed);
    assert_eq!(EventKind::IoctlRollbackMissing.default_severity(), EventSeverity::Probable);
    assert_eq!(EventKind::ExportSymbolImplicit.default_severity(), EventSeverity::Observed);
    assert_eq!(EventKind::Dnp3CrcInvalid.default_severity(), EventSeverity::Confirmed);
    assert_eq!(EventKind::SentinelStarted.default_severity(), EventSeverity::Observed);
    assert_eq!(EventKind::PledgeViolation.default_severity(), EventSeverity::Confirmed);
    let confirmed = ALL_KINDS.iter().filter(|k| k.default_severity() == EventSeverity::Confirmed).count();
    assert_eq!(confirmed, 18);
}

#[test]
fn kinds_requiring_immediate_custody() {
    let urgent: Vec<EventKind> = ALL_KINDS.iter().copied().filter(|k| k.requires_immediate_custody()).collect();
    assert_eq!(
        urgent,
        vec![
            EventKind::BoundaryViolation,
            EventKind::HashMismatch,
            EventKind::TrojanSourceCandidate,
            EventKind::PostSealModification,
            EventKind::Dnp3UnauthorizedMaster,
            EventKind::CustodySequenceJump,
            EventKind::PledgeViolation,
        ]
    );
}

#[test]
fn severity_codes() {
    assert_eq!(EventSeverity::from_u8(0), Some(EventSeverity::Observed));
    assert_eq!(EventSeverity::from_u8(1), Some(EventSeverity::Probable));
    assert_eq!(EventSeverity::from_u8(2), Some(EventSeverity::Confirmed));
    assert_eq!(EventSeverity::from_u8(3), None);
    assert_eq!(EventSeverity::Confirmed.code(), 2);
    assert!(EventSeverity::Observed < EventSeverity::Confirmed);
}

#[test]
fn error_constructors() {
    let e = VtrError::kqueue_init(9);
    assert_eq!(e, VtrError::new(ErrorKind::KqueueInit, ErrorLayer::Hardware, ErrorSeverity::DaemonFatal, 9));
    assert!(!e.is_recoverable());
    assert!(!e.is_forensic_evidence());

    let e = VtrError::dnp3_crc(4);
    assert_eq!((e.kind, e.layer, e.severity, e.os_code), (ErrorKind::Dnp3CrcInvalid, ErrorLayer::Protocol, ErrorSeverity::Recoverable, 4));
    assert!(e.is_recoverable());

    let e = VtrError::custody_mismatch();
    assert_eq!((e.kind, e.layer, e.severity, e.os_code), (ErrorKind::CustodyHashMismatch, ErrorLayer::Logic, ErrorSeverity::DaemonFatal, 0));
    assert!(e.is_forensic_evidence());

    let e = VtrError::sequence_jump();
    assert_eq!((e.kind, e.layer, e.severity), (ErrorKind::SequenceJump, ErrorLayer::Logic, ErrorSeverity::ModuleFatal));
    assert!(e.is_forensic_evidence());
    assert!(!e.is_recoverable());

    let e = VtrError::ring_full();
    assert_eq!((e.kind, e.layer, e.severity), (ErrorKind::RingBufferFull, ErrorLayer::Logic, ErrorSeverity::Recoverable));
    assert!(!e.is_forensic_evidence());

    let e = VtrError::entropy_insufficient();
    assert_eq!((e.kind, e.layer, e.severity), (ErrorKind::EntropyInsufficient, ErrorLayer::Protocol, ErrorSeverity::Recoverable));

    let e = VtrError::pledge_violation(-3);
    assert_eq!((e.kind, e.layer, e.severity, e.os_code), (ErrorKind::PledgeViolation, ErrorLayer::Init, ErrorSeverity::DaemonFatal, -3));
    assert!(e.is_forensic_evidence());
}

#[test]
fn error_codes_match_their_layers() {
    assert_eq!(ErrorKind::KqueueInit.code(), 0);
    assert_eq!(ErrorKind::ProcUnavailable.code(), 3);
    assert_eq!(ErrorKind::Dnp3CrcInvalid.code(), 10);
    assert_eq!(ErrorKind::ChecksumInvalid.code(), 13);
    assert_eq!(ErrorKind::PayloadOverflow.code(), 14);
    assert_eq!(ErrorKind::RingBufferFull.code(), 20);
    assert_eq!(ErrorKind::CustodyNoGenesis.code(), 23);
    assert_eq!(ErrorKind::PledgeViolation.code(), 30);
    assert_eq!(ErrorKind::CliInvalid.code(), 33);
    assert_eq!(ErrorLayer::Hardware.code(), 0);
    assert_eq!(ErrorLayer::Init.code(), 3);
    assert_eq!(ErrorSeverity::Recoverable.code(), 0);
    assert_eq!(ErrorSeverity::DaemonFatal.code(), 2);
    assert_eq!(EventFamily::Memory.code(), 0);
    assert_eq!(EventFamily::System.code(), 6);
    assert_eq!(Exploitability::Undetermined.code(), 3);
}

#[test]
fn error_display_string() {
    assert_eq!(
        VtrError::kqueue_init(9).to_display_string(),
        "VTR-ERR layer=Hardware kind=KqueueInit severity=DaemonFatal os=9"
    );
    assert_eq!(
        VtrError::new(ErrorKind::PayloadOverflow, ErrorLayer::Protocol, ErrorSeverity::DaemonFatal, -1)
            .to_display_string(),
        "VTR-ERR layer=Protocol kind=PayloadOverflow severity=DaemonFatal os=-1"
    );
    assert_eq!(
        VtrError::sequence_jump().to_display_string(),
        "VTR-ERR layer=Logic kind=SequenceJump severity=ModuleFatal os=0"
    );
    assert_eq!(
        VtrError::pledge_violation(i32::MIN).to_display_string(),
        "VTR-ERR layer=Init kind=PledgeViolation severity=DaemonFatal os=-2147483648"
    );
    assert_eq!(
        VtrError::dnp3_crc(1234567890).to_display_string(),
        "VTR-ERR layer=Protocol kind=Dnp3CrcInvalid severity=Recoverable os=1234567890"
    );
}
