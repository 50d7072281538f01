use uacpi::status::{Status, UacpiError};

const ALL_ERRORS: [UacpiError; 31] = [
    UacpiError::MappingFailed,
    UacpiError::OutOfMemory,
    UacpiError::BadChecksum,
    UacpiError::InvalidSignature,
    UacpiError::InvalidTableLength,
    UacpiError::NotFound,
    UacpiError::InvalidArgument,
    UacpiError::Unimplemented,
    UacpiError::AlreadyExists,
    UacpiError::InternalError,
    UacpiError::TypeMismatch,
    UacpiError::InitLevelMismatch,
    UacpiError::NamespaceNodeDangling,
    UacpiError::NoHandler,
    UacpiError::NoResourceEndTag,
    UacpiError::CompiledOut,
    UacpiError::HardwareTimeout,
    UacpiError::Timeout,
    UacpiError::Overriden,
    UacpiError::Denied,
    UacpiError::AmlUndefindedReference,
    UacpiError::AmlInvalidNamestring,
    UacpiError::AmlObjectAlreadyExists,
    UacpiError::AmlInvalidOpcode,
    UacpiError::AmlIncompatibleObjectType,
    UacpiError::AmlBadEncoding,
    UacpiError::AmlOutOfBondsIndex,
    UacpiError::AmlSyncLevelTooHigh,
    UacpiError::AmlInvalidResource,
    UacpiError::AmlLoopTimeout,
    UacpiError::AmlCallStackDepthLimit,
];

#[test]
fn ok_status_is_success() {
    assert_eq!(Status::evaluate_uacpi_status(0), Ok(()));
}

#[test]
fn general_error_codes_map_to_errors() {
    assert_eq!(Status::evaluate_uacpi_status(1), Err(UacpiError::MappingFailed));
    assert_eq!(Status::evaluate_uacpi_status(5), Err(UacpiError::InvalidTableLength));
    assert_eq!(Status::evaluate_uacpi_status(6), Err(UacpiError::NotFound));
    assert_eq!(Status::evaluate_uacpi_status(20), Err(UacpiError::Denied));
}

#[test]
fn aml_error_codes_map_to_errors() {
    assert_eq!(
        Status::evaluate_uacpi_status(0x0EFF_0000),
        Err(UacpiError::AmlUndefindedReference)
    );
    assert_eq!(
        Status::evaluate_uacpi_status(0x0EFF_000A),
        Err(UacpiError::AmlCallStackDepthLimit)
    );
}

#[test]
fn every_error_round_trips_through_its_status() {
    for e in ALL_ERRORS {
        let status = Status::to_status(Err(e));
        assert_ne!(status.0, 0);
        assert_eq!(status.0, e.code());
        assert_eq!(Status::evaluate_uacpi_status(status.0), Err(e));
    }
    assert_eq!(Status::to_status(Ok(())), Status(0));
    assert_eq!(Status::evaluate_uacpi_status(Status::to_status(Ok(())).0), Ok(()));
}

#[test]
fn error_codes_are_distinct() {
    for (i, a) in ALL_ERRORS.iter().enumerate() {
        for (j, b) in ALL_ERRORS.iter().enumerate() {
            assert_eq!(i == j, a.code() == b.code());
        }
    }
}

#[test]
fn known_status_codes() {
    assert!(uacpi::status::is_uacpi_status(0));
    assert!(uacpi::status::is_uacpi_status(20));
    assert!(!uacpi::status::is_uacpi_status(21));
    assert!(!uacpi::status::is_uacpi_status(-1));
    assert!(uacpi::status::is_uacpi_status(0x0EFF_0005));
    assert!(!uacpi::status::is_uacpi_status(0x0EFF_000B));
}

#[test]
fn error_descriptions() {
    assert_eq!(UacpiError::MappingFailed.as_str(), "failed to map memory");
    assert_eq!(UacpiError::TypeMismatch.as_str(), "object type mismatch");
    assert_eq!(
        UacpiError::AmlSyncLevelTooHigh.as_str(),
        "AML attempted to acquire a mutex with a lower sync level"
    );
    assert_eq!(
        UacpiError::AmlCallStackDepthLimit.as_str(),
        "reached maximum AML call stack depth"
    );
}
