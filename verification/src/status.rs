//! Status codes returned by uACPI and their mapping to [`UacpiError`].
use vstd::prelude::*;
use crate::codes;

verus! {

/// A raw uACPI status as handed across the C interface.
#[derive(Clone, Copy, Debug, PartialEq, Eq, Structural)]
pub struct Status(pub i32);

/// Every failure that uACPI can report.
#[derive(Clone, Copy, PartialEq, Eq, PartialOrd, Ord, Debug, Structural)]
pub enum UacpiError {
    MappingFailed,
    OutOfMemory,
    BadChecksum,
    InvalidSignature,
    InvalidTableLength,
    NotFound,
    InvalidArgument,
    Unimplemented,
    AlreadyExists,
    InternalError,
    TypeMismatch,
    InitLevelMismatch,
    NamespaceNodeDangling,
    NoHandler,
    NoResourceEndTag,
    CompiledOut,
    HardwareTimeout,
    Timeout,
    Overriden,
    Denied,
    AmlUndefindedReference,
    AmlInvalidNamestring,
    AmlObjectAlreadyExists,
    AmlInvalidOpcode,
    AmlIncompatibleObjectType,
    AmlBadEncoding,
    AmlOutOfBondsIndex,
    AmlSyncLevelTooHigh,
    AmlInvalidResource,
    AmlLoopTimeout,
    AmlCallStackDepthLimit,
}

/// The uACPI status code that stands for an error.
pub open spec fn error_code(e: UacpiError) -> i32 {
    match e {
        UacpiError::MappingFailed => codes::UACPI_STATUS_MAPPING_FAILED,
        UacpiError::OutOfMemory => codes::UACPI_STATUS_OUT_OF_MEMORY,
        UacpiError::BadChecksum => codes::UACPI_STATUS_BAD_CHECKSUM,
        UacpiError::InvalidSignature => codes::UACPI_STATUS_INVALID_SIGNATURE,
        UacpiError::InvalidTableLength => codes::UACPI_STATUS_INVALID_TABLE_LENGTH,
        UacpiError::NotFound => codes::UACPI_STATUS_NOT_FOUND,
        UacpiError::InvalidArgument => codes::UACPI_STATUS_INVALID_ARGUMENT,
        UacpiError::Unimplemented => codes::UACPI_STATUS_UNIMPLEMENTED,
        UacpiError::AlreadyExists => codes::UACPI_STATUS_ALREADY_EXISTS,
        UacpiError::InternalError => codes::UACPI_STATUS_INTERNAL_ERROR,
        UacpiError::TypeMismatch => codes::UACPI_STATUS_TYPE_MISMATCH,
        UacpiError::InitLevelMismatch => codes::UACPI_STATUS_INIT_LEVEL_MISMATCH,
        UacpiError::NamespaceNodeDangling => codes::UACPI_STATUS_NAMESPACE_NODE_DANGLING,
        UacpiError::NoHandler => codes::UACPI_STATUS_NO_HANDLER,
        UacpiError::NoResourceEndTag => codes::UACPI_STATUS_NO_RESOURCE_END_TAG,
        UacpiError::CompiledOut => codes::UACPI_STATUS_COMPILED_OUT,
        UacpiError::HardwareTimeout => codes::UACPI_STATUS_HARDWARE_TIMEOUT,
        UacpiError::Timeout => codes::UACPI_STATUS_TIMEOUT,
        UacpiError::Overriden => codes::UACPI_STATUS_OVERRIDDEN,
        UacpiError::Denied => codes::UACPI_STATUS_DENIED,
        UacpiError::AmlUndefindedReference => codes::UACPI_STATUS_AML_UNDEFINED_REFERENCE,
        UacpiError::AmlInvalidNamestring => codes::UACPI_STATUS_AML_INVALID_NAMESTRING,
        UacpiError::AmlObjectAlreadyExists => codes::UACPI_STATUS_AML_OBJECT_ALREADY_EXISTS,
        UacpiError::AmlInvalidOpcode => codes::UACPI_STATUS_AML_INVALID_OPCODE,
        UacpiError::AmlIncompatibleObjectType => codes::UACPI_STATUS_AML_INCOMPATIBLE_OBJECT_TYPE,
        UacpiError::AmlBadEncoding => codes::UACPI_STATUS_AML_BAD_ENCODING,
        UacpiError::AmlOutOfBondsIndex => codes::UACPI_STATUS_AML_OUT_OF_BOUNDS_INDEX,
        UacpiError::AmlSyncLevelTooHigh => codes::UACPI_STATUS_AML_SYNC_LEVEL_TOO_HIGH,
        UacpiError::AmlInvalidResource => codes::UACPI_STATUS_AML_INVALID_RESOURCE,
        UacpiError::AmlLoopTimeout => codes::UACPI_STATUS_AML_LOOP_TIMEOUT,
        UacpiError::AmlCallStackDepthLimit => codes::UACPI_STATUS_AML_CALL_STACK_DEPTH_LIMIT,
    }
}

/// A status code that uACPI defines: success, one of the general errors, or
/// one of the errors that come from AML.
pub open spec fn is_status_code(value: i32) -> bool {
    ||| codes::UACPI_STATUS_OK <= value <= codes::UACPI_STATUS_DENIED
    ||| codes::UACPI_STATUS_AML_UNDEFINED_REFERENCE <= value
        <= codes::UACPI_STATUS_AML_CALL_STACK_DEPTH_LIMIT
}

/// What a defined status code means: `Ok` for success, else the error whose code it is.
pub open spec fn status_meaning(value: i32, r: Result<(), UacpiError>) -> bool {
    match r {
        Ok(()) => value == codes::UACPI_STATUS_OK,
        Err(e) => error_code(e) == value,
    }
}

/// The status code that reports a result back to uACPI.
pub open spec fn result_code(r: Result<(), UacpiError>) -> i32 {
    match r {
        Ok(()) => codes::UACPI_STATUS_OK,
        Err(e) => error_code(e),
    }
}

/// The text that describes an error.
pub open spec fn error_text(e: UacpiError) -> Seq<char> {
    match e {
        UacpiError::MappingFailed => "failed to map memory"@,
        UacpiError::OutOfMemory => "out of memory"@,
        UacpiError::BadChecksum => "bad table checksum"@,
        UacpiError::InvalidSignature => "invalid table signature"@,
        UacpiError::InvalidTableLength => "invalid table length"@,
        UacpiError::NotFound => "not found"@,
        UacpiError::InvalidArgument => "invalid argument"@,
        UacpiError::Unimplemented => "unimplemented"@,
        UacpiError::AlreadyExists => "already exists"@,
        UacpiError::InternalError => "internal error"@,
        UacpiError::TypeMismatch => "object type mismatch"@,
        UacpiError::InitLevelMismatch => "init level to low/high for this action"@,
        UacpiError::NamespaceNodeDangling => "attempting to use a dangling namespace node"@,
        UacpiError::NoHandler => "no handler found"@,
        UacpiError::NoResourceEndTag => "resource template without an end tag"@,
        UacpiError::CompiledOut => "this functionality has been compiled out of this build"@,
        UacpiError::HardwareTimeout => "timed out waiting for hardware response"@,
        UacpiError::Timeout => "wait timed out"@,
        UacpiError::Overriden => "the requested action has been overridden"@,
        UacpiError::Denied => "the requested action has been denied"@,
        UacpiError::AmlUndefindedReference => "AML referenced an undefined object"@,
        UacpiError::AmlInvalidNamestring => "invalid AML name string"@,
        UacpiError::AmlObjectAlreadyExists => "object already exists"@,
        UacpiError::AmlInvalidOpcode => "invalid AML opcode"@,
        UacpiError::AmlIncompatibleObjectType => "incompatible AML object type"@,
        UacpiError::AmlBadEncoding => "bad AML instruction encoding"@,
        UacpiError::AmlOutOfBondsIndex => "out of bounds AML index"@,
        UacpiError::AmlSyncLevelTooHigh => "AML attempted to acquire a mutex with a lower sync level"@,
        UacpiError::AmlInvalidResource => "invalid resource template encoding or type"@,
        UacpiError::AmlLoopTimeout => "hanging AML while loop"@,
        UacpiError::AmlCallStackDepthLimit => "reached maximum AML call stack depth"@,
    }
}

impl UacpiError {
    /// The uACPI status code of this error.
    pub fn code(&self) -> (r: i32)
        ensures
            r == error_code(*self),
    {
        match self {
            UacpiError::MappingFailed => codes::UACPI_STATUS_MAPPING_FAILED,
            UacpiError::OutOfMemory => codes::UACPI_STATUS_OUT_OF_MEMORY,
            UacpiError::BadChecksum => codes::UACPI_STATUS_BAD_CHECKSUM,
            UacpiError::InvalidSignature => codes::UACPI_STATUS_INVALID_SIGNATURE,
            UacpiError::InvalidTableLength => codes::UACPI_STATUS_INVALID_TABLE_LENGTH,
            UacpiError::NotFound => codes::UACPI_STATUS_NOT_FOUND,
            UacpiError::InvalidArgument => codes::UACPI_STATUS_INVALID_ARGUMENT,
            UacpiError::Unimplemented => codes::UACPI_STATUS_UNIMPLEMENTED,
            UacpiError::AlreadyExists => codes::UACPI_STATUS_ALREADY_EXISTS,
            UacpiError::InternalError => codes::UACPI_STATUS_INTERNAL_ERROR,
            UacpiError::TypeMismatch => codes::UACPI_STATUS_TYPE_MISMATCH,
            UacpiError::InitLevelMismatch => codes::UACPI_STATUS_INIT_LEVEL_MISMATCH,
            UacpiError::NamespaceNodeDangling => codes::UACPI_STATUS_NAMESPACE_NODE_DANGLING,
            UacpiError::NoHandler => codes::UACPI_STATUS_NO_HANDLER,
            UacpiError::NoResourceEndTag => codes::UACPI_STATUS_NO_RESOURCE_END_TAG,
            UacpiError::CompiledOut => codes::UACPI_STATUS_COMPILED_OUT,
            UacpiError::HardwareTimeout => codes::UACPI_STATUS_HARDWARE_TIMEOUT,
            UacpiError::Timeout => codes::UACPI_STATUS_TIMEOUT,
            UacpiError::Overriden => codes::UACPI_STATUS_OVERRIDDEN,
            UacpiError::Denied => codes::UACPI_STATUS_DENIED,
            UacpiError::AmlUndefindedReference => codes::UACPI_STATUS_AML_UNDEFINED_REFERENCE,
            UacpiError::AmlInvalidNamestring => codes::UACPI_STATUS_AML_INVALID_NAMESTRING,
            UacpiError::AmlObjectAlreadyExists => codes::UACPI_STATUS_AML_OBJECT_ALREADY_EXISTS,
            UacpiError::AmlInvalidOpcode => codes::UACPI_STATUS_AML_INVALID_OPCODE,
            UacpiError::AmlIncompatibleObjectType => codes::UACPI_STATUS_AML_INCOMPATIBLE_OBJECT_TYPE,
            UacpiError::AmlBadEncoding => codes::UACPI_STATUS_AML_BAD_ENCODING,
            UacpiError::AmlOutOfBondsIndex => codes::UACPI_STATUS_AML_OUT_OF_BOUNDS_INDEX,
            UacpiError::AmlSyncLevelTooHigh => codes::UACPI_STATUS_AML_SYNC_LEVEL_TOO_HIGH,
            UacpiError::AmlInvalidResource => codes::UACPI_STATUS_AML_INVALID_RESOURCE,
            UacpiError::AmlLoopTimeout => codes::UACPI_STATUS_AML_LOOP_TIMEOUT,
            UacpiError::AmlCallStackDepthLimit => codes::UACPI_STATUS_AML_CALL_STACK_DEPTH_LIMIT,
        }
    }

    /// A human-readable description of the error.
    pub fn as_str(&self) -> (r: &str)
        ensures
            r@ == error_text(*self),
    {
        match self {
            UacpiError::MappingFailed => "failed to map memory",
            UacpiError::OutOfMemory => "out of memory",
            UacpiError::BadChecksum => "bad table checksum",
            UacpiError::InvalidSignature => "invalid table signature",
            UacpiError::InvalidTableLength => "invalid table length",
            UacpiError::NotFound => "not found",
            UacpiError::InvalidArgument => "invalid argument",
            UacpiError::Unimplemented => "unimplemented",
            UacpiError::AlreadyExists => "already exists",
            UacpiError::InternalError => "internal error",
            UacpiError::TypeMismatch => "object type mismatch",
            UacpiError::InitLevelMismatch => "init level to low/high for this action",
            UacpiError::NamespaceNodeDangling => "attempting to use a dangling namespace node",
            UacpiError::NoHandler => "no handler found",
            UacpiError::NoResourceEndTag => "resource template without an end tag",
            UacpiError::CompiledOut => "this functionality has been compiled out of this build",
            UacpiError::HardwareTimeout => "timed out waiting for hardware response",
            UacpiError::Timeout => "wait timed out",
            UacpiError::Overriden => "the requested action has been overridden",
            UacpiError::Denied => "the requested action has been denied",
            UacpiError::AmlUndefindedReference => "AML referenced an undefined object",
            UacpiError::AmlInvalidNamestring => "invalid AML name string",
            UacpiError::AmlObjectAlreadyExists => "object already exists",
            UacpiError::AmlInvalidOpcode => "invalid AML opcode",
            UacpiError::AmlIncompatibleObjectType => "incompatible AML object type",
            UacpiError::AmlBadEncoding => "bad AML instruction encoding",
            UacpiError::AmlOutOfBondsIndex => "out of bounds AML index",
            UacpiError::AmlSyncLevelTooHigh => {
                "AML attempted to acquire a mutex with a lower sync level"
            },
            UacpiError::AmlInvalidResource => "invalid resource template encoding or type",
            UacpiError::AmlLoopTimeout => "hanging AML while loop",
            UacpiError::AmlCallStackDepthLimit => "reached maximum AML call stack depth",
        }
    }
}

/// Whether uACPI defines the status code `value`.
pub fn is_uacpi_status(value: i32) -> (r: bool)
    ensures
        r == is_status_code(value),
{
    match Status::evaluate_checked(value) {
        Some(_) => true,
        None => false,
    }
}

impl Status {
    /// The error that `value` stands for, `None` for success and for codes
    /// that uACPI does not define.
    fn error_of(value: i32) -> (r: Option<UacpiError>)
        ensures
            r matches Some(e) ==> error_code(e) == value,
            r is None ==> !is_status_code(value) || value == codes::UACPI_STATUS_OK,
    {
        match value {
            codes::UACPI_STATUS_MAPPING_FAILED => Some(UacpiError::MappingFailed),
            codes::UACPI_STATUS_OUT_OF_MEMORY => Some(UacpiError::OutOfMemory),
            codes::UACPI_STATUS_BAD_CHECKSUM => Some(UacpiError::BadChecksum),
            codes::UACPI_STATUS_INVALID_SIGNATURE => Some(UacpiError::InvalidSignature),
            codes::UACPI_STATUS_INVALID_TABLE_LENGTH => Some(UacpiError::InvalidTableLength),
            codes::UACPI_STATUS_NOT_FOUND => Some(UacpiError::NotFound),
            codes::UACPI_STATUS_INVALID_ARGUMENT => Some(UacpiError::InvalidArgument),
            codes::UACPI_STATUS_UNIMPLEMENTED => Some(UacpiError::Unimplemented),
            codes::UACPI_STATUS_ALREADY_EXISTS => Some(UacpiError::AlreadyExists),
            codes::UACPI_STATUS_INTERNAL_ERROR => Some(UacpiError::InternalError),
            codes::UACPI_STATUS_TYPE_MISMATCH => Some(UacpiError::TypeMismatch),
            codes::UACPI_STATUS_INIT_LEVEL_MISMATCH => Some(UacpiError::InitLevelMismatch),
            codes::UACPI_STATUS_NAMESPACE_NODE_DANGLING => Some(UacpiError::NamespaceNodeDangling),
            codes::UACPI_STATUS_NO_HANDLER => Some(UacpiError::NoHandler),
            codes::UACPI_STATUS_NO_RESOURCE_END_TAG => Some(UacpiError::NoResourceEndTag),
            codes::UACPI_STATUS_COMPILED_OUT => Some(UacpiError::CompiledOut),
            codes::UACPI_STATUS_HARDWARE_TIMEOUT => Some(UacpiError::HardwareTimeout),
            codes::UACPI_STATUS_TIMEOUT => Some(UacpiError::Timeout),
            codes::UACPI_STATUS_OVERRIDDEN => Some(UacpiError::Overriden),
            codes::UACPI_STATUS_DENIED => Some(UacpiError::Denied),
            codes::UACPI_STATUS_AML_UNDEFINED_REFERENCE => Some(UacpiError::AmlUndefindedReference),
            codes::UACPI_STATUS_AML_INVALID_NAMESTRING => Some(UacpiError::AmlInvalidNamestring),
            codes::UACPI_STATUS_AML_OBJECT_ALREADY_EXISTS => Some(UacpiError::AmlObjectAlreadyExists),
            codes::UACPI_STATUS_AML_INVALID_OPCODE => Some(UacpiError::AmlInvalidOpcode),
            codes::UACPI_STATUS_AML_INCOMPATIBLE_OBJECT_TYPE => Some(
                UacpiError::AmlIncompatibleObjectType,
            ),
            codes::UACPI_STATUS_AML_BAD_ENCODING => Some(UacpiError::AmlBadEncoding),
            codes::UACPI_STATUS_AML_OUT_OF_BOUNDS_INDEX => Some(UacpiError::AmlOutOfBondsIndex),
            codes::UACPI_STATUS_AML_SYNC_LEVEL_TOO_HIGH => Some(UacpiError::AmlSyncLevelTooHigh),
            codes::UACPI_STATUS_AML_INVALID_RESOURCE => Some(UacpiError::AmlInvalidResource),
            codes::UACPI_STATUS_AML_LOOP_TIMEOUT => Some(UacpiError::AmlLoopTimeout),
            codes::UACPI_STATUS_AML_CALL_STACK_DEPTH_LIMIT => Some(UacpiError::AmlCallStackDepthLimit),
            _ => None,
        }
    }

    /// `Some` of the result that `value` stands for, `None` for an undefined code.
    fn evaluate_checked(value: i32) -> (r: Option<Result<(), UacpiError>>)
        ensures
            r is Some <==> is_status_code(value),
            r matches Some(res) ==> status_meaning(value, res),
    {
        if value == codes::UACPI_STATUS_OK {
            return Some(Ok(()));
        }
        match Status::error_of(value) {
            Some(e) => Some(Err(e)),
            None => None,
        }
    }

    /// Turns a status code returned by uACPI into a `Result`.
    ///
    /// uACPI returns only the codes it defines; any other value is a broken
    /// interface and is left out here.
    pub fn evaluate_uacpi_status(value: i32) -> (r: Result<(), UacpiError>)
        requires
            is_status_code(value),
        ensures
            r is Ok <==> value == codes::UACPI_STATUS_OK,
            status_meaning(value, r),
    {
        match Status::evaluate_checked(value) {
            Some(res) => res,
            None => Ok(()),
        }
    }

    /// The status that reports `value` back to uACPI.
    pub fn to_status(value: Result<(), UacpiError>) -> (r: Status)
        ensures
            r.0 == result_code(value),
    {
        match value {
            Ok(()) => Status(codes::UACPI_STATUS_OK),
            Err(error) => Status(error.code()),
        }
    }
}

/// Every error has a defined code other than the success code, and no two
/// errors share a code.
pub proof fn lemma_error_codes_distinct(e1: UacpiError, e2: UacpiError)
    ensures
        is_status_code(error_code(e1)),
        error_code(e1) != codes::UACPI_STATUS_OK,
        error_code(e1) == error_code(e2) ==> e1 == e2,
{
}

/// Any two successful results are the same.
proof fn lemma_ok_unique(a: Result<(), UacpiError>, b: Result<(), UacpiError>)
    requires
        a is Ok,
        b is Ok,
    ensures
        a == b,
{
    let (x, y): ((), ()) = (a->Ok_0, b->Ok_0);
    assert(x == y);
}

/// Reading back a reported result gives that result.
pub proof fn lemma_status_round_trip(r: Result<(), UacpiError>)
    ensures
        is_status_code(result_code(r)),
        forall|r2: Result<(), UacpiError>|
            status_meaning(result_code(r), r2) ==> r2 == r,
{
    match r {
        Ok(()) => {},
        Err(e) => {
            assert(error_code(e) == result_code(r));
        },
    }
    assert forall|r2: Result<(), UacpiError>| status_meaning(result_code(r), r2) implies r2 == r by {
        match r2 {
            Ok(()) => {
                match r {
                    Ok(()) => lemma_ok_unique(r2, r),
                    Err(e) => lemma_error_codes_distinct(e, e),
                }
            },
            Err(e2) => {
                match r {
                    Ok(()) => lemma_error_codes_distinct(e2, e2),
                    Err(e) => {
                        lemma_error_codes_distinct(e, e2);
                        assert(e == e2);
                    },
                }
            },
        }
    }
}

/// Reporting the meaning of a defined code gives back that code.
pub proof fn lemma_code_round_trip(value: i32, r: Result<(), UacpiError>)
    requires
        status_meaning(value, r),
    ensures
        result_code(r) == value,
{
}

/// Each error has the status code that uACPI gives the error of the same name: the general errors are numbered from 1 in the order of `uacpi_status`, the errors that come from AML from 0x0EFF0000.
pub proof fn lemma_error_code_values(e: UacpiError)
    ensures
        (e == UacpiError::MappingFailed) == (error_code(e) == 1),
        (e == UacpiError::OutOfMemory) == (error_code(e) == 2),
        (e == UacpiError::BadChecksum) == (error_code(e) == 3),
        (e == UacpiError::InvalidSignature) == (error_code(e) == 4),
        (e == UacpiError::InvalidTableLength) == (error_code(e) == 5),
        (e == UacpiError::NotFound) == (error_code(e) == 6),
        (e == UacpiError::InvalidArgument) == (error_code(e) == 7),
        (e == UacpiError::Unimplemented) == (error_code(e) == 8),
        (e == UacpiError::AlreadyExists) == (error_code(e) == 9),
        (e == UacpiError::InternalError) == (error_code(e) == 10),
        (e == UacpiError::TypeMismatch) == (error_code(e) == 11),
        (e == UacpiError::InitLevelMismatch) == (error_code(e) == 12),
        (e == UacpiError::NamespaceNodeDangling) == (error_code(e) == 13),
        (e == UacpiError::NoHandler) == (error_code(e) == 14),
        (e == UacpiError::NoResourceEndTag) == (error_code(e) == 15),
        (e == UacpiError::CompiledOut) == (error_code(e) == 16),
        (e == UacpiError::HardwareTimeout) == (error_code(e) == 17),
        (e == UacpiError::Timeout) == (error_code(e) == 18),
        (e == UacpiError::Overriden) == (error_code(e) == 19),
        (e == UacpiError::Denied) == (error_code(e) == 20),
        (e == UacpiError::AmlUndefindedReference) == (error_code(e) == 0x0EFF_0000),
        (e == UacpiError::AmlInvalidNamestring) == (error_code(e) == 0x0EFF_0001),
        (e == UacpiError::AmlObjectAlreadyExists) == (error_code(e) == 0x0EFF_0002),
        (e == UacpiError::AmlInvalidOpcode) == (error_code(e) == 0x0EFF_0003),
        (e == UacpiError::AmlIncompatibleObjectType) == (error_code(e) == 0x0EFF_0004),
        (e == UacpiError::AmlBadEncoding) == (error_code(e) == 0x0EFF_0005),
        (e == UacpiError::AmlOutOfBondsIndex) == (error_code(e) == 0x0EFF_0006),
        (e == UacpiError::AmlSyncLevelTooHigh) == (error_code(e) == 0x0EFF_0007),
        (e == UacpiError::AmlInvalidResource) == (error_code(e) == 0x0EFF_0008),
        (e == UacpiError::AmlLoopTimeout) == (error_code(e) == 0x0EFF_0009),
        (e == UacpiError::AmlCallStackDepthLimit) == (error_code(e) == 0x0EFF_000A),
{
}

/// Evaluating a status code gives the error of the same name in uACPI, and
/// success for 0; reporting an error gives back its code.
pub proof fn lemma_evaluate_names(value: i32, r: Result<(), UacpiError>, e: UacpiError)
    requires
        status_meaning(value, r),
    ensures
        value == 0 ==> r is Ok,
        value == 1 ==> r == Err::<(), UacpiError>(UacpiError::MappingFailed),
        value == 2 ==> r == Err::<(), UacpiError>(UacpiError::OutOfMemory),
        value == 3 ==> r == Err::<(), UacpiError>(UacpiError::BadChecksum),
        value == 4 ==> r == Err::<(), UacpiError>(UacpiError::InvalidSignature),
        value == 5 ==> r == Err::<(), UacpiError>(UacpiError::InvalidTableLength),
        value == 6 ==> r == Err::<(), UacpiError>(UacpiError::NotFound),
        value == 7 ==> r == Err::<(), UacpiError>(UacpiError::InvalidArgument),
        value == 8 ==> r == Err::<(), UacpiError>(UacpiError::Unimplemented),
        value == 9 ==> r == Err::<(), UacpiError>(UacpiError::AlreadyExists),
        value == 10 ==> r == Err::<(), UacpiError>(UacpiError::InternalError),
        value == 11 ==> r == Err::<(), UacpiError>(UacpiError::TypeMismatch),
        value == 12 ==> r == Err::<(), UacpiError>(UacpiError::InitLevelMismatch),
        value == 13 ==> r == Err::<(), UacpiError>(UacpiError::NamespaceNodeDangling),
        value == 14 ==> r == Err::<(), UacpiError>(UacpiError::NoHandler),
        value == 15 ==> r == Err::<(), UacpiError>(UacpiError::NoResourceEndTag),
        value == 16 ==> r == Err::<(), UacpiError>(UacpiError::CompiledOut),
        value == 17 ==> r == Err::<(), UacpiError>(UacpiError::HardwareTimeout),
        value == 18 ==> r == Err::<(), UacpiError>(UacpiError::Timeout),
        value == 19 ==> r == Err::<(), UacpiError>(UacpiError::Overriden),
        value == 20 ==> r == Err::<(), UacpiError>(UacpiError::Denied),
        value == 0x0EFF_0000 ==> r == Err::<(), UacpiError>(UacpiError::AmlUndefindedReference),
        value == 0x0EFF_0001 ==> r == Err::<(), UacpiError>(UacpiError::AmlInvalidNamestring),
        value == 0x0EFF_0002 ==> r == Err::<(), UacpiError>(UacpiError::AmlObjectAlreadyExists),
        value == 0x0EFF_0003 ==> r == Err::<(), UacpiError>(UacpiError::AmlInvalidOpcode),
        value == 0x0EFF_0004 ==> r == Err::<(), UacpiError>(UacpiError::AmlIncompatibleObjectType),
        value == 0x0EFF_0005 ==> r == Err::<(), UacpiError>(UacpiError::AmlBadEncoding),
        value == 0x0EFF_0006 ==> r == Err::<(), UacpiError>(UacpiError::AmlOutOfBondsIndex),
        value == 0x0EFF_0007 ==> r == Err::<(), UacpiError>(UacpiError::AmlSyncLevelTooHigh),
        value == 0x0EFF_0008 ==> r == Err::<(), UacpiError>(UacpiError::AmlInvalidResource),
        value == 0x0EFF_0009 ==> r == Err::<(), UacpiError>(UacpiError::AmlLoopTimeout),
        value == 0x0EFF_000A ==> r == Err::<(), UacpiError>(UacpiError::AmlCallStackDepthLimit),
        result_code(Err(e)) == error_code(e),
        result_code(Ok(())) == 0,
{
    lemma_error_code_values(e);
    if let Err(e2) = r {
        lemma_error_code_values(e2);
    }
}

/// The description of each error.
pub proof fn lemma_error_text_values(e: UacpiError)
    ensures
        e == UacpiError::MappingFailed ==> error_text(e) == "failed to map memory"@,
        e == UacpiError::OutOfMemory ==> error_text(e) == "out of memory"@,
        e == UacpiError::BadChecksum ==> error_text(e) == "bad table checksum"@,
        e == UacpiError::InvalidSignature ==> error_text(e) == "invalid table signature"@,
        e == UacpiError::InvalidTableLength ==> error_text(e) == "invalid table length"@,
        e == UacpiError::NotFound ==> error_text(e) == "not found"@,
        e == UacpiError::InvalidArgument ==> error_text(e) == "invalid argument"@,
        e == UacpiError::Unimplemented ==> error_text(e) == "unimplemented"@,
        e == UacpiError::AlreadyExists ==> error_text(e) == "already exists"@,
        e == UacpiError::InternalError ==> error_text(e) == "internal error"@,
        e == UacpiError::TypeMismatch ==> error_text(e) == "object type mismatch"@,
        e == UacpiError::InitLevelMismatch ==> error_text(e) == "init level to low/high for this action"@,
        e == UacpiError::NamespaceNodeDangling ==> error_text(e) == "attempting to use a dangling namespace node"@,
        e == UacpiError::NoHandler ==> error_text(e) == "no handler found"@,
        e == UacpiError::NoResourceEndTag ==> error_text(e) == "resource template without an end tag"@,
        e == UacpiError::CompiledOut ==> error_text(e) == "this functionality has been compiled out of this build"@,
        e == UacpiError::HardwareTimeout ==> error_text(e) == "timed out waiting for hardware response"@,
        e == UacpiError::Timeout ==> error_text(e) == "wait timed out"@,
        e == UacpiError::Overriden ==> error_text(e) == "the requested action has been overridden"@,
        e == UacpiError::Denied ==> error_text(e) == "the requested action has been denied"@,
        e == UacpiError::AmlUndefindedReference ==> error_text(e) == "AML referenced an undefined object"@,
        e == UacpiError::AmlInvalidNamestring ==> error_text(e) == "invalid AML name string"@,
        e == UacpiError::AmlObjectAlreadyExists ==> error_text(e) == "object already exists"@,
        e == UacpiError::AmlInvalidOpcode ==> error_text(e) == "invalid AML opcode"@,
        e == UacpiError::AmlIncompatibleObjectType ==> error_text(e) == "incompatible AML object type"@,
        e == UacpiError::AmlBadEncoding ==> error_text(e) == "bad AML instruction encoding"@,
        e == UacpiError::AmlOutOfBondsIndex ==> error_text(e) == "out of bounds AML index"@,
        e == UacpiError::AmlSyncLevelTooHigh ==> error_text(e) == "AML attempted to acquire a mutex with a lower sync level"@,
        e == UacpiError::AmlInvalidResource ==> error_text(e) == "invalid resource template encoding or type"@,
        e == UacpiError::AmlLoopTimeout ==> error_text(e) == "hanging AML while loop"@,
        e == UacpiError::AmlCallStackDepthLimit ==> error_text(e) == "reached maximum AML call stack depth"@,
{
}

} // verus!
