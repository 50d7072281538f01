//! Types of the uACPI C interface.
use vstd::prelude::*;
use crate::codes;

verus! {

/// A uACPI log level, as the raw code.
#[derive(Clone, Copy, PartialEq, Eq, PartialOrd, Ord, Debug, Structural)]
pub struct LogLevel(pub i32);

impl LogLevel {
    /// The `DEBUG` log level.
    pub fn debug() -> (r: LogLevel)
        ensures
            r.0 == codes::UACPI_LOG_DEBUG,
    {
        LogLevel(codes::UACPI_LOG_DEBUG)
    }

    /// The `TRACE` log level.
    pub fn trace() -> (r: LogLevel)
        ensures
            r.0 == codes::UACPI_LOG_TRACE,
    {
        LogLevel(codes::UACPI_LOG_TRACE)
    }

    /// The `INFO` log level.
    pub fn info() -> (r: LogLevel)
        ensures
            r.0 == codes::UACPI_LOG_INFO,
    {
        LogLevel(codes::UACPI_LOG_INFO)
    }

    /// The `WARN` log level.
    pub fn warn() -> (r: LogLevel)
        ensures
            r.0 == codes::UACPI_LOG_WARN,
    {
        LogLevel(codes::UACPI_LOG_WARN)
    }

    /// The `ERROR` log level.
    pub fn error() -> (r: LogLevel)
        ensures
            r.0 == codes::UACPI_LOG_ERROR,
    {
        LogLevel(codes::UACPI_LOG_ERROR)
    }
}

/// An opaque handle of a kernel object, such as a mutex or a mapped I/O range.
///
/// Its debug form, `0x` and the value in hexadecimal, is [`Handle::debug_string`].
#[derive(PartialEq, Eq, PartialOrd, Ord, Clone, Copy, Structural)]
pub struct Handle(pub u64);

impl Handle {
    /// A new handle of a kernel object. 0 is the invalid handle, which
    /// [`Handle::invalid`] gives.
    pub fn new(handle: u64) -> (r: Handle)
        requires
            handle != 0,
        ensures
            r.0 == handle,
    {
        Handle(handle)
    }

    /// The invalid handle.
    pub fn invalid() -> (r: Handle)
        ensures
            r.0 == 0,
    {
        Handle(0)
    }

    /// The raw value of the handle.
    pub fn as_u64(self) -> (r: u64)
        ensures
            r == self.0,
    {
        self.0
    }
}

/// A physical memory address.
#[derive(PartialEq, Eq, PartialOrd, Ord, Clone, Copy, Debug, Structural)]
pub struct PhysAddr(pub u64);

impl PhysAddr {
    pub fn new(phys_addr: u64) -> (r: PhysAddr)
        ensures
            r.0 == phys_addr,
    {
        PhysAddr(phys_addr)
    }

    pub fn as_u64(self) -> (r: u64)
        ensures
            r == self.0,
    {
        self.0
    }
}

/// An id of a thread of the host kernel.
#[derive(PartialEq, Eq, PartialOrd, Ord, Clone, Copy, Debug, Structural)]
pub struct ThreadId(pub usize);

impl ThreadId {
    pub fn new(value: usize) -> (r: ThreadId)
        ensures
            r.0 == value,
    {
        ThreadId(value)
    }
}

/// The interrupt state of a CPU, as saved when a spinlock is taken.
#[derive(PartialEq, Eq, PartialOrd, Ord, Clone, Copy, Debug, Structural)]
pub struct CpuFlags(pub u64);

impl CpuFlags {
    pub fn new(value: u64) -> (r: CpuFlags)
        ensures
            r.0 == value,
    {
        CpuFlags(value)
    }
}

/// An address in the system I/O space.
#[derive(PartialEq, Eq, PartialOrd, Ord, Clone, Copy, Debug, Structural)]
pub struct IOAddr(pub u64);

impl IOAddr {
    pub fn new(phys_addr: u64) -> (r: IOAddr)
        ensures
            r.0 == phys_addr,
    {
        IOAddr(phys_addr)
    }

    pub fn as_u64(self) -> (r: u64)
        ensures
            r == self.0,
    {
        self.0
    }
}

/// The address of a PCI function.
///
/// Its debug form, `segment:bus:device:function` in hexadecimal, is
/// [`PCIAddress::debug_string`].
#[derive(Clone, Copy, PartialEq, Eq, Structural)]
pub struct PCIAddress {
    segment: u16,
    bus: u8,
    device: u8,
    function: u8,
}

impl PCIAddress {
    /// The address of function `function` of device `device` on bus `bus`
    /// of segment group `segment`.
    pub fn from_parts(segment: u16, bus: u8, device: u8, function: u8) -> (r: PCIAddress)
        ensures
            r.spec_segment() == segment,
            r.spec_bus() == bus,
            r.spec_device() == device,
            r.spec_function() == function,
    {
        PCIAddress { segment, bus, device, function }
    }

    pub closed spec fn spec_segment(&self) -> u16 {
        self.segment
    }

    pub closed spec fn spec_bus(&self) -> u8 {
        self.bus
    }

    pub closed spec fn spec_device(&self) -> u8 {
        self.device
    }

    pub closed spec fn spec_function(&self) -> u8 {
        self.function
    }

    pub fn segment(&self) -> (r: u16)
        ensures
            r == self.spec_segment(),
    {
        self.segment
    }

    pub fn bus(&self) -> (r: u8)
        ensures
            r == self.spec_bus(),
    {
        self.bus
    }

    pub fn device(&self) -> (r: u8)
        ensures
            r == self.spec_device(),
    {
        self.device
    }

    pub fn function(&self) -> (r: u8)
        ensures
            r == self.spec_function(),
    {
        self.function
    }
}

/// How far uACPI has come in initialising the ACPI subsystem.
#[derive(Debug, Clone, Copy, PartialEq, Eq, PartialOrd, Ord, Structural)]
pub enum InitLevel {
    Early,
    SubsystemInitialized,
    NamespaceLoaded,
    NamespaceInitialized,
}

/// The uACPI code of an init level.
pub open spec fn init_level_code(l: InitLevel) -> u32 {
    match l {
        InitLevel::Early => 0,
        InitLevel::SubsystemInitialized => 1,
        InitLevel::NamespaceLoaded => 2,
        InitLevel::NamespaceInitialized => 3,
    }
}

impl InitLevel {
    /// The init level that uACPI reports as `level`; uACPI reports only the
    /// codes 0 to 3.
    pub fn from(level: u32) -> (r: InitLevel)
        requires
            level <= 3,
        ensures
            init_level_code(r) == level,
    {
        match level {
            0 => InitLevel::Early,
            1 => InitLevel::SubsystemInitialized,
            2 => InitLevel::NamespaceLoaded,
            _ => InitLevel::NamespaceInitialized,
        }
    }
}

/// The status of a call into uACPI.
#[must_use]
#[derive(Debug, Clone, Copy, PartialEq, Eq, PartialOrd, Ord, Structural)]
pub enum Status {
    Success,
    MappingFailed,
    OutOfMemory,
    BadChecksum,
    InvalidSignature,
    InvalidTableLenght,
    NotFound,
    InvalidArgument,
    Unimplemented,
    AlreadyExists,
    InternalError,
    TypeMismatch,
    InitLevelMismatch,
    NamespaceNodeDangling,
    NoHandler,
    NoResourceEndTag,
    CompiledOut,
    HardwareTimeout,
    AmlUndefinedReference,
    AmlInvalidNamestring,
    AmlObjectAlreadyExists,
    AmlInvalidOpcode,
    AmlIncompatibleObjectType,
    AmlBadEncoding,
    AmlOutOfBoundsIndex,
    AmlSyncLevelTooHigh,
    AmlInvalidResource,
    AmlLoopTimeout,
}

/// A code of a [`Status`]: success, a general error up to a hardware
/// timeout, or an error that comes from AML up to a loop timeout.
pub open spec fn is_status_value(status: u32) -> bool {
    ||| status <= codes::UACPI_STATUS_HARDWARE_TIMEOUT
    ||| codes::UACPI_STATUS_AML_UNDEFINED_REFERENCE <= status <= codes::UACPI_STATUS_AML_LOOP_TIMEOUT
}

/// The uACPI code of a status.
pub open spec fn status_code(s: Status) -> i32 {
    match s {
        Status::Success => codes::UACPI_STATUS_OK,
        Status::MappingFailed => codes::UACPI_STATUS_MAPPING_FAILED,
        Status::OutOfMemory => codes::UACPI_STATUS_OUT_OF_MEMORY,
        Status::BadChecksum => codes::UACPI_STATUS_BAD_CHECKSUM,
        Status::InvalidSignature => codes::UACPI_STATUS_INVALID_SIGNATURE,
        Status::InvalidTableLenght => codes::UACPI_STATUS_INVALID_TABLE_LENGTH,
        Status::NotFound => codes::UACPI_STATUS_NOT_FOUND,
        Status::InvalidArgument => codes::UACPI_STATUS_INVALID_ARGUMENT,
        Status::Unimplemented => codes::UACPI_STATUS_UNIMPLEMENTED,
        Status::AlreadyExists => codes::UACPI_STATUS_ALREADY_EXISTS,
        Status::InternalError => codes::UACPI_STATUS_INTERNAL_ERROR,
        Status::TypeMismatch => codes::UACPI_STATUS_TYPE_MISMATCH,
        Status::InitLevelMismatch => codes::UACPI_STATUS_INIT_LEVEL_MISMATCH,
        Status::NamespaceNodeDangling => codes::UACPI_STATUS_NAMESPACE_NODE_DANGLING,
        Status::NoHandler => codes::UACPI_STATUS_NO_HANDLER,
        Status::NoResourceEndTag => codes::UACPI_STATUS_NO_RESOURCE_END_TAG,
        Status::CompiledOut => codes::UACPI_STATUS_COMPILED_OUT,
        Status::HardwareTimeout => codes::UACPI_STATUS_HARDWARE_TIMEOUT,
        Status::AmlUndefinedReference => codes::UACPI_STATUS_AML_UNDEFINED_REFERENCE,
        Status::AmlInvalidNamestring => codes::UACPI_STATUS_AML_INVALID_NAMESTRING,
        Status::AmlObjectAlreadyExists => codes::UACPI_STATUS_AML_OBJECT_ALREADY_EXISTS,
        Status::AmlInvalidOpcode => codes::UACPI_STATUS_AML_INVALID_OPCODE,
        Status::AmlIncompatibleObjectType => codes::UACPI_STATUS_AML_INCOMPATIBLE_OBJECT_TYPE,
        Status::AmlBadEncoding => codes::UACPI_STATUS_AML_BAD_ENCODING,
        Status::AmlOutOfBoundsIndex => codes::UACPI_STATUS_AML_OUT_OF_BOUNDS_INDEX,
        Status::AmlSyncLevelTooHigh => codes::UACPI_STATUS_AML_SYNC_LEVEL_TOO_HIGH,
        Status::AmlInvalidResource => codes::UACPI_STATUS_AML_INVALID_RESOURCE,
        Status::AmlLoopTimeout => codes::UACPI_STATUS_AML_LOOP_TIMEOUT,
    }
}

impl Status {
    /// The uACPI code of this status.
    pub fn code(&self) -> (r: i32)
        ensures
            r == status_code(*self),
    {
        match self {
            Status::Success => codes::UACPI_STATUS_OK,
            Status::MappingFailed => codes::UACPI_STATUS_MAPPING_FAILED,
            Status::OutOfMemory => codes::UACPI_STATUS_OUT_OF_MEMORY,
            Status::BadChecksum => codes::UACPI_STATUS_BAD_CHECKSUM,
            Status::InvalidSignature => codes::UACPI_STATUS_INVALID_SIGNATURE,
            Status::InvalidTableLenght => codes::UACPI_STATUS_INVALID_TABLE_LENGTH,
            Status::NotFound => codes::UACPI_STATUS_NOT_FOUND,
            Status::InvalidArgument => codes::UACPI_STATUS_INVALID_ARGUMENT,
            Status::Unimplemented => codes::UACPI_STATUS_UNIMPLEMENTED,
            Status::AlreadyExists => codes::UACPI_STATUS_ALREADY_EXISTS,
            Status::InternalError => codes::UACPI_STATUS_INTERNAL_ERROR,
            Status::TypeMismatch => codes::UACPI_STATUS_TYPE_MISMATCH,
            Status::InitLevelMismatch => codes::UACPI_STATUS_INIT_LEVEL_MISMATCH,
            Status::NamespaceNodeDangling => codes::UACPI_STATUS_NAMESPACE_NODE_DANGLING,
            Status::NoHandler => codes::UACPI_STATUS_NO_HANDLER,
            Status::NoResourceEndTag => codes::UACPI_STATUS_NO_RESOURCE_END_TAG,
            Status::CompiledOut => codes::UACPI_STATUS_COMPILED_OUT,
            Status::HardwareTimeout => codes::UACPI_STATUS_HARDWARE_TIMEOUT,
            Status::AmlUndefinedReference => codes::UACPI_STATUS_AML_UNDEFINED_REFERENCE,
            Status::AmlInvalidNamestring => codes::UACPI_STATUS_AML_INVALID_NAMESTRING,
            Status::AmlObjectAlreadyExists => codes::UACPI_STATUS_AML_OBJECT_ALREADY_EXISTS,
            Status::AmlInvalidOpcode => codes::UACPI_STATUS_AML_INVALID_OPCODE,
            Status::AmlIncompatibleObjectType => codes::UACPI_STATUS_AML_INCOMPATIBLE_OBJECT_TYPE,
            Status::AmlBadEncoding => codes::UACPI_STATUS_AML_BAD_ENCODING,
            Status::AmlOutOfBoundsIndex => codes::UACPI_STATUS_AML_OUT_OF_BOUNDS_INDEX,
            Status::AmlSyncLevelTooHigh => codes::UACPI_STATUS_AML_SYNC_LEVEL_TOO_HIGH,
            Status::AmlInvalidResource => codes::UACPI_STATUS_AML_INVALID_RESOURCE,
            Status::AmlLoopTimeout => codes::UACPI_STATUS_AML_LOOP_TIMEOUT,
        }
    }

    /// The status that uACPI returns as `status`; uACPI returns only the codes
    /// of its statuses.
    pub fn from(status: u32) -> (r: Status)
        requires
            is_status_value(status),
        ensures
            status_code(r) == status,
    {
        let value = status as i32;
        match value {
            codes::UACPI_STATUS_OK => Status::Success,
            codes::UACPI_STATUS_MAPPING_FAILED => Status::MappingFailed,
            codes::UACPI_STATUS_OUT_OF_MEMORY => Status::OutOfMemory,
            codes::UACPI_STATUS_BAD_CHECKSUM => Status::BadChecksum,
            codes::UACPI_STATUS_INVALID_SIGNATURE => Status::InvalidSignature,
            codes::UACPI_STATUS_INVALID_TABLE_LENGTH => Status::InvalidTableLenght,
            codes::UACPI_STATUS_NOT_FOUND => Status::NotFound,
            codes::UACPI_STATUS_INVALID_ARGUMENT => Status::InvalidArgument,
            codes::UACPI_STATUS_UNIMPLEMENTED => Status::Unimplemented,
            codes::UACPI_STATUS_ALREADY_EXISTS => Status::AlreadyExists,
            codes::UACPI_STATUS_INTERNAL_ERROR => Status::InternalError,
            codes::UACPI_STATUS_TYPE_MISMATCH => Status::TypeMismatch,
            codes::UACPI_STATUS_INIT_LEVEL_MISMATCH => Status::InitLevelMismatch,
            codes::UACPI_STATUS_NAMESPACE_NODE_DANGLING => Status::NamespaceNodeDangling,
            codes::UACPI_STATUS_NO_HANDLER => Status::NoHandler,
            codes::UACPI_STATUS_NO_RESOURCE_END_TAG => Status::NoResourceEndTag,
            codes::UACPI_STATUS_COMPILED_OUT => Status::CompiledOut,
            codes::UACPI_STATUS_HARDWARE_TIMEOUT => Status::HardwareTimeout,
            codes::UACPI_STATUS_AML_UNDEFINED_REFERENCE => Status::AmlUndefinedReference,
            codes::UACPI_STATUS_AML_INVALID_NAMESTRING => Status::AmlInvalidNamestring,
            codes::UACPI_STATUS_AML_OBJECT_ALREADY_EXISTS => Status::AmlObjectAlreadyExists,
            codes::UACPI_STATUS_AML_INVALID_OPCODE => Status::AmlInvalidOpcode,
            codes::UACPI_STATUS_AML_INCOMPATIBLE_OBJECT_TYPE => Status::AmlIncompatibleObjectType,
            codes::UACPI_STATUS_AML_BAD_ENCODING => Status::AmlBadEncoding,
            codes::UACPI_STATUS_AML_OUT_OF_BOUNDS_INDEX => Status::AmlOutOfBoundsIndex,
            codes::UACPI_STATUS_AML_SYNC_LEVEL_TOO_HIGH => Status::AmlSyncLevelTooHigh,
            codes::UACPI_STATUS_AML_INVALID_RESOURCE => Status::AmlInvalidResource,
            _ => Status::AmlLoopTimeout,
        }
    }

    /// Whether `status` is the code of a [`Status`].
    pub fn is_status(status: u32) -> (r: bool)
        ensures
            r == is_status_value(status),
    {
        status <= codes::UACPI_STATUS_HARDWARE_TIMEOUT as u32 || (
        codes::UACPI_STATUS_AML_UNDEFINED_REFERENCE as u32 <= status && status
            <= codes::UACPI_STATUS_AML_LOOP_TIMEOUT as u32)
    }

    /// `Ok(())` for success, else the status as the error.
    pub fn into_result(self) -> (r: Result<(), Status>)
        ensures
            self == Status::Success ==> r is Ok,
            self != Status::Success ==> r == Err::<(), Status>(self),
    {
        match self {
            Status::Success => Ok(()),
            _ => Err(self),
        }
    }
}

/// A request that AML makes of the firmware.
#[derive(Clone, Copy, PartialEq, Eq)]
pub enum FirmwareRequest {
    Breakpoint { context: Handle },
    Fatal { typ: u8, code: u32, arg: u64 },
}

impl FirmwareRequest {
    /// The request of type `type_` (0 for a breakpoint, 1 for a fatal error)
    /// with the fields of that type.
    pub fn from(type_: u8, context: Handle, typ: u8, code: u32, arg: u64) -> (r: FirmwareRequest)
        requires
            type_ <= 1,
        ensures
            type_ == 0 ==> r == (FirmwareRequest::Breakpoint { context }),
            type_ == 1 ==> r == (FirmwareRequest::Fatal { typ, code, arg }),
    {
        if type_ == 0 {
            FirmwareRequest::Breakpoint { context }
        } else {
            FirmwareRequest::Fatal { typ, code, arg }
        }
    }
}

/// The kind of deferred work that uACPI schedules.
#[derive(Debug, Clone, Copy, PartialEq, Eq, Structural)]
pub enum WorkType {
    GPEExecution,
    Notification,
}

/// The uACPI code of a kind of work.
pub open spec fn work_type_code(w: WorkType) -> u32 {
    match w {
        WorkType::GPEExecution => codes::UACPI_WORK_GPE_EXECUTION,
        WorkType::Notification => codes::UACPI_WORK_NOTIFICATION,
    }
}

impl WorkType {
    /// The uACPI code of this kind of work.
    pub fn code(&self) -> (r: u32)
        ensures
            r == work_type_code(*self),
    {
        match self {
            WorkType::GPEExecution => codes::UACPI_WORK_GPE_EXECUTION,
            WorkType::Notification => codes::UACPI_WORK_NOTIFICATION,
        }
    }

    /// The kind of work that uACPI passes as `value`; uACPI passes only the
    /// codes of its kinds of work.
    pub fn from(value: u32) -> (r: WorkType)
        requires
            value <= codes::UACPI_WORK_NOTIFICATION,
        ensures
            work_type_code(r) == value,
    {
        match value {
            codes::UACPI_WORK_GPE_EXECUTION => WorkType::GPEExecution,
            _ => WorkType::Notification,
        }
    }
}

/// The digits of hexadecimal numbers, in order.
pub open spec fn hex_alphabet() -> Seq<char> {
    seq!['0', '1', '2', '3', '4', '5', '6', '7', '8', '9', 'a', 'b', 'c', 'd', 'e', 'f']
}

/// `v` in lower-case hexadecimal, without leading zeros (`0` for zero).
pub open spec fn hex_digits(v: nat) -> Seq<char>
    decreases v,
{
    if v < 16 {
        seq![hex_alphabet()[v as int]]
    } else {
        hex_digits(v / 16).push(hex_alphabet()[(v % 16) as int])
    }
}

/// Appends `c` to `s`.
#[verifier::external_body]
fn push_char(s: &mut String, c: char)
    ensures
        final(s)@ == old(s)@.push(c),
{
    s.push(c)
}

/// The hexadecimal digit of `d`.
fn hex_char(d: u64) -> (r: char)
    requires
        d < 16,
    ensures
        r == hex_alphabet()[d as int],
{
    match d {
        0 => '0',
        1 => '1',
        2 => '2',
        3 => '3',
        4 => '4',
        5 => '5',
        6 => '6',
        7 => '7',
        8 => '8',
        9 => '9',
        10 => 'a',
        11 => 'b',
        12 => 'c',
        13 => 'd',
        14 => 'e',
        _ => 'f',
    }
}

/// Appends `v` in lower-case hexadecimal to `s`.
fn push_hex(s: &mut String, v: u64)
    ensures
        final(s)@ == old(s)@ + hex_digits(v as nat),
    decreases v,
{
    if v >= 16 {
        push_hex(s, v / 16);
    }
    push_char(s, hex_char(v % 16));
    assert(s@ =~= old(s)@ + hex_digits(v as nat));
}

impl Handle {
    /// The handle as `0x` and its value in lower-case hexadecimal, as the
    /// debug output shows it.
    pub fn debug_string(&self) -> (r: String)
        ensures
            r@ == seq!['0', 'x'] + hex_digits(self.0 as nat),
    {
        let mut s = String::new();
        push_char(&mut s, '0');
        push_char(&mut s, 'x');
        push_hex(&mut s, self.0);
        assert(s@ =~= seq!['0', 'x'] + hex_digits(self.0 as nat));
        s
    }
}

impl PCIAddress {
    /// The address as segment, bus, device and function in lower-case
    /// hexadecimal, separated by colons, as the debug output shows it.
    pub fn debug_string(&self) -> (r: String)
        ensures
            r@ == hex_digits(self.spec_segment() as nat) + seq![':'] + hex_digits(
                self.spec_bus() as nat,
            ) + seq![':'] + hex_digits(self.spec_device() as nat) + seq![':'] + hex_digits(
                self.spec_function() as nat,
            ),
    {
        let mut s = String::new();
        push_hex(&mut s, self.segment as u64);
        push_char(&mut s, ':');
        push_hex(&mut s, self.bus as u64);
        push_char(&mut s, ':');
        push_hex(&mut s, self.device as u64);
        push_char(&mut s, ':');
        push_hex(&mut s, self.function as u64);
        assert(s@ =~= hex_digits(self.segment as nat) + seq![':'] + hex_digits(self.bus as nat)
            + seq![':'] + hex_digits(self.device as nat) + seq![':'] + hex_digits(
            self.function as nat,
        ));
        s
    }
}


/// Decoding the code of a status gives it back: no two have the same code.
pub proof fn lemma_status_code_injective(a: Status, b: Status)
    ensures
        status_code(a) == status_code(b) ==> a == b,
{
}

/// Decoding the code of an init level gives it back: no two have the same code.
pub proof fn lemma_init_level_code_injective(a: InitLevel, b: InitLevel)
    ensures
        init_level_code(a) == init_level_code(b) ==> a == b,
{
}

/// Decoding the code of a kind of work gives it back: no two have the same code.
pub proof fn lemma_work_type_code_injective(a: WorkType, b: WorkType)
    ensures
        work_type_code(a) == work_type_code(b) ==> a == b,
{
}

/// Each status has the uACPI status code of the same name, success being 0.
pub proof fn lemma_status_code_values(s: Status)
    ensures
        (s == Status::Success) == (status_code(s) == 0),
        (s == Status::MappingFailed) == (status_code(s) == 1),
        (s == Status::OutOfMemory) == (status_code(s) == 2),
        (s == Status::BadChecksum) == (status_code(s) == 3),
        (s == Status::InvalidSignature) == (status_code(s) == 4),
        (s == Status::InvalidTableLenght) == (status_code(s) == 5),
        (s == Status::NotFound) == (status_code(s) == 6),
        (s == Status::InvalidArgument) == (status_code(s) == 7),
        (s == Status::Unimplemented) == (status_code(s) == 8),
        (s == Status::AlreadyExists) == (status_code(s) == 9),
        (s == Status::InternalError) == (status_code(s) == 10),
        (s == Status::TypeMismatch) == (status_code(s) == 11),
        (s == Status::InitLevelMismatch) == (status_code(s) == 12),
        (s == Status::NamespaceNodeDangling) == (status_code(s) == 13),
        (s == Status::NoHandler) == (status_code(s) == 14),
        (s == Status::NoResourceEndTag) == (status_code(s) == 15),
        (s == Status::CompiledOut) == (status_code(s) == 16),
        (s == Status::HardwareTimeout) == (status_code(s) == 17),
        (s == Status::AmlUndefinedReference) == (status_code(s) == 0x0EFF_0000),
        (s == Status::AmlInvalidNamestring) == (status_code(s) == 0x0EFF_0001),
        (s == Status::AmlObjectAlreadyExists) == (status_code(s) == 0x0EFF_0002),
        (s == Status::AmlInvalidOpcode) == (status_code(s) == 0x0EFF_0003),
        (s == Status::AmlIncompatibleObjectType) == (status_code(s) == 0x0EFF_0004),
        (s == Status::AmlBadEncoding) == (status_code(s) == 0x0EFF_0005),
        (s == Status::AmlOutOfBoundsIndex) == (status_code(s) == 0x0EFF_0006),
        (s == Status::AmlSyncLevelTooHigh) == (status_code(s) == 0x0EFF_0007),
        (s == Status::AmlInvalidResource) == (status_code(s) == 0x0EFF_0008),
        (s == Status::AmlLoopTimeout) == (status_code(s) == 0x0EFF_0009),
{
}

/// Each init level has uACPI's code, 0 to 3 in the order of initialisation.
pub proof fn lemma_init_level_code_values(l: InitLevel)
    ensures
        (l == InitLevel::Early) == (init_level_code(l) == 0),
        (l == InitLevel::SubsystemInitialized) == (init_level_code(l) == 1),
        (l == InitLevel::NamespaceLoaded) == (init_level_code(l) == 2),
        (l == InitLevel::NamespaceInitialized) == (init_level_code(l) == 3),
{
}

/// GPE execution work is 0 and notification work 1.
pub proof fn lemma_work_type_code_values(w: WorkType)
    ensures
        (w == WorkType::GPEExecution) == (work_type_code(w) == 0),
        (w == WorkType::Notification) == (work_type_code(w) == 1),
{
}

} // verus!
