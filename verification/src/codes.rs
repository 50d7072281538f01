//! Numeric codes of the uACPI C interface (`uacpi/status.h`, `uacpi/log.h`,
//! `uacpi/types.h`, `uacpi/sleep.h`, `uacpi/kernel_api.h`).
use vstd::prelude::*;

verus! {

pub const UACPI_STATUS_OK: i32 = 0;
pub const UACPI_STATUS_MAPPING_FAILED: i32 = 1;
pub const UACPI_STATUS_OUT_OF_MEMORY: i32 = 2;
pub const UACPI_STATUS_BAD_CHECKSUM: i32 = 3;
pub const UACPI_STATUS_INVALID_SIGNATURE: i32 = 4;
pub const UACPI_STATUS_INVALID_TABLE_LENGTH: i32 = 5;
pub const UACPI_STATUS_NOT_FOUND: i32 = 6;
pub const UACPI_STATUS_INVALID_ARGUMENT: i32 = 7;
pub const UACPI_STATUS_UNIMPLEMENTED: i32 = 8;
pub const UACPI_STATUS_ALREADY_EXISTS: i32 = 9;
pub const UACPI_STATUS_INTERNAL_ERROR: i32 = 10;
pub const UACPI_STATUS_TYPE_MISMATCH: i32 = 11;
pub const UACPI_STATUS_INIT_LEVEL_MISMATCH: i32 = 12;
pub const UACPI_STATUS_NAMESPACE_NODE_DANGLING: i32 = 13;
pub const UACPI_STATUS_NO_HANDLER: i32 = 14;
pub const UACPI_STATUS_NO_RESOURCE_END_TAG: i32 = 15;
pub const UACPI_STATUS_COMPILED_OUT: i32 = 16;
pub const UACPI_STATUS_HARDWARE_TIMEOUT: i32 = 17;
pub const UACPI_STATUS_TIMEOUT: i32 = 18;
pub const UACPI_STATUS_OVERRIDDEN: i32 = 19;
pub const UACPI_STATUS_DENIED: i32 = 20;
pub const UACPI_STATUS_AML_UNDEFINED_REFERENCE: i32 = 0x0EFF_0000;
pub const UACPI_STATUS_AML_INVALID_NAMESTRING: i32 = 0x0EFF_0001;
pub const UACPI_STATUS_AML_OBJECT_ALREADY_EXISTS: i32 = 0x0EFF_0002;
pub const UACPI_STATUS_AML_INVALID_OPCODE: i32 = 0x0EFF_0003;
pub const UACPI_STATUS_AML_INCOMPATIBLE_OBJECT_TYPE: i32 = 0x0EFF_0004;
pub const UACPI_STATUS_AML_BAD_ENCODING: i32 = 0x0EFF_0005;
pub const UACPI_STATUS_AML_OUT_OF_BOUNDS_INDEX: i32 = 0x0EFF_0006;
pub const UACPI_STATUS_AML_SYNC_LEVEL_TOO_HIGH: i32 = 0x0EFF_0007;
pub const UACPI_STATUS_AML_INVALID_RESOURCE: i32 = 0x0EFF_0008;
pub const UACPI_STATUS_AML_LOOP_TIMEOUT: i32 = 0x0EFF_0009;
pub const UACPI_STATUS_AML_CALL_STACK_DEPTH_LIMIT: i32 = 0x0EFF_000A;

pub const UACPI_LOG_ERROR: i32 = 1;
pub const UACPI_LOG_WARN: i32 = 2;
pub const UACPI_LOG_INFO: i32 = 3;
pub const UACPI_LOG_TRACE: i32 = 4;
pub const UACPI_LOG_DEBUG: i32 = 5;

pub const UACPI_INIT_LEVEL_EARLY: i32 = 0;
pub const UACPI_INIT_LEVEL_SUBSYSTEM_INITIALIZED: i32 = 1;
pub const UACPI_INIT_LEVEL_NAMESPACE_LOADED: i32 = 2;
pub const UACPI_INIT_LEVEL_NAMESPACE_INITIALIZED: i32 = 3;

pub const UACPI_OBJECT_UNINITIALIZED: i32 = 0;
pub const UACPI_OBJECT_INTEGER: i32 = 1;
pub const UACPI_OBJECT_STRING: i32 = 2;
pub const UACPI_OBJECT_BUFFER: i32 = 3;
pub const UACPI_OBJECT_PACKAGE: i32 = 4;
pub const UACPI_OBJECT_FIELD_UNIT: i32 = 5;
pub const UACPI_OBJECT_DEVICE: i32 = 6;
pub const UACPI_OBJECT_EVENT: i32 = 7;
pub const UACPI_OBJECT_METHOD: i32 = 8;
pub const UACPI_OBJECT_MUTEX: i32 = 9;
pub const UACPI_OBJECT_OPERATION_REGION: i32 = 10;
pub const UACPI_OBJECT_POWER_RESOURCE: i32 = 11;
pub const UACPI_OBJECT_PROCESSOR: i32 = 12;
pub const UACPI_OBJECT_THERMAL_ZONE: i32 = 13;
pub const UACPI_OBJECT_BUFFER_FIELD: i32 = 14;
pub const UACPI_OBJECT_DEBUG: i32 = 16;
pub const UACPI_OBJECT_REFERENCE: i32 = 20;
pub const UACPI_OBJECT_BUFFER_INDEX: i32 = 21;

pub const UACPI_OVERFLOW_ALLOW: i32 = 0;
pub const UACPI_OVERFLOW_TRUNCATE: i32 = 1;
pub const UACPI_OVERFLOW_DISALLOW: i32 = 2;

pub const UACPI_REGION_OP_ATTACH: i32 = 0;
pub const UACPI_REGION_OP_READ: i32 = 1;
pub const UACPI_REGION_OP_WRITE: i32 = 2;
pub const UACPI_REGION_OP_DETACH: i32 = 3;
pub const UACPI_REGION_OP_PCC_SEND: i32 = 4;
pub const UACPI_REGION_OP_GPIO_READ: i32 = 5;
pub const UACPI_REGION_OP_GPIO_WRITE: i32 = 6;
pub const UACPI_REGION_OP_IPMI_COMMAND: i32 = 7;
pub const UACPI_REGION_OP_FFIXEDHW_COMMAND: i32 = 8;
pub const UACPI_REGION_OP_PRM_COMMAND: i32 = 9;
pub const UACPI_REGION_OP_SERIAL_READ: i32 = 10;
pub const UACPI_REGION_OP_SERIAL_WRITE: i32 = 11;

pub const UACPI_ACCESS_ATTRIBUTE_QUICK: i32 = 0x02;
pub const UACPI_ACCESS_ATTRIBUTE_SEND_RECEIVE: i32 = 0x04;
pub const UACPI_ACCESS_ATTRIBUTE_BYTE: i32 = 0x06;
pub const UACPI_ACCESS_ATTRIBUTE_WORD: i32 = 0x08;
pub const UACPI_ACCESS_ATTRIBUTE_BLOCK: i32 = 0x0A;
pub const UACPI_ACCESS_ATTRIBUTE_BYTES: i32 = 0x0B;
pub const UACPI_ACCESS_ATTRIBUTE_PROCESS_CALL: i32 = 0x0C;
pub const UACPI_ACCESS_ATTRIBUTE_BLOCK_PROCESS_CALL: i32 = 0x0D;
pub const UACPI_ACCESS_ATTRIBUTE_RAW_BYTES: i32 = 0x0E;
pub const UACPI_ACCESS_ATTRIBUTE_RAW_PROCESS_BYTES: i32 = 0x0F;

pub const UACPI_FIRMWARE_REQUEST_TYPE_BREAKPOINT: i32 = 0;
pub const UACPI_FIRMWARE_REQUEST_TYPE_FATAL: i32 = 1;

pub const UACPI_INTERRUPT_NOT_HANDLED: u32 = 0;
pub const UACPI_INTERRUPT_HANDLED: u32 = 1;

pub const UACPI_ITERATION_DECISION_CONTINUE: i32 = 0;
pub const UACPI_ITERATION_DECISION_BREAK: i32 = 1;
pub const UACPI_ITERATION_DECISION_NEXT_PEER: i32 = 2;

pub const UACPI_WORK_GPE_EXECUTION: u32 = 0;
pub const UACPI_WORK_NOTIFICATION: u32 = 1;

pub const UACPI_FLAG_NO_ACPI_MODE: u64 = 1;

} // verus!
