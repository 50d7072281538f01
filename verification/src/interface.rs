//! Thin wrappers of the uACPI C interface: its handle and address types, its
//! status codes, and the values that its entry points take and return.
pub mod types;
pub mod sleep;
pub mod utils;

use vstd::prelude::*;
use crate::codes;
use crate::interface::types::{LogLevel, PhysAddr};

verus! {

/// The parameters with which uACPI is initialised.
#[derive(Debug, Clone, Copy, PartialEq, Eq)]
pub struct InitParams {
    pub rsdp: u64,
    pub log_level: i32,
    pub flags: u64,
}

impl InitParams {
    /// The parameters that make uACPI start from the RSDP at `rsdp`, log at
    /// `log_level` and, if `no_acpi_mode` is set, leave the machine out of
    /// ACPI mode.
    pub fn new(rsdp: PhysAddr, log_level: LogLevel, no_acpi_mode: bool) -> (r: InitParams)
        ensures
            r.rsdp == rsdp.0,
            r.log_level == log_level.0,
            r.flags == if no_acpi_mode {
                codes::UACPI_FLAG_NO_ACPI_MODE
            } else {
                0
            },
    {
        InitParams {
            rsdp: rsdp.0,
            log_level: log_level.0,
            flags: if no_acpi_mode {
                codes::UACPI_FLAG_NO_ACPI_MODE
            } else {
                0
            },
        }
    }
}

} // verus!
