//! Bindings for the uACPI library: its status codes, the ACPI tables it
//! hands out, and the values of its C interface.
pub mod codes;
pub mod status;
pub mod types;
pub mod tables;
pub mod kernel_api;
pub mod interface;
