//! A table type with no fields beyond the header, the starting point for a
//! new table type.
use vstd::prelude::*;
use crate::tables::{AcpiTable, AcpiTableInternal, AcpiTableMulti, AcpiTableStruct, ACPI_HEADER_LEN};

verus! {

/// A table known only by its header.
#[derive(Debug, PartialEq, Eq, PartialOrd, Ord)]
pub struct TEMPLATE(AcpiTableStruct);

impl Clone for TEMPLATE {
    fn clone(&self) -> (r: TEMPLATE)
        ensures
            r.table()@ == self.table()@,
    {
        TEMPLATE(self.0.clone())
    }
}

impl AcpiTableInternal for TEMPLATE {
    closed spec fn table(&self) -> AcpiTableStruct {
        self.0
    }

    open spec fn spec_min_length() -> nat {
        ACPI_HEADER_LEN as nat
    }

    fn min_length() -> (r: usize) {
        ACPI_HEADER_LEN
    }

    fn internal_acpi_table_to_self(table: AcpiTableStruct) -> (r: TEMPLATE) {
        TEMPLATE(table)
    }

    fn internal_get_acpi_table(&self) -> (r: &AcpiTableStruct) {
        &self.0
    }

    fn internal_start_of_data(&self) -> (r: usize) {
        ACPI_HEADER_LEN
    }
}

impl AcpiTable for TEMPLATE {
    const TABLE_SIGNATURE: [i8; 4] = [0x54, 0x45, 0x53, 0x54];
}

impl AcpiTableMulti for TEMPLATE {

}

} // verus!
