//! The Embedded Controller Boot Resources Table.
use vstd::prelude::*;
use crate::tables::{
    AcpiTable, AcpiTableInternal, AcpiTableSingle, AcpiTableStruct, ACPI_HEADER_LEN, u32_le,
    read_u32_le,
};
use crate::types::{
    GenericAddressStructure, GenericAddressStructureInternal, gas_decodes, gas_stored_in,
};

verus! {

/// Offset of the address of the embedded controller's command/status register.
pub const ECDT_EC_CONTROL: usize = 36;
/// Offset of the address of the embedded controller's data register.
pub const ECDT_EC_DATA: usize = 48;
/// Offset of the unique id of the embedded controller.
pub const ECDT_UID: usize = 60;
/// Offset of the general-purpose event bit of the embedded controller.
pub const ECDT_GPE_BIT: usize = 64;
/// Offset of the NUL-terminated namespace path of the embedded controller.
pub const ECDT_EC_ID: usize = 65;

/// An ECDT table.
#[derive(Debug, PartialEq, Eq, PartialOrd, Ord)]
pub struct ECDT(AcpiTableStruct);

/// The bytes of `s` from `from` up to `to` hold no NUL.
pub open spec fn no_nul_in(s: Seq<u8>, from: int, to: int) -> bool {
    forall|k: int| from <= k < to ==> s[k] != 0
}

impl ECDT {
    #[verifier::type_invariant]
    closed spec fn wf(self) -> bool {
        ECDT_EC_ID <= self.0@.0.len()
    }

    /// The bytes of the table.
    fn data(&self) -> (r: &[u8])
        ensures
            r@ == self.table()@.0,
            ECDT_EC_ID <= r@.len(),
    {
        proof {
            use_type_invariant(self);
        }
        self.0.bytes()
    }

    /// The raw fields of the address of the command/status register.
    pub fn get_ec_control_gas_raw(&self) -> (r: GenericAddressStructureInternal)
        ensures
            r == gas_stored_in(self.table()@.0, ECDT_EC_CONTROL as int),
    {
        GenericAddressStructureInternal::read(self.data(), ECDT_EC_CONTROL)
    }

    /// The address of the command/status register. Only the access sizes 0
    /// to 4 are defined.
    pub fn get_ec_control_gas(&self) -> (r: GenericAddressStructure)
        requires
            self.table()@.0[ECDT_EC_CONTROL + 3] <= 4,
        ensures
            gas_decodes(gas_stored_in(self.table()@.0, ECDT_EC_CONTROL as int), r),
    {
        GenericAddressStructure::from(self.get_ec_control_gas_raw())
    }

    /// The raw fields of the address of the data register.
    pub fn get_ec_data_gas_raw(&self) -> (r: GenericAddressStructureInternal)
        ensures
            r == gas_stored_in(self.table()@.0, ECDT_EC_DATA as int),
    {
        GenericAddressStructureInternal::read(self.data(), ECDT_EC_DATA)
    }

    /// The address of the data register. Only the access sizes 0 to 4 are
    /// defined.
    pub fn get_ec_data_gas(&self) -> (r: GenericAddressStructure)
        requires
            self.table()@.0[ECDT_EC_DATA + 3] <= 4,
        ensures
            gas_decodes(gas_stored_in(self.table()@.0, ECDT_EC_DATA as int), r),
    {
        GenericAddressStructure::from(self.get_ec_data_gas_raw())
    }

    /// The unique id of the embedded controller.
    pub fn get_uid(&self) -> (r: u32)
        ensures
            r == u32_le(self.table()@.0, ECDT_UID as int),
    {
        read_u32_le(self.data(), ECDT_UID)
    }

    /// The general-purpose event bit of the embedded controller.
    pub fn get_gpe_bit(&self) -> (r: u8)
        ensures
            r == self.table()@.0[ECDT_GPE_BIT as int],
    {
        self.data()[ECDT_GPE_BIT]
    }

    /// The namespace path of the embedded controller, without its NUL.
    ///
    /// ## Error
    /// Returns an error if the string is not terminated within the table and
    /// as such must be considered invalid.
    pub fn get_ec_id(&self) -> (r: Result<&[u8], ()>)
        ensures
            r is Err <==> no_nul_in(self.table()@.0, ECDT_EC_ID as int, self.table()@.0.len() as int),
            r matches Ok(id) ==> {
                let s = self.table()@.0;
                let end = ECDT_EC_ID + id@.len();
                &&& end < s.len()
                &&& s[end] == 0
                &&& id@ == s.subrange(ECDT_EC_ID as int, end)
                &&& no_nul_in(s, ECDT_EC_ID as int, end)
            },
    {
        let data = self.data();
        let len = data.len();
        let mut k: usize = ECDT_EC_ID;
        while k < len
            invariant
                ECDT_EC_ID <= k <= len,
                len == data@.len(),
                data@ == self.table()@.0,
                no_nul_in(data@, ECDT_EC_ID as int, k as int),
            decreases len - k,
        {
            if data[k] == 0 {
                let id = vstd::slice::slice_subrange(data, ECDT_EC_ID, k);
                assert(data@[k as int] == 0);
                assert(id@.len() == k - ECDT_EC_ID);
                return Ok(id);
            }
            k = k + 1;
        }
        Err(())
    }
}

impl Clone for ECDT {
    fn clone(&self) -> (r: ECDT)
        ensures
            r.table()@ == self.table()@,
    {
        proof {
            use_type_invariant(self);
        }
        ECDT(self.0.clone())
    }
}

impl AcpiTableInternal for ECDT {
    closed spec fn table(&self) -> AcpiTableStruct {
        self.0
    }

    open spec fn spec_min_length() -> nat {
        ECDT_EC_ID as nat
    }

    fn min_length() -> (r: usize) {
        ECDT_EC_ID
    }

    fn internal_acpi_table_to_self(table: AcpiTableStruct) -> (r: ECDT) {
        ECDT(table)
    }

    fn internal_get_acpi_table(&self) -> (r: &AcpiTableStruct) {
        &self.0
    }

    fn internal_start_of_data(&self) -> (r: usize) {
        ACPI_HEADER_LEN
    }
}

impl AcpiTable for ECDT {
    const TABLE_SIGNATURE: [i8; 4] = [0x45, 0x43, 0x44, 0x54];
}

impl AcpiTableSingle for ECDT {

}

/// The layout of the ECDT in the ACPI specification: after the 36-byte
/// header, the command/status register address at 36, the data register
/// address at 48, the uid at 60, the GPE bit at 64 and the id from 65; its
/// signature is "ECDT".
pub proof fn lemma_ecdt_layout()
    ensures
        ACPI_HEADER_LEN == 36,
        ECDT_EC_CONTROL == 36,
        ECDT_EC_DATA == 48,
        ECDT_UID == 60,
        ECDT_GPE_BIT == 64,
        ECDT_EC_ID == 65,
        ECDT::TABLE_SIGNATURE@ == seq![0x45i8, 0x43i8, 0x44i8, 0x54i8],
{
}

} // verus!
