//! The High Precision Event Timer table.
use vstd::prelude::*;
use crate::tables::{
    AcpiTable, AcpiTableInternal, AcpiTableMulti, AcpiTableStruct, ACPI_HEADER_LEN, u16_le, u32_le,
    read_u16_le, read_u32_le,
};
use crate::types::{GenericAddressStructure, GenericAddressStructureInternal, gas_decodes};

verus! {

/// Offset of the event timer block id.
pub const HPET_EVENT_TIMER_BLOCK_ID: usize = 36;
/// Offset of the base address, a Generic Address Structure.
pub const HPET_BASE_ADDRESS: usize = 40;
/// Offset of the HPET sequence number.
pub const HPET_NUMBER: usize = 52;
/// Offset of the minimum clock tick of the main counter.
pub const HPET_MIN_CLOCK_TICK: usize = 53;
/// Offset of the page protection and OEM attribute byte.
pub const HPET_PAGE_PROTECTION: usize = 55;
/// Size of an HPET table.
pub const HPET_LENGTH: usize = 56;

/// An HPET table.
#[derive(Debug, PartialEq, Eq, PartialOrd, Ord)]
pub struct HPET(AcpiTableStruct);

/// The event timer block id of the HPET table in `s`.
pub open spec fn hpet_block_id(s: Seq<u8>) -> int {
    u32_le(s, HPET_EVENT_TIMER_BLOCK_ID as int)
}

/// The page protection and OEM attribute byte of the HPET table in `s`.
pub open spec fn hpet_page_protection_byte(s: Seq<u8>) -> int {
    s[HPET_PAGE_PROTECTION as int] as int
}

impl HPET {
    #[verifier::type_invariant]
    closed spec fn wf(self) -> bool {
        HPET_LENGTH <= self.0@.0.len()
    }

    /// The bytes of the table.
    fn data(&self) -> (r: &[u8])
        ensures
            r@ == self.table()@.0,
            HPET_LENGTH <= r@.len(),
    {
        proof {
            use_type_invariant(self);
        }
        self.0.bytes()
    }

    /// The hardware revision id: bits 0-7 of the event timer block id.
    pub fn get_hpet_hardware_rev_id(&self) -> (r: u8)
        ensures
            r == hpet_block_id(self.table()@.0) % 0x100,
    {
        let id = read_u32_le(self.data(), HPET_EVENT_TIMER_BLOCK_ID);
        proof {
            lemma_block_id_bits(id);
        }
        (id & 0xff) as u8
    }

    /// The number of comparators in the first timer block: bits 8-12.
    pub fn get_num_comparators(&self) -> (r: u8)
        ensures
            r == (hpet_block_id(self.table()@.0) / 0x100) % 0x20,
    {
        let id = read_u32_le(self.data(), HPET_EVENT_TIMER_BLOCK_ID);
        proof {
            lemma_block_id_bits(id);
        }
        ((id >> 8u32) & 0x1f) as u8
    }

    /// Whether the main counter is 64 bits wide: bit 13.
    pub fn get_count_size_cap(&self) -> (r: bool)
        ensures
            r == ((hpet_block_id(self.table()@.0) / 0x2000) % 2 == 1),
    {
        let id = read_u32_le(self.data(), HPET_EVENT_TIMER_BLOCK_ID);
        proof {
            lemma_block_id_bits(id);
        }
        (id >> 13u32) & 1 == 1
    }

    /// Whether the timer can route interrupts in legacy replacement mode: bit 15.
    pub fn get_legacy_replacement_irqrouting_capable(&self) -> (r: bool)
        ensures
            r == ((hpet_block_id(self.table()@.0) / 0x8000) % 2 == 1),
    {
        let id = read_u32_le(self.data(), HPET_EVENT_TIMER_BLOCK_ID);
        proof {
            lemma_block_id_bits(id);
        }
        (id >> 15u32) & 1 == 1
    }

    /// The PCI vendor id of the timer block: bits 16-31.
    pub fn get_pci_vendor_id(&self) -> (r: u16)
        ensures
            r == hpet_block_id(self.table()@.0) / 0x1_0000,
    {
        let id = read_u32_le(self.data(), HPET_EVENT_TIMER_BLOCK_ID);
        proof {
            lemma_block_id_bits(id);
        }
        (id >> 16u32) as u16
    }

    /// The raw fields of the base address of the timer block.
    pub fn get_base_address_raw(&self) -> (r: GenericAddressStructureInternal)
        ensures
            r == crate::types::gas_stored_in(self.table()@.0, HPET_BASE_ADDRESS as int),
    {
        GenericAddressStructureInternal::read(self.data(), HPET_BASE_ADDRESS)
    }

    /// The base address of the timer block. Only the access sizes 0 to 4 are
    /// defined.
    pub fn get_base_address(&self) -> (r: GenericAddressStructure)
        requires
            self.table()@.0[HPET_BASE_ADDRESS + 3] <= 4,
        ensures
            gas_decodes(crate::types::gas_stored_in(self.table()@.0, HPET_BASE_ADDRESS as int), r),
    {
        GenericAddressStructure::from(self.get_base_address_raw())
    }

    /// The HPET sequence number.
    pub fn get_hpet_number(&self) -> (r: u8)
        ensures
            r == self.table()@.0[HPET_NUMBER as int],
    {
        self.data()[HPET_NUMBER]
    }

    /// The minimum clock tick of the main counter in periodic mode.
    pub fn get_main_counter_minimum_clock_tick(&self) -> (r: u16)
        ensures
            r == u16_le(self.table()@.0, HPET_MIN_CLOCK_TICK as int),
    {
        read_u16_le(self.data(), HPET_MIN_CLOCK_TICK)
    }

    /// The page protection: bits 0-3 of the page protection and OEM attribute byte.
    pub fn get_page_protection_bits(&self) -> (r: u8)
        ensures
            r == hpet_page_protection_byte(self.table()@.0) % 0x10,
    {
        let b = self.data()[HPET_PAGE_PROTECTION];
        proof {
            lemma_nibbles(b);
        }
        b & 0xf
    }

    /// The OEM attributes: bits 4-7 of the page protection and OEM attribute byte.
    pub fn get_oem_attributes(&self) -> (r: u8)
        ensures
            r == hpet_page_protection_byte(self.table()@.0) / 0x10,
    {
        let b = self.data()[HPET_PAGE_PROTECTION];
        proof {
            lemma_nibbles(b);
        }
        b >> 4u8
    }
}

/// Facts on the bit layout of the event timer block id.
proof fn lemma_block_id_bits(x: u32)
    by (bit_vector)
    ensures
        (x & 0xff) == x % 0x100,
        ((x >> 8u32) & 0x1f) == (x / 0x100) % 0x20,
        ((x >> 13u32) & 1) == (x / 0x2000) % 2,
        ((x >> 15u32) & 1) == (x / 0x8000) % 2,
        (x >> 16u32) == x / 0x1_0000,
{
}

/// The fields of the event timer block id, with the reserved bit 14, make up
/// the whole id.
pub proof fn lemma_block_id_fields_cover(x: u32)
    ensures
        x == x % 0x100 + ((x / 0x100) % 0x20) * 0x100 + ((x / 0x2000) % 2) * 0x2000 + ((x
            / 0x4000) % 2) * 0x4000 + ((x / 0x8000) % 2) * 0x8000 + (x / 0x1_0000) * 0x1_0000,
{
    assert(x == x % 0x100 + ((x / 0x100) % 0x20) * 0x100 + ((x / 0x2000) % 2) * 0x2000 + ((x
        / 0x4000) % 2) * 0x4000 + ((x / 0x8000) % 2) * 0x8000 + (x / 0x1_0000) * 0x1_0000)
        by (bit_vector);
}

/// Facts on the two halves of a byte.
proof fn lemma_nibbles(b: u8)
    by (bit_vector)
    ensures
        (b & 0xf) == b % 0x10,
        (b >> 4u8) == b / 0x10,
{
}

impl Clone for HPET {
    fn clone(&self) -> (r: HPET)
        ensures
            r.table()@ == self.table()@,
    {
        proof {
            use_type_invariant(self);
        }
        HPET(self.0.clone())
    }
}

impl AcpiTableInternal for HPET {
    closed spec fn table(&self) -> AcpiTableStruct {
        self.0
    }

    open spec fn spec_min_length() -> nat {
        HPET_LENGTH as nat
    }

    fn min_length() -> (r: usize) {
        HPET_LENGTH
    }

    fn internal_acpi_table_to_self(table: AcpiTableStruct) -> (r: HPET) {
        HPET(table)
    }

    fn internal_get_acpi_table(&self) -> (r: &AcpiTableStruct) {
        &self.0
    }

    fn internal_start_of_data(&self) -> (r: usize) {
        ACPI_HEADER_LEN
    }
}

impl AcpiTable for HPET {
    const TABLE_SIGNATURE: [i8; 4] = [0x48, 0x50, 0x45, 0x54];
}

impl AcpiTableMulti for HPET {

}

/// The layout of the HPET table in the ACPI specification: after the 36-byte
/// header, the event timer block id at 36, the base address at 40, the HPET
/// number at 52, the minimum clock tick at 53 and the page protection at 55,
/// 56 bytes in all; its signature is "HPET".
pub proof fn lemma_hpet_layout()
    ensures
        ACPI_HEADER_LEN == 36,
        HPET_EVENT_TIMER_BLOCK_ID == 36,
        HPET_BASE_ADDRESS == 40,
        HPET_NUMBER == 52,
        HPET_MIN_CLOCK_TICK == 53,
        HPET_PAGE_PROTECTION == 55,
        HPET_LENGTH == 56,
        HPET::TABLE_SIGNATURE@ == seq![0x48i8, 0x50i8, 0x45i8, 0x54i8],
{
}

} // verus!
