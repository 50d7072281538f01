use uacpi::status::UacpiError;
use uacpi::tables::ecdt::ECDT;
use uacpi::tables::hpet::HPET;
use uacpi::tables::template::TEMPLATE;
use uacpi::tables::{
    AcpiHeader, AcpiTable, AcpiTableInternal, AcpiTableMulti, AcpiTableSingle, AcpiTableStruct,
    TableCounter, TableSliceError,
};
use uacpi::types::{AccessSize, AddressSpace, GenericAddressStructureInternal};

fn header(signature: &[u8; 4], length: u32) -> Vec<u8> {
    let mut b = Vec::new();
    b.extend_from_slice(signature);
    b.extend_from_slice(&length.to_le_bytes());
    b.push(1); // revision
    b.push(0x5A); // checksum
    b.extend_from_slice(b"OEMID_");
    b.extend_from_slice(b"OEMTABLE");
    b.extend_from_slice(&0x0102_0304u32.to_le_bytes());
    b.extend_from_slice(b"ASL ");
    b.extend_from_slice(&0x2024_0101u32.to_le_bytes());
    assert_eq!(b.len(), 36);
    b
}

fn hpet_bytes(block_id: u32, hpet_number: u8) -> Vec<u8> {
    let mut b = header(b"HPET", 56);
    b.extend_from_slice(&block_id.to_le_bytes());
    b.extend_from_slice(&[0, 64, 0, 0]);
    b.extend_from_slice(&0xFED0_0000u64.to_le_bytes());
    b.push(hpet_number);
    b.extend_from_slice(&0x0080u16.to_le_bytes());
    b.push(0x21);
    assert_eq!(b.len(), 56);
    b
}

fn hpet(block_id: u32, hpet_number: u8, index: u64) -> HPET {
    let t = AcpiTableStruct::new(hpet_bytes(block_id, hpet_number), index).unwrap();
    HPET::try_new(0, Some(t)).unwrap()
}

#[test]
fn table_record_needs_a_whole_table() {
    assert!(AcpiTableStruct::new(vec![0; 35], 0).is_none());
    let mut short = hpet_bytes(0, 0);
    short.pop();
    assert!(AcpiTableStruct::new(short, 0).is_none());
    let t = AcpiTableStruct::new(hpet_bytes(0, 0), 7).unwrap();
    assert_eq!(t.index(), 7);
    assert_eq!(t.bytes().len(), 56);
    assert_eq!(t.clone(), t);
}

#[test]
fn header_fields() {
    let h = AcpiHeader::read(&hpet_bytes(0, 0));
    assert_eq!(h.signature, [b'H' as i8, b'P' as i8, b'E' as i8, b'T' as i8]);
    assert_eq!(h.length, 56);
    assert_eq!(h.revision, 1);
    assert_eq!(h.checksum, 0x5A);
    assert_eq!(h.oem_revision, 0x0102_0304);
    assert_eq!(h.asl_compiler_revision, 0x2024_0101);
}

#[test]
fn table_header_getters() {
    let t = hpet(0, 0, 0);
    assert_eq!(t.get_signature(), HPET::TABLE_SIGNATURE);
    assert_eq!(t.get_length(), 56);
    assert_eq!(t.get_revision(), 1);
    let oem: Vec<i8> = b"OEMID_".iter().map(|&c| c as i8).collect();
    assert_eq!(t.get_oem_id().to_vec(), oem);
    let table_id: Vec<i8> = b"OEMTABLE".iter().map(|&c| c as i8).collect();
    assert_eq!(t.get_oem_table_id().to_vec(), table_id);
    assert_eq!(t.get_oem_revision(), 0x0102_0304);
    assert_eq!(t.get_asl_compiler_id(), [b'A' as i8, b'S' as i8, b'L' as i8, b' ' as i8]);
    assert_eq!(t.get_asl_compiler_revision(), 0x2024_0101);
    assert_eq!(t.internal_start_of_data(), 36);
}

#[test]
fn hpet_fields() {
    // vendor 0x8086, bits 15 and 13 set, 2 comparators, revision 1
    let t = hpet(0x8086_A201, 3, 0);
    assert_eq!(t.get_hpet_hardware_rev_id(), 0x01);
    assert_eq!(t.get_num_comparators(), 2);
    assert!(t.get_count_size_cap());
    assert!(t.get_legacy_replacement_irqrouting_capable());
    assert_eq!(t.get_pci_vendor_id(), 0x8086);
    assert_eq!(t.get_hpet_number(), 3);
    assert_eq!(t.get_main_counter_minimum_clock_tick(), 0x0080);
    assert_eq!(t.get_page_protection_bits(), 1);
    assert_eq!(t.get_oem_attributes(), 2);
    let base = t.get_base_address();
    assert_eq!(base.address_space, AddressSpace::SystemMemory(0xFED0_0000));
    assert_eq!(base.access_size, AccessSize::Undefined);
    assert_eq!(base.register_bit_width, 64);
}

#[test]
fn hpet_flags_clear() {
    let t = hpet(0x1234_1F05, 0, 0);
    assert_eq!(t.get_hpet_hardware_rev_id(), 0x05);
    assert_eq!(t.get_num_comparators(), 0x1F);
    assert!(!t.get_count_size_cap());
    assert!(!t.get_legacy_replacement_irqrouting_capable());
    assert_eq!(t.get_pci_vendor_id(), 0x1234);
}

#[test]
fn lookup_results() {
    assert_eq!(HPET::try_new(6, None).unwrap_err(), UacpiError::NotFound);
    let first = hpet(0, 0, 0);
    let next = AcpiTableStruct::new(hpet_bytes(0, 1), 1).unwrap();
    let second = first.try_new_next(0, Some(next)).unwrap();
    assert_eq!(second.get_hpet_number(), 1);
    assert_eq!(first.try_new_next(6, None).unwrap_err(), UacpiError::NotFound);
}

#[test]
fn counting_tables() {
    assert_eq!(HPET::get_number_tables(&[6]), 0);
    assert_eq!(HPET::get_number_tables(&[0, 6]), 1);
    assert_eq!(HPET::get_number_tables(&[0, 0, 0, 6]), 3);
    assert_eq!(HPET::get_number_tables(&[0, 0]), 2);
    assert_eq!(HPET::get_number_tables(&[]), 0);
}

#[test]
fn table_counter_steps() {
    let mut c = TableCounter::new();
    assert!(c.record(0));
    assert!(c.record(0));
    assert!(!c.record(6));
    assert_eq!(c.count(), 2);
}

fn found(n: u8) -> Vec<AcpiTableStruct> {
    (0..n).map(|i| AcpiTableStruct::new(hpet_bytes(0, i), i as u64).unwrap()).collect()
}

#[test]
fn filling_a_slice() {
    let tables = HPET::try_new_slice(4, 2, found(2), 6).unwrap();
    assert_eq!(tables.len(), 2);
    assert_eq!(tables[0].get_hpet_number(), 0);
    assert_eq!(tables[1].get_hpet_number(), 1);
    assert_eq!(HPET::try_new_slice(1, 2, found(2), 6).unwrap_err(), TableSliceError::TooSmall);
    assert_eq!(
        HPET::try_new_slice(2, 2, found(1), 6).unwrap_err(),
        TableSliceError::Uacpi(UacpiError::NotFound)
    );
    assert_eq!(HPET::try_new_all(2, found(3), 6).unwrap().len(), 2);
    assert_eq!(HPET::try_new_all(3, found(1), 1).unwrap_err(), UacpiError::MappingFailed);
}

fn ecdt_bytes(id: &[u8]) -> Vec<u8> {
    let length = 65 + id.len() as u32;
    let mut b = header(b"ECDT", length);
    b.extend_from_slice(&[1, 8, 0, 1]);
    b.extend_from_slice(&0x66u64.to_le_bytes());
    b.extend_from_slice(&[1, 8, 0, 1]);
    b.extend_from_slice(&0x62u64.to_le_bytes());
    b.extend_from_slice(&7u32.to_le_bytes());
    b.push(0x16);
    b.extend_from_slice(id);
    b
}

fn ecdt(id: &[u8]) -> ECDT {
    let t = AcpiTableStruct::new(ecdt_bytes(id), 0).unwrap();
    ECDT::get(0, Some(t)).unwrap()
}

#[test]
fn ecdt_fields() {
    let t = ecdt(b"\\_SB.PCI0.LPCB.EC0\0");
    assert_eq!(t.get_ec_control_gas().address_space, AddressSpace::SystemIO(0x66));
    assert_eq!(t.get_ec_data_gas().address_space, AddressSpace::SystemIO(0x62));
    assert_eq!(t.get_ec_data_gas().access_size, AccessSize::Byte);
    assert_eq!(t.get_uid(), 7);
    assert_eq!(t.get_gpe_bit(), 0x16);
    assert_eq!(t.get_ec_id(), Ok(&b"\\_SB.PCI0.LPCB.EC0"[..]));
    assert_eq!(t.get_ec_control_gas_raw(), GenericAddressStructureInternal {
        address_space_id: 1,
        register_bit_width: 8,
        register_bit_offset: 0,
        access_size: 1,
        address: 0x66,
    });
}

#[test]
fn ecdt_id_must_end_within_the_table() {
    assert_eq!(ecdt(b"\\EC0").get_ec_id(), Err(()));
    assert_eq!(ecdt(b"").get_ec_id(), Err(()));
    assert_eq!(ecdt(b"\0").get_ec_id(), Ok(&b""[..]));
    assert_eq!(ecdt(b"AB\0CD\0").get_ec_id(), Ok(&b"AB"[..]));
}

#[test]
fn ecdt_lookup_failure() {
    assert_eq!(ECDT::get(6, None).unwrap_err(), UacpiError::NotFound);
}

#[test]
fn template_table() {
    let t = AcpiTableStruct::new(header(b"TEST", 36), 0).unwrap();
    let t = TEMPLATE::try_new(0, Some(t)).unwrap();
    assert_eq!(t.get_signature(), TEMPLATE::TABLE_SIGNATURE);
    assert_eq!(TEMPLATE::min_length(), 36);
    assert_eq!(HPET::min_length(), 56);
    assert_eq!(ECDT::min_length(), 65);
}
