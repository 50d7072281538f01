use uacpi::types::{
    AccessSize, AddressSpace, GenericAddressStructure, GenericAddressStructureInternal, InitLevel,
    LogLevel, ObjectType, ObjectTypeBits, OverflowBehavior, PCIBarTarget, PCIConfigSpace, RegionOp,
};

fn raw(id: u8, access_size: u8, address: u64) -> GenericAddressStructureInternal {
    GenericAddressStructureInternal {
        address_space_id: id,
        register_bit_width: 32,
        register_bit_offset: 4,
        access_size,
        address,
    }
}

#[test]
fn gas_decodes_system_memory() {
    let g = GenericAddressStructure::from(raw(0, 3, 0xFED0_0000));
    assert_eq!(g.address_space, AddressSpace::SystemMemory(0xFED0_0000));
    assert_eq!(g.access_size, AccessSize::DWord);
    assert_eq!(g.register_bit_width, 32);
    assert_eq!(g.register_bit_offset, 4);
}

#[test]
fn gas_decodes_every_named_space() {
    let cases: [(u8, &str); 13] = [
        (0x00, "SystemMemory"),
        (0x01, "SystemIO"),
        (0x02, "PCI_Config"),
        (0x03, "EmbeddedControl"),
        (0x04, "SMBus"),
        (0x05, "SystemCMOS"),
        (0x06, "PciBarTarget"),
        (0x07, "IPMI"),
        (0x08, "GeneralPurposeIO"),
        (0x09, "GenericSerialBus"),
        (0x0A, "PCC"),
        (0x0B, "PRM"),
        (0x7F, "FFixedHW"),
    ];
    for (id, name) in cases {
        let g = GenericAddressStructure::from(raw(id, 1, 0x1234));
        assert_eq!(g.address_space.as_str(), name);
        let back = GenericAddressStructureInternal::from(g);
        assert_eq!(back, raw(id, 1, 0x1234));
    }
}

#[test]
fn gas_reserved_space_drops_the_address() {
    let g = GenericAddressStructure::from(raw(0x0C, 0, 0xdead));
    assert_eq!(g.address_space, AddressSpace::Reserved(0x0C));
    assert_eq!(g.address_space.as_str(), "<reserved>");
    let g = GenericAddressStructure::from(raw(0x7E, 0, 0xdead));
    assert_eq!(g.address_space, AddressSpace::Reserved(0x7E));
    assert_eq!(GenericAddressStructureInternal::from(g), raw(0x7E, 0, 0));
}

#[test]
fn gas_vendor_specific_space() {
    let g = GenericAddressStructure::from(raw(0x80, 4, 7));
    assert_eq!(g.address_space, AddressSpace::VendorSpecific((0x80, 7)));
    assert_eq!(g.access_size, AccessSize::QWord);
    let g = GenericAddressStructure::from(raw(0xFF, 4, 9));
    assert_eq!(g.address_space, AddressSpace::VendorSpecific((0xFF, 9)));
    assert_eq!(g.address_space.as_str(), "<vendor specific>");
    assert_eq!(GenericAddressStructureInternal::from(g), raw(0xFF, 4, 9));
}

#[test]
fn gas_encode_then_decode() {
    let g = GenericAddressStructure {
        address_space: AddressSpace::PCIConfig(PCIConfigSpace::from_bits(0x0003_0002_0010)),
        access_size: AccessSize::Word,
        register_bit_width: 16,
        register_bit_offset: 0,
    };
    let v = GenericAddressStructureInternal::from(g);
    assert_eq!(v.address_space_id, 2);
    assert_eq!(v.access_size, 2);
    assert_eq!(v.address, 0x0003_0002_0010);
    assert_eq!(GenericAddressStructure::from(v), g);
}

#[test]
fn gas_reads_from_bytes() {
    let bytes = [0u8, 0x01, 64, 0, 3, 0x00, 0x00, 0xD0, 0xFE, 0, 0, 0, 0];
    let v = GenericAddressStructureInternal::read(&bytes, 1);
    assert_eq!(v, raw(1, 3, 0xFED0_0000).with_width(64, 0));
}

trait WithWidth {
    fn with_width(self, width: u8, offset: u8) -> Self;
}

impl WithWidth for GenericAddressStructureInternal {
    fn with_width(mut self, width: u8, offset: u8) -> Self {
        self.register_bit_width = width;
        self.register_bit_offset = offset;
        self
    }
}

#[test]
fn access_sizes() {
    for v in 0..=4u8 {
        assert_eq!(AccessSize::from(v).code(), v);
    }
    assert_eq!(AccessSize::from(0), AccessSize::Undefined);
    assert_eq!(AccessSize::from(1), AccessSize::Byte);
}

#[test]
fn pci_config_space_fields() {
    let p = PCIConfigSpace::from_bits(0xFFFF_0005_0003_0040);
    assert_eq!(p.offset(), 0x40);
    assert_eq!(p.function(), 3);
    assert_eq!(p.device(), 5);
    assert_eq!(p.into_bits(), 0xFFFF_0005_0003_0040);
    assert_eq!(u64::from(PCIConfigSpace::from(17u64)), 17);
    assert_eq!(PCIConfigSpace::new().into_bits(), 0);
}

#[test]
fn pci_bar_target_fields() {
    // segment 0xAB, bus 0x12, device 0x1F, function 5, bar 6, offset 0x1_2345_6789
    let bits: u64 = (0xAB << 56) | (0x12 << 48) | (0x1F << 43) | (5 << 40) | (6 << 37) | 0x1_2345_6789;
    let t = PCIBarTarget::from_bits(bits);
    assert_eq!(t.segment(), 0xAB);
    assert_eq!(t.bus(), 0x12);
    assert_eq!(t.device(), 0x1F);
    assert_eq!(t.function(), 5);
    assert_eq!(t.bar_index(), 6);
    assert_eq!(t.offset(), 0x1_2345_6789);
    assert_eq!(u64::from(t), bits);
    assert_eq!(PCIBarTarget::new().offset(), 0);
}

#[test]
fn log_levels() {
    assert_eq!(LogLevel::from(1), LogLevel::Error);
    assert_eq!(LogLevel::from(2), LogLevel::Warn);
    assert_eq!(LogLevel::from(3), LogLevel::Info);
    assert_eq!(LogLevel::from(4), LogLevel::Trace);
    assert_eq!(LogLevel::from(5), LogLevel::Debug);
    for v in 1..=5 {
        assert_eq!(LogLevel::from(v).code(), v);
    }
    assert!(LogLevel::Error < LogLevel::Warn);
    assert!(LogLevel::Trace < LogLevel::Debug);
}

#[test]
fn init_levels() {
    assert_eq!(InitLevel::from(0), InitLevel::Early);
    assert_eq!(InitLevel::from(3), InitLevel::NamespaceInitialized);
    for v in 0..=3 {
        assert_eq!(InitLevel::from(v).code(), v);
    }
    assert!(InitLevel::Early < InitLevel::NamespaceLoaded);
}

#[test]
fn object_types() {
    assert_eq!(ObjectType::from(1), ObjectType::Integer);
    assert_eq!(ObjectType::from(16), ObjectType::Debug);
    assert_eq!(ObjectType::from(20), ObjectType::Reference);
    assert_eq!(ObjectType::from(21), ObjectType::BufferIndex);
    assert_eq!(ObjectType::FieldUnit.as_str(), "Field Unit");
    assert_eq!(ObjectType::from(10).as_str(), "Operation Region");
    for v in [0, 1, 2, 3, 4, 5, 6, 7, 8, 9, 10, 11, 12, 13, 14, 16, 20, 21] {
        assert_eq!(ObjectType::from(v).code(), v);
    }
}

#[test]
fn object_type_bits() {
    assert_eq!(ObjectTypeBits::from(ObjectType::Integer).bits(), 1 << 1);
    assert_eq!(ObjectTypeBits::from(ObjectType::Debug).bits(), 1 << 16);
    assert_eq!(ObjectTypeBits::from(ObjectType::BufferIndex).bits(), 1 << 21);
    assert_eq!(ObjectTypeBits::from(ObjectType::Package), ObjectTypeBits::Package);
    assert_eq!(ObjectTypeBits::Any.bits(), -1);
    assert_eq!(ObjectTypeBits::Empty.bits(), 0);
}

#[test]
fn overflow_behavior_codes() {
    assert_eq!(i32::from(OverflowBehavior::Allow), 0);
    assert_eq!(i32::from(OverflowBehavior::Truncate), 1);
    let d: i32 = OverflowBehavior::Disallow.into();
    assert_eq!(d, 2);
}

#[test]
fn region_ops() {
    assert_eq!(RegionOp::from(0), RegionOp::Attach);
    assert_eq!(RegionOp::from(1), RegionOp::Read);
    assert_eq!(RegionOp::from(3), RegionOp::Detach);
    assert_eq!(RegionOp::from(11), RegionOp::SerialWrite);
    for v in 0..=11 {
        assert_eq!(RegionOp::from(v).code(), v);
    }
}

#[test]
fn pci_config_space_setters() {
    let p = PCIConfigSpace::new().with_offset(0x40).with_function(3).with_device(5);
    assert_eq!(p.into_bits(), 0x0005_0003_0040);
    let mut q = PCIConfigSpace::from_bits(0xFFFF_0005_0003_0040);
    q.set_function(0xABCD);
    assert_eq!(q.into_bits(), 0xFFFF_0005_ABCD_0040);
    assert_eq!(q.function(), 0xABCD);
    assert_eq!(q.device(), 5);
    assert!(q.set_device_checked(7).is_ok());
    assert_eq!(q.device(), 7);
    assert_eq!(q.with_offset_checked(1).unwrap().offset(), 1);
}

#[test]
fn pci_bar_target_setters() {
    let t = PCIBarTarget::new()
        .with_segment(0xAB)
        .with_bus(0x12)
        .with_device(0x1F)
        .with_function(5)
        .with_bar_index(6)
        .with_offset(0x1_2345_6789);
    let bits: u64 = (0xAB << 56) | (0x12 << 48) | (0x1F << 43) | (5 << 40) | (6 << 37) | 0x1_2345_6789;
    assert_eq!(t.into_bits(), bits);
    let mut u = t;
    u.set_bus(0);
    assert_eq!(u.bus(), 0);
    assert_eq!(u.segment(), 0xAB);
    assert_eq!(u.device(), 0x1F);
}

#[test]
fn pci_bar_target_checked_setters_refuse_wide_values() {
    let mut t = PCIBarTarget::from_bits(0x1234);
    assert!(t.set_bar_index_checked(8).is_err());
    assert!(t.set_device_checked(0x20).is_err());
    assert!(t.set_function_checked(8).is_err());
    assert!(t.set_offset_checked(1 << 37).is_err());
    assert_eq!(t.into_bits(), 0x1234);
    assert!(t.with_bar_index_checked(8).is_err());
    assert_eq!(t.with_bar_index_checked(7).unwrap().bar_index(), 7);
}
