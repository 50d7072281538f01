use uacpi::interface::sleep::SleepState;
use uacpi::interface::types::{
    CpuFlags, FirmwareRequest, Handle, IOAddr, InitLevel, LogLevel, PCIAddress, PhysAddr, Status,
    ThreadId, WorkType,
};
use uacpi::interface::utils::{IdString, InterruptModel, NsIterDecision};
use uacpi::interface::InitParams;
use uacpi::kernel_api::{kernel_map_result, MAP_FAILED};

#[test]
fn handles() {
    assert_eq!(Handle::new(0x1000).as_u64(), 0x1000);
    assert_eq!(Handle::invalid().as_u64(), 0);
    assert_eq!(Handle::new(0xABCDEF).debug_string(), "0xabcdef");
    assert_eq!(Handle::invalid().debug_string(), "0x0");
    assert_eq!(Handle::new(u64::MAX).debug_string(), "0xffffffffffffffff");
}

#[test]
fn addresses() {
    assert_eq!(PhysAddr::new(0xE000_0000).as_u64(), 0xE000_0000);
    assert_eq!(IOAddr::new(0xCF8).as_u64(), 0xCF8);
    assert_eq!(CpuFlags::new(0x202).0, 0x202);
    assert_eq!(ThreadId::new(42).0, 42);
}

#[test]
fn pci_address() {
    let a = PCIAddress::from_parts(0, 0x1F, 3, 7);
    assert_eq!(a.segment(), 0);
    assert_eq!(a.bus(), 0x1F);
    assert_eq!(a.device(), 3);
    assert_eq!(a.function(), 7);
    assert_eq!(a.debug_string(), "0:1f:3:7");
    assert_eq!(PCIAddress::from_parts(0x10, 0xFF, 0x1A, 0).debug_string(), "10:ff:1a:0");
}

#[test]
fn interface_statuses() {
    assert_eq!(Status::from(0), Status::Success);
    assert_eq!(Status::from(6), Status::NotFound);
    assert_eq!(Status::from(17), Status::HardwareTimeout);
    assert_eq!(Status::from(0x0EFF_0009), Status::AmlLoopTimeout);
    assert_eq!(Status::from(0).into_result(), Ok(()));
    assert_eq!(Status::from(6).into_result(), Err(Status::NotFound));
    assert_eq!(Status::InvalidTableLenght.code(), 5);
    for v in 0..=17u32 {
        assert_eq!(Status::from(v).code(), v as i32);
    }
}

#[test]
fn interface_levels() {
    assert_eq!(LogLevel::debug().0, 5);
    assert_eq!(LogLevel::trace().0, 4);
    assert_eq!(LogLevel::info().0, 3);
    assert_eq!(LogLevel::warn().0, 2);
    assert_eq!(LogLevel::error().0, 1);
    assert_eq!(InitLevel::from(2), InitLevel::NamespaceLoaded);
}

#[test]
fn init_parameters() {
    let p = InitParams::new(PhysAddr::new(0xF0000), LogLevel::info(), true);
    assert_eq!(p, InitParams { rsdp: 0xF0000, log_level: 3, flags: 1 });
    assert_eq!(InitParams::new(PhysAddr::new(0), LogLevel::error(), false).flags, 0);
}

#[test]
fn firmware_requests_and_work() {
    assert!(
        FirmwareRequest::from(0, Handle::new(5), 0, 0, 0)
            == FirmwareRequest::Breakpoint { context: Handle::new(5) }
    );
    assert!(
        FirmwareRequest::from(1, Handle::invalid(), 2, 0xDEAD, 9)
            == FirmwareRequest::Fatal { typ: 2, code: 0xDEAD, arg: 9 }
    );
    assert_eq!(WorkType::from(0), WorkType::GPEExecution);
    assert_eq!(WorkType::from(1), WorkType::Notification);
    assert_eq!(WorkType::Notification.code(), 1);
}

#[test]
fn codes_of_plain_enums() {
    assert_eq!(SleepState::S0.code(), 0);
    assert_eq!(SleepState::S3.code(), 3);
    assert_eq!(SleepState::S5.code(), 5);
    assert_eq!(NsIterDecision::Continue.code(), 0);
    assert_eq!(NsIterDecision::NextPeer.code(), 1);
    assert_eq!(NsIterDecision::Break.code(), 2);
    assert_eq!(InterruptModel::IoApic.code(), 1);
    assert_eq!(InterruptModel::IoSapic.code(), 2);
}

#[test]
fn id_strings() {
    let id = IdString::new(b"PNP0A03\0".to_vec());
    assert!(id.is_text());
    assert_eq!(id.as_str(), "PNP0A03");
    assert!(!IdString::new(b"PNP0A03".to_vec()).is_text());
    assert!(!IdString::new(b"PN\0P\0".to_vec()).is_text());
    assert!(!IdString::new(vec![0xFF, 0]).is_text());
    assert!(!IdString::new(vec![]).is_text());
    assert_eq!(IdString::new(vec![0]).as_str(), "");
}

#[test]
fn kernel_map_results() {
    assert_eq!(kernel_map_result(Some(0xF000)), 0xF000);
    assert_eq!(kernel_map_result(None), MAP_FAILED);
    assert_eq!(MAP_FAILED, usize::MAX);
}
