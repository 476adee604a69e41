use rustshyper_vmm::acpi::build_madt;
use rustshyper_vmm::api::{DeviceRequest, GuestMemory};
use rustshyper_vmm::boot::{prepare_guest, BootPlan};
use rustshyper_vmm::config::VmmConfig;
use rustshyper_vmm::error::VmmError;
use rustshyper_vmm::setup_header::{
    SetupHeader, LINUX_BOOT_FLAG_MAGIC, LINUX_BOOT_HEADER_MAGIC, LINUX_MIN_BOOT_PROTOCOL,
};

fn config() -> VmmConfig {
    VmmConfig::new("guest".to_string())
}

fn bzimage() -> Vec<u8> {
    let header = SetupHeader {
        setup_sects: 1,
        boot_flag: LINUX_BOOT_FLAG_MAGIC,
        header: LINUX_BOOT_HEADER_MAGIC,
        version: LINUX_MIN_BOOT_PROTOCOL,
        ..SetupHeader::default()
    };
    let mut image = vec![0_u8; 1024];
    image[0x1f1..0x1f1 + 123].copy_from_slice(&header.to_bytes());
    image.extend_from_slice(&[0xf4; 64]);
    image
}

fn requests(plan: &BootPlan) -> Vec<DeviceRequest> {
    (0..).map_while(|index| plan.request(index)).collect()
}

#[test]
fn raw_images_are_copied() {
    let mut bytes = vec![0_u8; 0x20_0000];
    let mut memory = GuestMemory::new(&mut bytes, 0x7f00_0000);
    let config = VmmConfig {
        load_addr: 0x8000,
        entry_point: 0x8004,
        stack_pointer: 0x7000,
        ..config()
    };
    let plan = prepare_guest(&mut memory, &[1, 2, 3, 4], None, &config).unwrap();
    assert_eq!(&memory.as_slice()[0x7fff..0x8005], &[0, 1, 2, 3, 4, 0]);
    assert!(plan.sregs.is_none());
    assert!(plan.announcement.is_none());
    assert_eq!(plan.regs.rip, 0x8004);
    assert_eq!(plan.regs.rsp, 0x7000);
    assert_eq!(plan.regs.rflags, 2);
    assert_eq!(plan.regs.rsi, 0);
    assert_eq!(plan.region.memory_size, 0x20_0000);
    assert_eq!(plan.region.userspace_addr, 0x7f00_0000);
    assert_eq!((plan.region.slot, plan.region.flags, plan.region.guest_phys_addr), (0, 0, 0));
    let requests = requests(&plan);
    assert_eq!(requests.len(), 3);
    assert!(matches!(requests[0], DeviceRequest::SetUserMemoryRegion { .. }));
    assert!(matches!(requests[1], DeviceRequest::CreateVcpu { vcpu_id: 0 }));
    assert!(matches!(requests[2], DeviceRequest::SetRegs { regs } if regs.rip == 0x8004));
}

#[test]
fn raw_images_must_fit() {
    let mut bytes = vec![0_u8; 16];
    let mut memory = GuestMemory::new(&mut bytes, 0);
    let config = VmmConfig { load_addr: 13, ..config() };
    let error = prepare_guest(&mut memory, &[1, 2, 3, 4], None, &config).unwrap_err();
    assert!(matches!(error, VmmError::GuestImageDoesNotFit));
    assert_eq!(memory.as_slice(), &[0; 16]);
}

#[test]
fn linux_images_are_loaded() {
    let mut bytes = vec![0_u8; 0x20_0000];
    let mut memory = GuestMemory::new(&mut bytes, 0x1000);
    let config = VmmConfig { vcpu_count: 4, cmdline: Some("ro".to_string()), ..config() };
    let plan = prepare_guest(&mut memory, &bzimage(), Some(&[7, 7]), &config).unwrap();
    assert_eq!(
        plan.announcement.as_deref(),
        Some("rustshyper-vmm: Linux entry point at 0x100000")
    );
    assert_eq!(plan.regs.rsi, 0x1_0000);
    assert_eq!(plan.sregs.unwrap().cs.selector, 0x10);
    let memory = memory.as_slice();
    assert_eq!(&memory[0x2_0000..0x2_0003], b"ro\0");
    assert_eq!(&memory[0x1f_f000..0x1f_f002], &[7, 7]);
    assert_eq!(&memory[0xf_3000..0xf_3000 + 88], &build_madt(4)[..]);
    let requests = requests(&plan);
    assert_eq!(requests.len(), 7);
    assert!(matches!(requests[0], DeviceRequest::SetUserMemoryRegion { region } if region.userspace_addr == 0x1000));
    assert!(matches!(requests[1], DeviceRequest::CreateVcpu { vcpu_id: 0 }));
    assert!(matches!(requests[2], DeviceRequest::SetSregs { sregs } if sregs.cr0 == 0x31));
    assert!(matches!(requests[3], DeviceRequest::SetRegs { regs } if regs.rip == 0x10_0000));
    assert!(matches!(requests[4], DeviceRequest::CreateVcpu { vcpu_id: 1 }));
    assert!(matches!(requests[5], DeviceRequest::CreateVcpu { vcpu_id: 2 }));
    assert!(matches!(requests[6], DeviceRequest::CreateVcpu { vcpu_id: 3 }));
    assert!(plan.request(7).is_none());
    assert!(plan.request(u64::MAX).is_none());
}

#[test]
fn linux_failures_are_passed_on() {
    let mut bytes = vec![0_u8; 0x10_0000];
    let mut memory = GuestMemory::new(&mut bytes, 0);
    let error = prepare_guest(&mut memory, &bzimage(), None, &config()).unwrap_err();
    assert_eq!(
        error.message(),
        "guest data at 0x100000 with size 0x40 does not fit in guest memory"
    );
}

#[test]
fn images_with_an_old_protocol_are_raw() {
    let mut image = bzimage();
    image[0x206] = 0x0e;
    let mut bytes = vec![0_u8; 0x20_0000];
    let mut memory = GuestMemory::new(&mut bytes, 0);
    let plan = prepare_guest(&mut memory, &image, None, &config()).unwrap();
    assert!(plan.sregs.is_none());
    assert_eq!(&memory.as_slice()[0x10_0000..0x10_0000 + image.len()], &image[..]);
}
