use rustshyper_vmm::api::{open_context, with_context, DeviceRequest, GuestMemory};
use rustshyper_vmm::error::{ErrorKind, VmmError};
use rustshyper_vmm::ioctl::{
    RunState, UserMemoryRegion, VcpuDtable, VcpuRegs, VcpuSegment, VcpuSregs,
};

fn region() -> UserMemoryRegion {
    UserMemoryRegion {
        slot: 1,
        flags: 2,
        guest_phys_addr: 0x30,
        memory_size: 0x4000,
        userspace_addr: 0x7fff_0000_1234,
    }
}

fn all_requests() -> Vec<DeviceRequest> {
    vec![
        DeviceRequest::ApiVersion,
        DeviceRequest::CreateVm,
        DeviceRequest::CreateVcpu { vcpu_id: 3 },
        DeviceRequest::SetUserMemoryRegion { region: region() },
        DeviceRequest::InjectIrq { irq: 4 },
        DeviceRequest::Run,
        DeviceRequest::GetRegs,
        DeviceRequest::SetRegs { regs: VcpuRegs::default() },
        DeviceRequest::GetSregs,
        DeviceRequest::SetSregs { sregs: VcpuSregs::default() },
        DeviceRequest::InjectInterrupt { vector: 0x20 },
    ]
}

#[test]
fn requests_announce_the_size_of_their_argument() {
    for request in all_requests() {
        assert_eq!((request.number() >> 16) & 0x3fff, request.argument().len() as u64);
    }
}

#[test]
fn request_numbers_are_those_of_the_device() {
    let numbers: Vec<u64> = all_requests().iter().map(|request| request.number()).collect();
    assert_eq!(
        numbers,
        [
            0x4800, 0x4801, 0x4004_4841, 0x4020_4846, 0x4004_4843, 0x8050_4880, 0x8090_4881,
            0x4090_4882, 0x8130_4883, 0x4130_4884, 0x4004_4885
        ]
    );
}

#[test]
fn failures_tell_what_was_asked() {
    let texts: Vec<String> =
        all_requests().iter().map(|request| request.failure_context()).collect();
    assert_eq!(
        texts,
        [
            "RSH_GET_API_VERSION failed",
            "RSH_CREATE_VM failed",
            "RSH_CREATE_VCPU failed for vcpu_id=3",
            "RSH_SET_USER_MEMORY_REGION failed for slot=1 gpa=0x30 size=0x4000 hva=0x7fff00001234",
            "RSH_INJECT_IRQ failed for irq=4",
            "RSH_RUN failed",
            "RSH_GET_REGS failed",
            "RSH_SET_REGS failed",
            "RSH_GET_SREGS failed",
            "RSH_SET_SREGS failed",
            "RSH_INJECT_INTERRUPT failed for vector=32",
        ]
    );
    assert_eq!(with_context("no such device", "RSH_RUN failed"), "RSH_RUN failed: no such device");
    assert_eq!(open_context("/dev/rustshyper"), "failed to open /dev/rustshyper");
}

#[test]
fn arguments_are_laid_out_exactly() {
    assert_eq!(DeviceRequest::CreateVcpu { vcpu_id: 0x0102_0304 }.argument(), [4, 3, 2, 1]);
    assert_eq!(
        DeviceRequest::SetUserMemoryRegion { region: region() }.argument(),
        [
            1, 0, 0, 0, 2, 0, 0, 0, 0x30, 0, 0, 0, 0, 0, 0, 0, 0, 0x40, 0, 0, 0, 0, 0, 0, 0x34,
            0x12, 0, 0, 0xff, 0x7f, 0, 0
        ]
    );
    assert_eq!(DeviceRequest::Run.argument(), [0; 80]);
    assert!(DeviceRequest::CreateVm.argument().is_empty());
}

#[test]
fn general_registers_survive_the_device() {
    let regs = VcpuRegs {
        rax: 1, rbx: 2, rcx: 3, rdx: 4, rsi: 5, rdi: 6, rbp: 7, rsp: 8, r8: 9, r9: 10, r10: 11,
        r11: 12, r12: 13, r13: 14, r14: 15, r15: 16, rip: 17, rflags: u64::MAX - 1,
    };
    let bytes = regs.to_bytes();
    assert_eq!(bytes.len(), 144);
    assert_eq!(&bytes[0..8], &1u64.to_le_bytes());
    assert_eq!(&bytes[56..64], &8u64.to_le_bytes());
    assert_eq!(&bytes[128..136], &17u64.to_le_bytes());
    assert_eq!(format!("{:?}", VcpuRegs::from_bytes(&bytes)), format!("{regs:?}"));
}

#[test]
fn special_registers_survive_the_device() {
    let segment = |n: u8| VcpuSegment {
        base: 0x1000 + n as u64,
        limit: 0x2000 + n as u32,
        selector: 0x300 + n as u16,
        type_: n,
        present: n + 1,
        dpl: n + 2,
        db: n + 3,
        s: n + 4,
        l: n + 5,
        g: n + 6,
        avl: n + 7,
        unusable: n + 8,
        padding: n + 9,
    };
    let sregs = VcpuSregs {
        cs: segment(0),
        ds: segment(10),
        es: segment(20),
        fs: segment(30),
        gs: segment(40),
        ss: segment(50),
        tr: segment(60),
        ldt: segment(70),
        gdt: VcpuDtable { base: 0x5000, limit: 39, padding: [1, 2, 3] },
        idt: VcpuDtable { base: 0x6000, limit: 40, padding: [4, 5, 6] },
        cr0: 1,
        cr2: 2,
        cr3: 3,
        cr4: 4,
        efer: 5,
        apic_base: 6,
        interrupt_bitmap: [7, 8, 9, 10],
    };
    let bytes = sregs.to_bytes();
    assert_eq!(bytes.len(), 304);
    assert_eq!(&bytes[12..14], &[0x00, 0x03]);
    assert_eq!(&bytes[192..200], &0x5000u64.to_le_bytes());
    assert_eq!(&bytes[224..232], &1u64.to_le_bytes());
    assert_eq!(format!("{:?}", VcpuSregs::from_bytes(&bytes)), format!("{sregs:?}"));
}

#[test]
fn run_states_are_read_where_the_device_puts_them() {
    let mut bytes = [0_u8; 80];
    bytes[0] = 30;
    bytes[4] = 2;
    bytes[8..16].copy_from_slice(&0x1111u64.to_le_bytes());
    bytes[16..24].copy_from_slice(&0x2222u64.to_le_bytes());
    bytes[24..32].copy_from_slice(&0x3333u64.to_le_bytes());
    bytes[32..34].copy_from_slice(&0x3f8u16.to_le_bytes());
    bytes[34] = 1;
    bytes[35] = 2;
    bytes[36] = 3;
    bytes[37] = 4;
    bytes[38..40].copy_from_slice(&[5, 6]);
    bytes[40..44].copy_from_slice(&7u32.to_le_bytes());
    bytes[44..48].copy_from_slice(&[0xee; 4]);
    bytes[48..56].copy_from_slice(&8u64.to_le_bytes());
    bytes[56..64].copy_from_slice(&9u64.to_le_bytes());
    bytes[64..72].copy_from_slice(&10u64.to_le_bytes());
    bytes[72..76].copy_from_slice(&11u32.to_le_bytes());
    bytes[76] = 12;
    bytes[77..80].copy_from_slice(&[13, 14, 15]);
    let state = RunState::from_bytes(&bytes);
    assert_eq!(state.exit_reason, 30);
    assert_eq!(state.instruction_len, 2);
    assert_eq!(state.guest_rip, 0x1111);
    assert_eq!(state.guest_phys_addr, 0x2222);
    assert_eq!(state.exit_qualification, 0x3333);
    assert_eq!((state.io.port, state.io.size, state.io.is_in), (0x3f8, 1, 2));
    assert_eq!((state.io.is_string, state.io.is_repeat, state.io.reserved), (3, 4, [5, 6]));
    assert_eq!((state.io.count, state.io.data), (7, 8));
    assert_eq!((state.mmio.phys_addr, state.mmio.data, state.mmio.len), (9, 10, 11));
    assert_eq!((state.mmio.is_write, state.mmio.reserved), (12, [13, 14, 15]));
}

#[test]
fn guest_memory_is_lent() {
    let mut bytes = vec![0_u8; 8];
    let mut memory = GuestMemory::new(&mut bytes, 0xabc0);
    assert_eq!(memory.len(), 8);
    assert_eq!(memory.userspace_addr(), 0xabc0);
    memory.load(2, &[1, 2, 3]).unwrap();
    memory.as_mut_slice()[7] = 9;
    assert_eq!(memory.as_slice(), &[0, 0, 1, 2, 3, 0, 0, 9]);
    memory.load(8, &[]).unwrap();
    for (addr, image) in [(6, &[1, 2, 3][..]), (9, &[]), (usize::MAX, &[1])] {
        let error = memory.load(addr, image).unwrap_err();
        assert!(matches!(error, VmmError::GuestImageDoesNotFit));
        assert_eq!(error.kind(), ErrorKind::InvalidInput);
        assert_eq!(error.message(), "guest image does not fit in guest memory");
    }
    assert_eq!(bytes, [0, 0, 1, 2, 3, 0, 0, 9]);
}
