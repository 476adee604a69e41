use rustshyper_vmm::error::{ErrorKind, VmmError};
use rustshyper_vmm::guest::write_guest;
use rustshyper_vmm::ioctl::VcpuSregs;
use rustshyper_vmm::paging::{read_guest_phys_u64, read_guest_u64, translate_guest_addr};

fn paged() -> VcpuSregs {
    VcpuSregs { cr0: 0x8000_0001, cr3: 0x1018, ..VcpuSregs::default() }
}

fn put(memory: &mut [u8], at: u64, value: u64) {
    write_guest(memory, at, &value.to_le_bytes()).unwrap();
}

/// Tables at 0x1000 (level 4), 0x2000 (level 3), 0x3000 (level 2) and 0x4000 (level 1).
fn tables() -> Vec<u8> {
    let mut memory = vec![0_u8; 0x8000];
    put(&mut memory, 0x1000, 0x2000 | 3);
    put(&mut memory, 0x1000 + 511 * 8, 0x2000 | 1);
    put(&mut memory, 0x2000, 0x3000 | 1);
    put(&mut memory, 0x2000 + 8, 0x4000_0000 | 0x81);
    put(&mut memory, 0x2000 + 16, 0);
    put(&mut memory, 0x3000, 0x4000 | 1);
    put(&mut memory, 0x3000 + 8, 0x60_0000 | 0x81);
    put(&mut memory, 0x3000 + 16, 0x4000);
    put(&mut memory, 0x4000, 0x8000_0000_0000_6000 | 1);
    put(&mut memory, 0x4000 + 8, 0x7ffe);
    memory
}

#[test]
fn without_paging_addresses_stay() {
    let sregs = VcpuSregs { cr0: 0x7fff_ffff, cr3: 0x1000, ..VcpuSregs::default() };
    assert_eq!(translate_guest_addr(&[], &sregs, 0xdead_beef).unwrap(), 0xdead_beef);
    assert_eq!(translate_guest_addr(&[], &sregs, u64::MAX).unwrap(), u64::MAX);
}

#[test]
fn small_pages_are_found() {
    let memory = tables();
    assert_eq!(translate_guest_addr(&memory, &paged(), 0x123).unwrap(), 0x6123);
    assert_eq!(translate_guest_addr(&memory, &paged(), 0xfff).unwrap(), 0x6fff);
}

#[test]
fn large_pages_are_found() {
    let memory = tables();
    assert_eq!(translate_guest_addr(&memory, &paged(), 0x20_0000).unwrap(), 0x60_0000);
    assert_eq!(translate_guest_addr(&memory, &paged(), 0x3f_ffff).unwrap(), 0x7f_ffff);
    assert_eq!(translate_guest_addr(&memory, &paged(), 0x4000_0000).unwrap(), 0x4000_0000);
    assert_eq!(translate_guest_addr(&memory, &paged(), 0x7fff_fff8).unwrap(), 0x7fff_fff8);
}

#[test]
fn misaligned_large_pages_are_combined_bit_by_bit() {
    let mut memory = tables();
    put(&mut memory, 0x3000 + 8, 0x60_1000 | 0x81);
    assert_eq!(translate_guest_addr(&memory, &paged(), 0x20_1000).unwrap(), 0x60_1000);
    assert_eq!(translate_guest_addr(&memory, &paged(), 0x20_2000).unwrap(), 0x60_3000);
}

#[test]
fn upper_address_bits_are_ignored() {
    let memory = tables();
    assert_eq!(
        translate_guest_addr(&memory, &paged(), 0xffff_0000_0000_0123).unwrap(),
        0x6123
    );
    assert_eq!(
        translate_guest_addr(&memory, &paged(), 0xffff_ff80_0000_0123).unwrap(),
        0x6123
    );
}

#[test]
fn absent_entries_are_told_apart() {
    let memory = tables();
    let error = translate_guest_addr(&memory, &paged(), 1 << 39).unwrap_err();
    assert!(matches!(error, VmmError::Pml4EntryNotPresent));
    assert_eq!(error.message(), "guest PML4 entry is not present");
    let error = translate_guest_addr(&memory, &paged(), 2 << 30).unwrap_err();
    assert!(matches!(error, VmmError::PdptEntryNotPresent));
    assert_eq!(error.message(), "guest PDPT entry is not present");
    let error = translate_guest_addr(&memory, &paged(), 2 << 21).unwrap_err();
    assert!(matches!(error, VmmError::PdEntryNotPresent));
    assert_eq!(error.message(), "guest PD entry is not present");
    let error = translate_guest_addr(&memory, &paged(), 0x1000).unwrap_err();
    assert!(matches!(error, VmmError::PtEntryNotPresent));
    assert_eq!(error.message(), "guest PT entry is not present");
    assert_eq!(error.kind(), ErrorKind::Other);
}

#[test]
fn tables_beyond_memory_are_not_read() {
    let memory = tables();
    let sregs = VcpuSregs { cr3: 0x10_0000, ..paged() };
    let error = translate_guest_addr(&memory, &sregs, 8 << 39).unwrap_err();
    assert_eq!(error.message(), "guest read out of range gpa=0x100040");
    let sregs = VcpuSregs { cr3: u64::MAX, ..paged() };
    let error = translate_guest_addr(&memory, &sregs, 511 << 39).unwrap_err();
    assert!(matches!(error, VmmError::GuestReadOverflow));
}

#[test]
fn physical_reads_are_bounded() {
    let mut memory = vec![0_u8; 16];
    put(&mut memory, 8, 0x1122_3344_5566_7788);
    assert_eq!(read_guest_phys_u64(&memory, 8).unwrap(), 0x1122_3344_5566_7788);
    assert_eq!(read_guest_phys_u64(&memory, 4).unwrap(), 0x5566_7788_0000_0000);
    let error = read_guest_phys_u64(&memory, 9).unwrap_err();
    assert!(matches!(error, VmmError::GuestReadOutOfRange { gpa: 9 }));
    assert_eq!(error.message(), "guest read out of range gpa=0x9");
    let error = read_guest_phys_u64(&memory, u64::MAX - 7).unwrap_err();
    assert!(matches!(error, VmmError::GuestReadOverflow));
    assert_eq!(error.message(), "guest memory read overflows usize");
    let error = read_guest_phys_u64(&memory, u64::MAX - 8).unwrap_err();
    assert!(matches!(error, VmmError::GuestReadOutOfRange { .. }));
    assert!(read_guest_phys_u64(&[], 0).is_err());
}

#[test]
fn virtual_reads_go_through_the_tables() {
    let mut memory = tables();
    put(&mut memory, 0x6120, 42);
    assert_eq!(read_guest_u64(&memory, &paged(), 0x120).unwrap(), 42);
    assert!(matches!(
        read_guest_u64(&memory, &paged(), 0x20_0000),
        Err(VmmError::GuestReadOutOfRange { gpa: 0x60_0000 })
    ));
    assert!(matches!(
        read_guest_u64(&memory, &paged(), 0x1000),
        Err(VmmError::PtEntryNotPresent)
    ));
}
