use rustshyper_vmm::acpi::{build_fadt, build_madt, build_rsdp, build_rsdt};
use rustshyper_vmm::error::{ErrorKind, VmmError};
use rustshyper_vmm::linux::{
    align_down, load_bzimage, looks_like_bzimage, make_e820_entries, place_initrd,
    write_acpi_tables, LinuxBootConfig,
};
use rustshyper_vmm::segments::{
    build_linux_boot_gdt, gdt_descriptor, gdt_system_descriptor, linux32_boot_sregs, X86_CR0_ET,
    X86_CR0_NE, X86_CR0_PE,
};
use rustshyper_vmm::setup_header::{
    parse_setup_header, SetupHeader, LINUX_BOOT_FLAG_MAGIC, LINUX_BOOT_HEADER_MAGIC,
    LINUX_MIN_BOOT_PROTOCOL, SETUP_HEADER_OFFSET, SETUP_HEADER_SIZE,
};

const MB: usize = 0x10_0000;

fn valid_header() -> SetupHeader {
    SetupHeader {
        boot_flag: LINUX_BOOT_FLAG_MAGIC,
        header: LINUX_BOOT_HEADER_MAGIC,
        version: LINUX_MIN_BOOT_PROTOCOL,
        ..SetupHeader::default()
    }
}

/// An image with `header` whose kernel is `kernel`.
fn image(header: SetupHeader, kernel: &[u8]) -> Vec<u8> {
    let sects = if header.setup_sects == 0 { 4 } else { header.setup_sects as usize };
    let mut image = vec![0_u8; (sects + 1) * 512];
    image[SETUP_HEADER_OFFSET..SETUP_HEADER_OFFSET + SETUP_HEADER_SIZE]
        .copy_from_slice(&header.to_bytes());
    image.extend_from_slice(kernel);
    image
}

fn config<'a>() -> LinuxBootConfig<'a> {
    LinuxBootConfig {
        kernel_load_addr: 0,
        guest_mem_size: 4 * MB as u64,
        vcpu_count: 2,
        initrd: None,
        cmdline: None,
        stack_pointer: 0,
    }
}

fn u32_at(memory: &[u8], at: usize) -> u32 {
    u32::from_le_bytes(memory[at..at + 4].try_into().unwrap())
}

fn u64_at(memory: &[u8], at: usize) -> u64 {
    u64::from_le_bytes(memory[at..at + 8].try_into().unwrap())
}

#[test]
fn detects_linux_header() {
    let mut image = vec![0_u8; SETUP_HEADER_OFFSET + SETUP_HEADER_SIZE];
    let header = SetupHeader {
        boot_flag: LINUX_BOOT_FLAG_MAGIC,
        header: LINUX_BOOT_HEADER_MAGIC,
        version: LINUX_MIN_BOOT_PROTOCOL,
        ..SetupHeader::default()
    };
    image[SETUP_HEADER_OFFSET..SETUP_HEADER_OFFSET + SETUP_HEADER_SIZE]
        .copy_from_slice(&header.to_bytes());

    assert!(looks_like_bzimage(&image));
}

#[test]
fn linux_sregs_use_protected_mode_segments() {
    let sregs = linux32_boot_sregs();
    assert_eq!(sregs.cs.selector, 0x10);
    assert_eq!(sregs.ds.selector, 0x18);
    assert_eq!(sregs.tr.selector, 0x20);
    assert_eq!(sregs.ldt.unusable, 1);
    assert_eq!(sregs.cr0, X86_CR0_PE | X86_CR0_ET | X86_CR0_NE);
}

#[test]
fn boot_segments_hold_exact_values() {
    let sregs = linux32_boot_sregs();
    assert_eq!(sregs.cr0, 0x31);
    assert_eq!(sregs.gdt.base, 0x5000);
    assert_eq!(sregs.gdt.limit, 39);
    assert_eq!(sregs.idt.base, 0);
    assert_eq!(sregs.cs.type_, 0x0b);
    assert_eq!(sregs.cs.limit, 0xffff_ffff);
    assert_eq!((sregs.cs.present, sregs.cs.db, sregs.cs.s, sregs.cs.g), (1, 1, 1, 1));
    assert_eq!(sregs.ss.type_, 0x03);
    assert_eq!(sregs.tr.type_, 0x0b);
    assert_eq!(sregs.tr.limit, 0xffff);
    assert_eq!((sregs.tr.present, sregs.tr.db, sregs.tr.s, sregs.tr.g), (1, 0, 0, 0));
    assert_eq!(sregs.ldt.present, 0);
    assert_eq!(sregs.interrupt_bitmap, [0; 4]);
}

#[test]
fn descriptors_hold_exact_values() {
    assert_eq!(
        build_linux_boot_gdt(),
        [0, 0, 0x00c0_9b00_0000_ffff, 0x00c0_9300_0000_ffff, 0x0000_8b00_0000_ffff]
    );
    assert_eq!(gdt_descriptor(0), 0x00c0_9000_0000_ffff);
    assert_eq!(gdt_system_descriptor(0), 0x0000_8000_0000_ffff);
    // Type bits beyond the four of the field fall into the fields above.
    assert_eq!(gdt_descriptor(0xff), 0x00c0_ff00_0000_ffff);
}

#[test]
fn header_errors_come_in_order() {
    assert!(matches!(
        parse_setup_header(&vec![0xff; SETUP_HEADER_OFFSET + SETUP_HEADER_SIZE - 1]),
        Err(VmmError::ImageTooSmall)
    ));
    let bad_flag = SetupHeader { boot_flag: 0xaa54, header: 0, ..valid_header() };
    assert!(matches!(
        parse_setup_header(&image(bad_flag, &[])),
        Err(VmmError::InvalidBootFlag)
    ));
    let bad_magic = SetupHeader { header: 0x5372_6449, version: 0, ..valid_header() };
    assert!(matches!(
        parse_setup_header(&image(bad_magic, &[])),
        Err(VmmError::InvalidHeaderMagic)
    ));
    let old = SetupHeader { version: 0x020e, ..valid_header() };
    let error = parse_setup_header(&image(old, &[])).unwrap_err();
    assert_eq!(error.kind(), ErrorKind::InvalidData);
    assert_eq!(
        error.message(),
        "Linux boot protocol 0x20e is too old, need at least 0x20f"
    );
    assert!(!looks_like_bzimage(&image(old, &[])));
    assert!(!looks_like_bzimage(&[]));
}

#[test]
fn header_fields_are_read_where_they_lie() {
    let header = SetupHeader {
        setup_sects: 7,
        version: 0x1234,
        hardware_subarch_data: 0x0102_0304_0506_0708,
        kernel_info_offset: 0xa0b0_c0d0,
        ..valid_header()
    };
    let bytes = header.to_bytes();
    assert_eq!(bytes.len(), 123);
    assert_eq!(bytes[0], 7);
    assert_eq!(&bytes[13..15], &[0x55, 0xaa]);
    assert_eq!(&bytes[17..21], b"HdrS");
    assert_eq!(&bytes[21..23], &[0x34, 0x12]);
    assert_eq!(&bytes[79..87], &[8, 7, 6, 5, 4, 3, 2, 1]);
    assert_eq!(&bytes[119..123], &[0xd0, 0xc0, 0xb0, 0xa0]);
    let back = parse_setup_header(&image(header, &[])).unwrap();
    assert_eq!(back.to_bytes(), bytes);
}

#[test]
fn headers_keep_every_byte() {
    let mut bzimage = image(valid_header(), &[]);
    for i in 0..SETUP_HEADER_SIZE {
        // The signatures and the version stay.
        if !(13..15).contains(&i) && !(17..23).contains(&i) {
            bzimage[SETUP_HEADER_OFFSET + i] = (i * 37 + 11) as u8;
        }
    }
    let header = parse_setup_header(&bzimage).unwrap();
    assert_eq!(
        header.to_bytes(),
        &bzimage[SETUP_HEADER_OFFSET..SETUP_HEADER_OFFSET + SETUP_HEADER_SIZE]
    );
}

#[test]
fn segment_registers_match_their_descriptors() {
    let table = build_linux_boot_gdt();
    let sregs = linux32_boot_sregs();
    for segment in
        [sregs.cs, sregs.ds, sregs.es, sregs.fs, sregs.gs, sregs.ss, sregs.tr]
    {
        let descriptor = table[segment.selector as usize / 8];
        assert_eq!((descriptor >> 40) & 0xf, segment.type_ as u64);
        assert_eq!((descriptor >> 44) & 1, segment.s as u64);
        assert_eq!((descriptor >> 45) & 3, segment.dpl as u64);
        assert_eq!((descriptor >> 47) & 1, segment.present as u64);
        assert_eq!((descriptor >> 54) & 1, segment.db as u64);
        assert_eq!((descriptor >> 55) & 1, segment.g as u64);
    }
    assert_eq!(sregs.gdt.limit as usize + 1, table.len() * 8);
}

#[test]
fn alignment_clears_low_bits() {
    assert_eq!(align_down(0x1fff, 0x1000), 0x1000);
    assert_eq!(align_down(0x2000, 0x1000), 0x2000);
    assert_eq!(align_down(u64::MAX, 1 << 63), 1 << 63);
    assert_eq!(align_down(77, 1), 77);
}

#[test]
fn initrd_goes_as_high_as_it_can() {
    let header = valid_header();
    assert_eq!(place_initrd(4 * MB as u64, &header, 1).unwrap(), 0x3f_f000);
    assert_eq!(place_initrd(4 * MB as u64, &header, 0x1000).unwrap(), 0x3f_f000);
    assert_eq!(place_initrd(4 * MB as u64, &header, 0x1001).unwrap(), 0x3f_e000);
    assert_eq!(place_initrd(4 * MB as u64, &header, 0).unwrap(), 0x40_0000);
    assert_eq!(place_initrd(4 * MB as u64 + 5, &header, 1).unwrap(), 0x3f_f000);
    let limited = SetupHeader { initrd_addr_max: 0x1f_ffff, ..header };
    assert_eq!(place_initrd(4 * MB as u64, &limited, 0x1000).unwrap(), 0x1f_f000);
    let odd = SetupHeader { initrd_addr_max: 0x1f_fffe, ..header };
    assert_eq!(place_initrd(4 * MB as u64, &odd, 0x1000).unwrap(), 0x1f_e000);
    assert_eq!(place_initrd(u64::MAX, &header, 0).unwrap(), 0xffff_ffff_ffff_f000);
}

#[test]
fn initrd_stays_above_one_megabyte() {
    let header = valid_header();
    assert_eq!(place_initrd(2 * MB as u64, &header, MB as u64).unwrap(), MB as u64);
    for (size, len) in [(2 * MB as u64, MB as u64 + 1), (0, 0), (MB as u64, 1), (5, u64::MAX)] {
        let error = place_initrd(size, &header, len).unwrap_err();
        assert!(matches!(error, VmmError::InitrdDoesNotFit));
        assert_eq!(error.kind(), ErrorKind::InvalidInput);
        assert_eq!(
            error.message(),
            "guest memory is too small to place the initrd below initrd_addr_max"
        );
    }
}

#[test]
fn memory_map_tiles_memory() {
    let map = make_e820_entries(4 * MB as u64);
    let entries: Vec<(u64, u64, u32)> = map.iter().map(|e| (e.addr, e.size, e.typ)).collect();
    assert_eq!(
        entries,
        [(0, 0x9_f000, 1), (0x9_f000, 0x6_1000, 2), (0x10_0000, 0x30_0000, 1)]
    );
    assert_eq!(make_e820_entries(MB as u64).len(), 2);
    assert_eq!(make_e820_entries(MB as u64 + 1).len(), 3);
    assert_eq!(make_e820_entries(0).len(), 2);
}

#[test]
fn acpi_tables_go_where_they_belong() {
    let mut memory = vec![0xee_u8; MB];
    write_acpi_tables(&mut memory, 3).unwrap();
    assert_eq!(&memory[0xf_0000..0xf_0000 + 36], &build_rsdp(0xf_1000)[..]);
    assert_eq!(&memory[0xf_1000..0xf_1000 + 44], &build_rsdt(&[0xf_3000, 0xf_2000])[..]);
    assert_eq!(&memory[0xf_2000..0xf_2000 + 244], &build_fadt()[..]);
    assert_eq!(&memory[0xf_3000..0xf_3000 + 80], &build_madt(3)[..]);
    assert_eq!(memory[0xf_3000 + 80], 0xee);
    assert_eq!(memory[0xe_ffff], 0xee);
    let mut small = vec![0_u8; 0xf_3000];
    let error = write_acpi_tables(&mut small, 1).unwrap_err();
    assert_eq!(
        error.message(),
        "guest data at 0xf3000 with size 0x40 does not fit in guest memory"
    );
}

#[test]
fn a_kernel_is_loaded_with_everything_it_needs() {
    let kernel: Vec<u8> = (0..5000u32).map(|i| (i % 251) as u8).collect();
    let initrd = vec![0x5a_u8; 0x1234];
    let header = SetupHeader { setup_sects: 1, loadflags: 0x40, ..valid_header() };
    let bzimage = image(header, &kernel);
    let mut memory = vec![0_u8; 4 * MB];
    let boot = LinuxBootConfig { initrd: Some(&initrd), cmdline: Some("quiet é"), ..config() };
    let state = load_bzimage(&mut memory, &bzimage, &boot).unwrap();

    assert_eq!(state.entry_point, 0x10_0000);
    assert_eq!(state.zero_page_addr, 0x1_0000);
    assert_eq!(state.regs.rip, 0x10_0000);
    assert_eq!(state.regs.rsp, 0x1f_f000);
    assert_eq!(state.regs.rsi, 0x1_0000);
    assert_eq!(state.regs.rflags, 2);
    assert_eq!(state.regs.rax, 0);
    assert_eq!(state.announcement(), "rustshyper-vmm: Linux entry point at 0x100000");

    assert_eq!(&memory[0x10_0000..0x10_0000 + 5000], &kernel[..]);
    assert_eq!(&memory[0x2_0000..0x2_0009], "quiet é\0".as_bytes());
    let initrd_addr = 0x3f_e000;
    assert_eq!(&memory[initrd_addr..initrd_addr + 0x1234], &initrd[..]);
    let gdt: Vec<u8> =
        build_linux_boot_gdt().iter().flat_map(|word| word.to_le_bytes()).collect();
    assert_eq!(&memory[0x5000..0x5028], &gdt[..]);
    assert_eq!(&memory[0xf_3000..0xf_3000 + 72], &build_madt(2)[..]);

    let page = 0x1_0000;
    assert_eq!(u64_at(&memory, page + 0x70), 0xf_0000);
    assert_eq!(memory[page + 0x1e8], 3);
    assert_eq!(memory[page + 0x1f1], 1);
    assert_eq!(memory[page + 0x210], 0xff);
    assert_eq!(memory[page + 0x211], 0xc1);
    assert_eq!(u32_at(&memory, page + 0x214), 0x10_0000);
    assert_eq!(u32_at(&memory, page + 0x218), initrd_addr as u32);
    assert_eq!(u32_at(&memory, page + 0x21c), 0x1234);
    assert_eq!(&memory[page + 0x224..page + 0x226], &[0x00, 0xfe]);
    assert_eq!(u32_at(&memory, page + 0x228), 0x2_0000);
    assert_eq!(u32_at(&memory, page + 0x238), 9);
    assert_eq!(u64_at(&memory, page + 0x2d0 + 40), 0x10_0000);
    assert_eq!(u64_at(&memory, page + 0x2d0 + 48), 0x30_0000);
    assert_eq!(u32_at(&memory, page + 0x2d0 + 56), 1);
    assert!(memory[page + 0x2d0 + 60..page + 0x1000].iter().all(|byte| *byte == 0));
    assert_eq!(memory[page + 0x1000], 0);
}

#[test]
fn defaults_stand_in_for_what_is_not_told() {
    let bzimage = image(valid_header(), &[1, 2, 3]);
    let mut memory = vec![0_u8; 2 * MB];
    let boot = LinuxBootConfig {
        guest_mem_size: 2 * MB as u64,
        kernel_load_addr: 0x18_0000,
        stack_pointer: 0x1234,
        ..config()
    };
    let state = load_bzimage(&mut memory, &bzimage, &boot).unwrap();
    assert_eq!(state.regs.rip, 0x18_0000);
    assert_eq!(state.regs.rsp, 0x1234);
    assert_eq!(&memory[0x18_0000..0x18_0003], &[1, 2, 3]);
    let cmdline = b"console=ttyS0 earlycon=uart8250,io,0x3f8 nokaslr\0";
    assert_eq!(&memory[0x2_0000..0x2_0000 + cmdline.len()], cmdline);
    assert_eq!(u32_at(&memory, 0x1_0000 + 0x238), cmdline.len() as u32);
    assert_eq!(u32_at(&memory, 0x1_0000 + 0x218), 0);
    assert_eq!(u32_at(&memory, 0x1_0000 + 0x21c), 0);
}

#[test]
fn later_parts_overwrite_a_kernel_put_in_their_way() {
    let kernel = vec![0x77_u8; 0x2_0000];
    let bzimage = image(valid_header(), &kernel);
    let mut memory = vec![0_u8; 2 * MB];
    let boot = LinuxBootConfig { kernel_load_addr: 0x4000, ..config() };
    let state = load_bzimage(&mut memory, &bzimage, &boot).unwrap();
    assert_eq!(state.regs.rip, 0x4000);
    assert_eq!(memory[0x4fff], 0x77);
    assert_eq!(&memory[0x5010..0x5018], &0x00c0_9b00_0000_ffffu64.to_le_bytes());
    assert_eq!(u64_at(&memory, 0x1_0070), 0xf_0000);
    assert_eq!(memory[0x1_1000], 0x77);
}

#[test]
fn malformed_images_change_nothing() {
    let mut memory = vec![0xab_u8; MB];
    let error = load_bzimage(&mut memory, &[0; 100], &config()).unwrap_err();
    assert!(matches!(error, VmmError::ImageTooSmall));
    let nothing_behind = image(valid_header(), &[]);
    let error = load_bzimage(&mut memory, &nothing_behind, &config()).unwrap_err();
    assert!(matches!(error, VmmError::SetupExceedsImage));
    assert_eq!(error.kind(), ErrorKind::InvalidData);
    assert_eq!(error.message(), "bzImage setup sectors exceed image size");
    assert!(memory.iter().all(|byte| *byte == 0xab));
}

#[test]
fn failures_come_in_the_order_of_the_writes() {
    let bzimage = image(valid_header(), &[9; 16]);
    // The kernel itself does not fit.
    let mut memory = vec![0_u8; MB];
    let error = load_bzimage(&mut memory, &bzimage, &config()).unwrap_err();
    assert_eq!(
        error.message(),
        "guest data at 0x100000 with size 0x10 does not fit in guest memory"
    );
    assert!(memory.iter().all(|byte| *byte == 0));
    // The kernel fits, and so do the tables, but the initrd has no room; what was written stays.
    let initrd = vec![1_u8; 2 * MB];
    let boot = LinuxBootConfig {
        initrd: Some(&initrd),
        guest_mem_size: 2 * MB as u64,
        ..config()
    };
    let mut memory = vec![0_u8; 2 * MB];
    let error = load_bzimage(&mut memory, &bzimage, &boot).unwrap_err();
    assert!(matches!(error, VmmError::InitrdDoesNotFit));
    assert_eq!(memory[0x10_0000], 9);
    assert_eq!(memory[0x2_0000], b'c');
    assert_eq!(memory[0xf_0000], 0);
    assert_eq!(u64_at(&memory, 0x1_0070), 0);
    // The initrd has a place, but memory ends before it.
    let initrd = [1_u8; 4];
    let boot = LinuxBootConfig { initrd: Some(&initrd), ..config() };
    let error = load_bzimage(&mut memory, &bzimage, &boot).unwrap_err();
    assert_eq!(
        error.message(),
        "guest data at 0x3ff000 with size 0x4 does not fit in guest memory"
    );
}
