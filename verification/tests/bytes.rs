use rustshyper_vmm::boot_params::{build_zero_page, BootE820Entry, BootParams};
use rustshyper_vmm::bytes::{
    copy_into, push_bytes, push_u16, push_u32, push_u64, read_u16, read_u32, read_u64, Writer,
};
use rustshyper_vmm::setup_header::SetupHeader;

#[test]
fn numbers_are_little_endian() {
    let mut data = vec![0xaa];
    push_u16(&mut data, 0x0102);
    push_u32(&mut data, 0x0304_0506);
    push_u64(&mut data, 0x0708_090a_0b0c_0d0e);
    push_bytes(&mut data, &[1, 2]);
    assert_eq!(
        data,
        [0xaa, 2, 1, 6, 5, 4, 3, 0xe, 0xd, 0xc, 0xb, 0xa, 9, 8, 7, 1, 2]
    );
    assert_eq!(read_u16(&data, 1), 0x0102);
    assert_eq!(read_u32(&data, 3), 0x0304_0506);
    assert_eq!(read_u64(&data, 7), 0x0708_090a_0b0c_0d0e);
    assert_eq!(read_u64(&[0xff; 8], 0), u64::MAX);
}

#[test]
fn layouts_are_written_piece_by_piece() {
    let mut w = Writer::new();
    w.u8(1);
    w.u16(2);
    w.u32(3);
    w.u64(4);
    w.raw(&[5, 6]);
    assert_eq!(w.finish(), [1, 2, 0, 3, 0, 0, 0, 4, 0, 0, 0, 0, 0, 0, 0, 5, 6]);
    assert!(Writer::new().finish().is_empty());
}

#[test]
fn copies_stay_in_their_range() {
    let mut memory = [0_u8; 6];
    copy_into(&mut memory, 2, &[1, 2, 3]);
    assert_eq!(memory, [0, 0, 1, 2, 3, 0]);
    copy_into(&mut memory, 6, &[]);
    assert_eq!(memory, [0, 0, 1, 2, 3, 0]);
}

#[test]
fn a_clear_page_is_clear() {
    let page = BootParams::default().to_bytes();
    assert_eq!(page.len(), 4096);
    assert!(page.iter().all(|byte| *byte == 0));
}

#[test]
fn fields_of_the_page_lie_at_their_offsets() {
    let mut params = BootParams::default();
    params.tboot_addr = 0x58;
    params.acpi_rsdp_addr = 0x70;
    params.ext_ramdisk_image = 0xc0;
    params.cc_blob_address = 0x13c;
    params.alt_mem_k = 0x1e0;
    params.e820_entries = 0xe8;
    params.sentinel = 0xef;
    params.hdr.kernel_info_offset = 0x268;
    params.edd_mbr_sig_buffer[1] = 0x294;
    params.e820_table[127] = BootE820Entry { addr: 1, size: 2, typ: 3 };
    params.eddbuf[0] = 0xd0;
    params.pad9[275] = 0xff;
    let page = params.to_bytes();
    assert_eq!(read_u64(&page, 0x58), 0x58);
    assert_eq!(read_u64(&page, 0x70), 0x70);
    assert_eq!(read_u32(&page, 0xc0), 0xc0);
    assert_eq!(read_u32(&page, 0x13c), 0x13c);
    assert_eq!(read_u32(&page, 0x1e0), 0x1e0);
    assert_eq!(page[0x1e8], 0xe8);
    assert_eq!(page[0x1ef], 0xef);
    assert_eq!(read_u32(&page, 0x268), 0x268);
    assert_eq!(read_u32(&page, 0x294), 0x294);
    assert_eq!(read_u64(&page, 0x2d0 + 127 * 20), 1);
    assert_eq!(read_u32(&page, 0x2d0 + 127 * 20 + 16), 3);
    assert_eq!(page[0xd00], 0xd0);
    assert_eq!(page[0xeec - 1], 0);
    assert_eq!(page[4095], 0xff);
}

#[test]
fn a_page_holds_up_to_128_entries() {
    let entries: Vec<BootE820Entry> =
        (0..128).map(|i| BootE820Entry { addr: i, size: i * 2, typ: 9 }).collect();
    let page = build_zero_page(0x1234_5678_9abc, SetupHeader::default(), &entries);
    assert_eq!(page.len(), 4096);
    assert_eq!(read_u64(&page, 0x70), 0x1234_5678_9abc);
    assert_eq!(page[0x1e8], 128);
    for (i, entry) in entries.iter().enumerate() {
        assert_eq!(read_u64(&page, 0x2d0 + 20 * i), entry.addr);
        assert_eq!(read_u64(&page, 0x2d0 + 20 * i + 8), entry.size);
        assert_eq!(read_u32(&page, 0x2d0 + 20 * i + 16), 9);
    }
}
