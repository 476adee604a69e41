use rustshyper_vmm::acpi::{
    acpi_checksum, acpi_header, build_fadt, build_madt, build_rsdp, build_rsdt, finish_acpi_table,
    ACPI_FADT_GPA, ACPI_MADT_GPA, ACPI_RSDT_GPA,
};

#[test]
fn acpi_tables_have_valid_checksums() {
    let madt = build_madt(4);
    let rsdt = build_rsdt(&[ACPI_MADT_GPA]);
    let rsdp = build_rsdp(ACPI_RSDT_GPA);

    assert_eq!(
        madt.iter().fold(0_u8, |sum, byte| sum.wrapping_add(*byte)),
        0
    );
    assert_eq!(
        rsdt.iter().fold(0_u8, |sum, byte| sum.wrapping_add(*byte)),
        0
    );
    assert_eq!(
        rsdp[..20]
            .iter()
            .fold(0_u8, |sum, byte| sum.wrapping_add(*byte)),
        0
    );
    assert_eq!(
        rsdp.iter().fold(0_u8, |sum, byte| sum.wrapping_add(*byte)),
        0
    );
}

#[test]
fn madt_advertises_each_vcpu() {
    let madt = build_madt(3);
    let local_apic_entries = madt.windows(2).filter(|entry| *entry == [0, 8]).count();

    assert_eq!(local_apic_entries, 3);
    assert!(
        madt.windows(8)
            .any(|entry| entry == [0, 8, 2, 2, 1, 0, 0, 0])
    );
}

#[test]
fn madt_holds_exact_bytes() {
    let madt = build_madt(1);
    assert_eq!(madt.len(), 64);
    assert_eq!(&madt[0..9], b"APIC\x40\x00\x00\x00\x01");
    assert_eq!(&madt[10..36], b"RSHVMMRUSTSHYP\x01\x00\x00\x00RSHV\x01\x00\x00\x00");
    assert_eq!(&madt[36..44], &[0x00, 0x00, 0xe0, 0xfe, 0, 0, 0, 0]);
    assert_eq!(&madt[44..52], &[0, 8, 0, 0, 1, 0, 0, 0]);
    assert_eq!(&madt[52..64], &[1, 12, 1, 0, 0x00, 0x00, 0xc0, 0xfe, 0, 0, 0, 0]);
}

#[test]
fn madt_identities_wrap_at_a_byte() {
    let madt = build_madt(258);
    assert_eq!(madt.len(), 56 + 8 * 258);
    assert_eq!(&madt[44 + 8 * 255..44 + 8 * 256], &[0, 8, 255, 255, 1, 0, 0, 0]);
    assert_eq!(&madt[44 + 8 * 257..44 + 8 * 258], &[0, 8, 1, 1, 1, 0, 0, 0]);
    assert_eq!(build_madt(0).len(), 56);
}

#[test]
fn fadt_is_clear_but_for_the_interrupt() {
    let fadt = build_fadt();
    assert_eq!(fadt.len(), 244);
    assert_eq!(&fadt[0..9], b"FACP\xf4\x00\x00\x00\x06");
    assert_eq!(&fadt[46..48], &[9, 0]);
    assert!(fadt[36..46].iter().all(|byte| *byte == 0));
    assert!(fadt[48..].iter().all(|byte| *byte == 0));
    assert_eq!(fadt.iter().fold(0_u8, |sum, byte| sum.wrapping_add(*byte)), 0);
}

#[test]
fn rsdt_lists_tables_in_order() {
    let rsdt = build_rsdt(&[ACPI_MADT_GPA, ACPI_FADT_GPA]);
    assert_eq!(rsdt.len(), 44);
    assert_eq!(&rsdt[0..9], b"RSDT\x2c\x00\x00\x00\x01");
    assert_eq!(&rsdt[36..40], &0x000f_3000u32.to_le_bytes());
    assert_eq!(&rsdt[40..44], &0x000f_2000u32.to_le_bytes());
    assert_eq!(build_rsdt(&[]).len(), 36);
}

#[test]
fn rsdp_holds_exact_bytes() {
    let rsdp = build_rsdp(ACPI_RSDT_GPA);
    assert_eq!(rsdp.len(), 36);
    assert_eq!(&rsdp[0..8], b"RSD PTR ");
    assert_eq!(&rsdp[9..15], b"RSHVMM");
    assert_eq!(rsdp[15], 2);
    assert_eq!(&rsdp[16..20], &0x000f_1000u32.to_le_bytes());
    assert_eq!(&rsdp[20..24], &36u32.to_le_bytes());
    assert_eq!(&rsdp[24..32], &[0; 8]);
    assert_eq!(&rsdp[33..36], &[0; 3]);
}

#[test]
fn checksums_bring_the_sum_to_zero() {
    assert_eq!(acpi_checksum(&[]), 0);
    assert_eq!(acpi_checksum(&[1]), 0xff);
    assert_eq!(acpi_checksum(&[0x80, 0x80]), 0);
    assert_eq!(acpi_checksum(&[0xff, 0xff, 0xff]), 3);
}

#[test]
fn a_finished_table_tells_its_length() {
    let mut table = acpi_header(*b"TEST", 0, 7);
    assert_eq!(table.len(), 36);
    assert_eq!(&table[0..10], b"TEST\x00\x00\x00\x00\x07\x00");
    table.push(0xaa);
    let table = finish_acpi_table(table);
    assert_eq!(&table[4..8], &[37, 0, 0, 0]);
    assert_eq!(table.iter().fold(0_u8, |sum, byte| sum.wrapping_add(*byte)), 0);
}
