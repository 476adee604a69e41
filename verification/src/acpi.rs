//! ACPI tables: the root pointer, the root table, the fixed description and the interrupt
//! controllers.
use crate::bytes;
use vstd::prelude::*;

verus! {

/// Where the root pointer goes.
pub const ACPI_RSDP_GPA: u64 = 0x000f_0000;

/// Where the root table goes.
pub const ACPI_RSDT_GPA: u32 = 0x000f_1000;

/// Where the fixed description goes.
pub const ACPI_FADT_GPA: u32 = 0x000f_2000;

/// Where the interrupt controller description goes.
pub const ACPI_MADT_GPA: u32 = 0x000f_3000;

/// Where each processor finds its local APIC.
pub const LAPIC_BASE: u32 = 0xfee0_0000;

/// Where the I/O APIC is found.
pub const IOAPIC_BASE: u32 = 0xfec0_0000;

/// The identity of the I/O APIC.
pub const IOAPIC_ID: u8 = 1;

/// `APIC`.
pub open spec fn madt_signature() -> Seq<u8> {
    seq![0x41u8, 0x50, 0x49, 0x43]
}

/// `FACP`.
pub open spec fn fadt_signature() -> Seq<u8> {
    seq![0x46u8, 0x41, 0x43, 0x50]
}

/// `RSDT`.
pub open spec fn rsdt_signature() -> Seq<u8> {
    seq![0x52u8, 0x53, 0x44, 0x54]
}

/// `RSD PTR `.
pub open spec fn rsdp_signature() -> Seq<u8> {
    seq![0x52u8, 0x53, 0x44, 0x20, 0x50, 0x54, 0x52, 0x20]
}

/// `RSHVMM`.
pub open spec fn oem_id() -> Seq<u8> {
    seq![0x52u8, 0x53, 0x48, 0x56, 0x4d, 0x4d]
}

/// `RUSTSHYP`.
pub open spec fn oem_table_id() -> Seq<u8> {
    seq![0x52u8, 0x55, 0x53, 0x54, 0x53, 0x48, 0x59, 0x50]
}

/// `RSHV`.
pub open spec fn creator_id() -> Seq<u8> {
    seq![0x52u8, 0x53, 0x48, 0x56]
}

/// The sum of `data`.
pub open spec fn byte_sum(data: Seq<u8>) -> nat
    decreases data.len(),
{
    if data.len() == 0 {
        0
    } else {
        byte_sum(data.drop_last()) + data.last() as nat
    }
}

/// The byte that, added to the sum of `data`, gives zero in eight bits.
pub open spec fn checksum(data: Seq<u8>) -> u8 {
    ((256 - byte_sum(data) % 256) % 256) as u8
}

/// The header common to ACPI tables, with its checksum still zero.
pub open spec fn header_bytes(signature: Seq<u8>, length: u32, revision: u8) -> Seq<u8> {
    signature + bytes::le_bytes(length as nat, 4) + seq![revision, 0u8] + oem_id() + oem_table_id()
        + bytes::le_bytes(1, 4) + creator_id() + bytes::le_bytes(1, 4)
}

/// `table` with its length filled in.
pub open spec fn with_length(table: Seq<u8>) -> Seq<u8> {
    bytes::overlay(table, 4, bytes::le_bytes((table.len() as u32) as nat, 4))
}

/// `table` with its length and then its checksum filled in.
pub open spec fn finished(table: Seq<u8>) -> Seq<u8> {
    with_length(table).update(9, checksum(with_length(table)))
}

/// The local APIC entry of vCPU `id`, enabled.
pub open spec fn local_apic_entry(id: int) -> Seq<u8> {
    seq![0u8, 8, (id % 256) as u8, (id % 256) as u8] + bytes::le_bytes(1, 4)
}

/// The local APIC entries of the vCPUs below `count`.
pub open spec fn local_apic_entries(count: nat) -> Seq<u8>
    decreases count,
{
    if count == 0 {
        Seq::empty()
    } else {
        local_apic_entries((count - 1) as nat) + local_apic_entry(count - 1)
    }
}

/// The I/O APIC entry.
pub open spec fn io_apic_entry() -> Seq<u8> {
    seq![1u8, 12, IOAPIC_ID, 0] + bytes::le_bytes(IOAPIC_BASE as nat, 4) + bytes::le_bytes(0, 4)
}

/// The interrupt controller description for `count` vCPUs.
pub open spec fn madt(count: u32) -> Seq<u8> {
    finished(
        header_bytes(madt_signature(), 56, 1) + bytes::le_bytes(LAPIC_BASE as nat, 4)
            + bytes::le_bytes(0, 4) + local_apic_entries(count as nat) + io_apic_entry(),
    )
}

/// The fixed description: nothing but the interrupt that is number nine.
pub open spec fn fadt() -> Seq<u8> {
    finished(
        header_bytes(fadt_signature(), 244, 6) + bytes::zeros(10) + bytes::le_bytes(9, 2)
            + bytes::zeros(196),
    )
}

/// The addresses `entries`, each in four bytes.
pub open spec fn address_list(entries: Seq<u32>) -> Seq<u8>
    decreases entries.len(),
{
    if entries.len() == 0 {
        Seq::empty()
    } else {
        address_list(entries.drop_last()) + bytes::le_bytes(entries.last() as nat, 4)
    }
}

/// The root table that lists the tables at `entries`.
pub open spec fn rsdt(entries: Seq<u32>) -> Seq<u8> {
    finished(
        header_bytes(rsdt_signature(), (36 + 4 * (entries.len() as u32)) as u32, 1) + address_list(
            entries,
        ),
    )
}

/// The root pointer, with both checksums still zero.
pub open spec fn bare_rsdp(rsdt_gpa: u32) -> Seq<u8> {
    rsdp_signature() + seq![0u8] + oem_id() + seq![2u8] + bytes::le_bytes(rsdt_gpa as nat, 4)
        + bytes::le_bytes(36, 4) + bytes::le_bytes(0, 8) + bytes::zeros(4)
}

/// The root pointer to the root table at `rsdt_gpa`: the first checksum covers 20 bytes, the
/// second all of them.
pub open spec fn rsdp(rsdt_gpa: u32) -> Seq<u8> {
    let bare = bare_rsdp(rsdt_gpa);
    let first = bare.update(8, checksum(bare.take(20)));
    first.update(32, checksum(first))
}

/// The byte that brings the sum of `data` to zero in eight bits.
pub fn acpi_checksum(data: &[u8]) -> (sum: u8)
    ensures
        sum == checksum(data@),
{
    let mut total: u8 = 0;
    let mut i: usize = 0;
    assert(data@.take(0) =~= Seq::<u8>::empty());
    while i < data.len()
        invariant
            i <= data@.len(),
            total == byte_sum(data@.take(i as int)) % 256,
        decreases data@.len() - i,
    {
        total = total.wrapping_add(data[i]);
        i = i + 1;
        assert(data@.take(i as int).drop_last() =~= data@.take(i - 1));
    }
    assert(data@.take(i as int) =~= data@);
    0u8.wrapping_sub(total)
}

/// The header common to ACPI tables, with its checksum still zero.
pub fn acpi_header(signature: [u8; 4], length: u32, revision: u8) -> (header: Vec<u8>)
    ensures
        header@ == header_bytes(signature@, length, revision),
        header@.len() == 36,
{
    broadcast use bytes::lemma_le_bytes_len;

    let mut header: Vec<u8> = Vec::new();
    bytes::push_bytes(&mut header, &signature);
    bytes::push_u32(&mut header, length);
    header.push(revision);
    header.push(0);
    assert(header@ =~= signature@ + bytes::le_bytes(length as nat, 4) + seq![revision, 0u8]);
    let oem: [u8; 6] = [0x52, 0x53, 0x48, 0x56, 0x4d, 0x4d];
    assert(oem@ =~= oem_id());
    bytes::push_bytes(&mut header, &oem);
    let table: [u8; 8] = [0x52, 0x55, 0x53, 0x54, 0x53, 0x48, 0x59, 0x50];
    assert(table@ =~= oem_table_id());
    bytes::push_bytes(&mut header, &table);
    bytes::push_u32(&mut header, 1);
    let creator: [u8; 4] = [0x52, 0x53, 0x48, 0x56];
    assert(creator@ =~= creator_id());
    bytes::push_bytes(&mut header, &creator);
    bytes::push_u32(&mut header, 1);
    header
}

/// Fills in a table's length and then its checksum.
pub fn finish_acpi_table(table: Vec<u8>) -> (done: Vec<u8>)
    requires
        table@.len() >= 10,
    ensures
        done@ == finished(table@),
{
    broadcast use bytes::lemma_le_bytes_len;

    let mut done = table;
    let length: u32 = done.len() as u32;
    let mut length_bytes: Vec<u8> = Vec::new();
    bytes::push_u32(&mut length_bytes, length);
    assert(length_bytes@ =~= bytes::le_bytes(length as nat, 4));
    bytes::copy_into(done.as_mut_slice(), 4, &length_bytes);
    assert(done@ == with_length(table@));
    let sum = acpi_checksum(&done);
    done[9] = sum;
    done
}

/// Describes the interrupt controllers of `vcpu_count` vCPUs.
pub fn build_madt(vcpu_count: u32) -> (table: Vec<u8>)
    ensures
        table@ == madt(vcpu_count),
{
    broadcast use bytes::lemma_le_bytes_len;

    let signature: [u8; 4] = [0x41, 0x50, 0x49, 0x43];
    assert(signature@ =~= madt_signature());
    let mut table = acpi_header(signature, 56, 1);
    bytes::push_u32(&mut table, LAPIC_BASE);
    bytes::push_u32(&mut table, 0);
    let ghost head = table@;
    let mut vcpu_id: u32 = 0;
    assert(head + local_apic_entries(0) =~= head);
    while vcpu_id < vcpu_count
        invariant
            vcpu_id <= vcpu_count,
            head.len() == 44,
            table@ == head + local_apic_entries(vcpu_id as nat),
        decreases vcpu_count - vcpu_id,
    {
        let ghost before = table@;
        let low: u8 = (vcpu_id % 256) as u8;
        table.push(0);
        table.push(8);
        table.push(low);
        table.push(low);
        bytes::push_u32(&mut table, 1);
        assert(table@ =~= before + local_apic_entry(vcpu_id as int));
        vcpu_id = vcpu_id + 1;
        assert(table@ =~= head + local_apic_entries(vcpu_id as nat));
    }
    let ghost before = table@;
    table.push(1);
    table.push(12);
    table.push(IOAPIC_ID);
    table.push(0);
    bytes::push_u32(&mut table, IOAPIC_BASE);
    bytes::push_u32(&mut table, 0);
    assert(table@ =~= before + io_apic_entry());
    finish_acpi_table(table)
}

/// Describes the fixed hardware: there is nearly none.
pub fn build_fadt() -> (table: Vec<u8>)
    ensures
        table@ == fadt(),
        table@.len() == 244,
{
    broadcast use bytes::lemma_le_bytes_len;

    let signature: [u8; 4] = [0x46, 0x41, 0x43, 0x50];
    assert(signature@ =~= fadt_signature());
    let mut table = acpi_header(signature, 244, 6);
    let ghost head = table@;
    let clear = vec![0u8; 10];
    assert(clear@ =~= bytes::zeros(10));
    bytes::push_bytes(&mut table, &clear);
    bytes::push_u16(&mut table, 9);
    let rest = vec![0u8; 196];
    assert(rest@ =~= bytes::zeros(196));
    bytes::push_bytes(&mut table, &rest);
    finish_acpi_table(table)
}

/// Lists the tables at `entries`.
pub fn build_rsdt(entries: &[u32]) -> (table: Vec<u8>)
    requires
        36 + 4 * ((entries@.len() as u32) as int) <= u32::MAX,
    ensures
        table@ == rsdt(entries@),
{
    broadcast use bytes::lemma_le_bytes_len;

    let signature: [u8; 4] = [0x52, 0x53, 0x44, 0x54];
    assert(signature@ =~= rsdt_signature());
    let mut table = acpi_header(signature, 36 + entries.len() as u32 * 4, 1);
    let ghost head = table@;
    let mut i: usize = 0;
    assert(entries@.take(0) =~= Seq::<u32>::empty());
    assert(head + address_list(entries@.take(0)) =~= head);
    while i < entries.len()
        invariant
            i <= entries@.len(),
            head.len() == 36,
            table@ == head + address_list(entries@.take(i as int)),
        decreases entries@.len() - i,
    {
        let ghost before = table@;
        bytes::push_u32(&mut table, entries[i]);
        i = i + 1;
        assert(entries@.take(i as int).drop_last() =~= entries@.take(i - 1));
        assert(table@ =~= head + address_list(entries@.take(i as int)));
    }
    assert(entries@.take(i as int) =~= entries@);
    finish_acpi_table(table)
}

/// Points to the root table at `rsdt_gpa`.
pub fn build_rsdp(rsdt_gpa: u32) -> (table: Vec<u8>)
    ensures
        table@ == rsdp(rsdt_gpa),
        table@.len() == 36,
{
    broadcast use bytes::lemma_le_bytes_len;

    let mut table: Vec<u8> = Vec::new();
    let signature: [u8; 8] = [0x52, 0x53, 0x44, 0x20, 0x50, 0x54, 0x52, 0x20];
    assert(signature@ =~= rsdp_signature());
    bytes::push_bytes(&mut table, &signature);
    table.push(0);
    let oem: [u8; 6] = [0x52, 0x53, 0x48, 0x56, 0x4d, 0x4d];
    assert(oem@ =~= oem_id());
    bytes::push_bytes(&mut table, &oem);
    table.push(2);
    assert(table@ =~= rsdp_signature() + seq![0u8] + oem_id() + seq![2u8]);
    bytes::push_u32(&mut table, rsdt_gpa);
    bytes::push_u32(&mut table, 36);
    bytes::push_u64(&mut table, 0);
    let rest = vec![0u8; 4];
    assert(rest@ =~= bytes::zeros(4));
    bytes::push_bytes(&mut table, &rest);
    assert(table@ == bare_rsdp(rsdt_gpa));
    let head: &[u8] = &table[0..20];
    assert(head@ =~= bare_rsdp(rsdt_gpa).take(20));
    let first = acpi_checksum(head);
    table[8] = first;
    let second = acpi_checksum(&table);
    table[32] = second;
    table
}

proof fn lemma_sum_update(data: Seq<u8>, at: int, value: u8)
    requires
        0 <= at < data.len(),
    ensures
        byte_sum(data.update(at, value)) == byte_sum(data) - data[at] + value,
    decreases data.len(),
{
    if at == data.len() - 1 {
        assert(data.update(at, value).drop_last() =~= data.drop_last());
    } else {
        assert(data.update(at, value).drop_last() =~= data.drop_last().update(at, value));
        lemma_sum_update(data.drop_last(), at, value);
    }
}

proof fn lemma_checksum_closes(data: Seq<u8>, at: int)
    requires
        0 <= at < data.len(),
        data[at] == 0,
    ensures
        byte_sum(data.update(at, checksum(data))) % 256 == 0,
{
    lemma_sum_update(data, at, checksum(data));
}

/// A finished table whose checksum was clear sums to zero in eight bits, is as long as before, and
/// tells its length.
pub proof fn law_finished_table(table: Seq<u8>)
    requires
        table.len() >= 10,
        table[9] == 0,
    ensures
        byte_sum(finished(table)) % 256 == 0,
        finished(table).len() == table.len(),
        table.len() <= u32::MAX ==> bytes::u32_at(finished(table), 4) == table.len(),
{
    broadcast use bytes::lemma_le_bytes_len;

    lemma_checksum_closes(with_length(table), 9);
    let length = table.len() as u32;
    assert(finished(table).subrange(4, 8) =~= bytes::le_bytes(length as nat, 4));
    bytes::lemma_u32_at(finished(table), 4, length);
}

proof fn lemma_header(signature: Seq<u8>, length: u32, revision: u8, rest: Seq<u8>)
    requires
        signature.len() == 4,
    ensures
        header_bytes(signature, length, revision).len() == 36,
        (header_bytes(signature, length, revision) + rest)[9] == 0,
{
    broadcast use bytes::lemma_le_bytes_len;

}

/// Local APIC entries take eight bytes each, in order.
pub proof fn lemma_local_apic_entries(count: nat)
    ensures
        local_apic_entries(count).len() == 8 * count,
        forall|id: int|
            0 <= id < count ==> #[trigger] local_apic_entries(count).subrange(8 * id, 8 * id + 8)
                == local_apic_entry(id),
    decreases count,
{
    broadcast use bytes::lemma_le_bytes_len;

    if count > 0 {
        let front = (count - 1) as nat;
        lemma_local_apic_entries(front);
        assert forall|id: int| 0 <= id < count implies #[trigger] local_apic_entries(
            count,
        ).subrange(8 * id, 8 * id + 8) == local_apic_entry(id) by {
            if id < front {
                assert(local_apic_entries(count).subrange(8 * id, 8 * id + 8)
                    =~= local_apic_entries(front).subrange(8 * id, 8 * id + 8));
            } else {
                assert(local_apic_entries(count).subrange(8 * id, 8 * id + 8) =~= local_apic_entry(
                    id,
                ));
            }
        }
    }
}

/// Addresses take four bytes each, in order.
pub proof fn lemma_address_list(entries: Seq<u32>)
    ensures
        address_list(entries).len() == 4 * entries.len(),
        forall|i: int|
            0 <= i < entries.len() ==> #[trigger] address_list(entries).subrange(4 * i, 4 * i + 4)
                == bytes::le_bytes(entries[i] as nat, 4),
    decreases entries.len(),
{
    broadcast use bytes::lemma_le_bytes_len;

    if entries.len() > 0 {
        let front = entries.drop_last();
        lemma_address_list(front);
        assert forall|i: int| 0 <= i < entries.len() implies #[trigger] address_list(
            entries,
        ).subrange(4 * i, 4 * i + 4) == bytes::le_bytes(entries[i] as nat, 4) by {
            if i < front.len() {
                assert(address_list(entries).subrange(4 * i, 4 * i + 4) =~= address_list(
                    front,
                ).subrange(4 * i, 4 * i + 4));
            } else {
                assert(address_list(entries).subrange(4 * i, 4 * i + 4) =~= bytes::le_bytes(
                    entries[i] as nat,
                    4,
                ));
            }
        }
    }
}

/// The interrupt controller description sums to zero, tells its length, takes eight bytes for each
/// vCPU, and holds for each of them an enabled local APIC entry, in order.
pub proof fn law_madt_advertises_each_vcpu(count: u32)
    ensures
        byte_sum(madt(count)) % 256 == 0,
        madt(count).len() == 56 + 8 * count,
        56 + 8 * count <= u32::MAX ==> bytes::u32_at(madt(count), 4) == 56 + 8 * count,
        forall|id: int|
            0 <= id < count ==> #[trigger] madt(count).subrange(44 + 8 * id, 52 + 8 * id)
                == local_apic_entry(id),
{
    broadcast use bytes::lemma_le_bytes_len;

    let head = header_bytes(madt_signature(), 56, 1) + bytes::le_bytes(LAPIC_BASE as nat, 4)
        + bytes::le_bytes(0, 4);
    let entries = local_apic_entries(count as nat);
    let table = head + entries + io_apic_entry();
    lemma_header(madt_signature(), 56, 1, Seq::empty());
    lemma_local_apic_entries(count as nat);
    assert(table[9] == 0);
    law_finished_table(table);
    assert forall|id: int| 0 <= id < count implies #[trigger] madt(count).subrange(
        44 + 8 * id,
        52 + 8 * id,
    ) == local_apic_entry(id) by {
        assert(madt(count).subrange(44 + 8 * id, 52 + 8 * id) =~= entries.subrange(
            8 * id,
            8 * id + 8,
        ));
    }
}

/// The fixed description sums to zero.
pub proof fn law_fadt_checksum()
    ensures
        byte_sum(fadt()) % 256 == 0,
        fadt().len() == 244,
        bytes::u32_at(fadt(), 4) == 244,
{
    broadcast use bytes::lemma_le_bytes_len;

    let table = header_bytes(fadt_signature(), 244, 6) + bytes::zeros(10) + bytes::le_bytes(9, 2)
        + bytes::zeros(196);
    lemma_header(fadt_signature(), 244, 6, Seq::empty());
    assert(table[9] == 0);
    law_finished_table(table);
}

/// The root table sums to zero and lists the address of each table in order.
pub proof fn law_rsdt_lists_tables(entries: Seq<u32>)
    ensures
        byte_sum(rsdt(entries)) % 256 == 0,
        rsdt(entries).len() == 36 + 4 * entries.len(),
        forall|i: int|
            0 <= i < entries.len() ==> #[trigger] bytes::u32_at(rsdt(entries), 36 + 4 * i)
                == entries[i],
{
    broadcast use bytes::lemma_le_bytes_len;

    let length = (36 + 4 * (entries.len() as u32)) as u32;
    let table = header_bytes(rsdt_signature(), length, 1) + address_list(entries);
    lemma_header(rsdt_signature(), length, 1, address_list(entries));
    lemma_address_list(entries);
    law_finished_table(table);
    assert forall|i: int| 0 <= i < entries.len() implies #[trigger] bytes::u32_at(
        rsdt(entries),
        36 + 4 * i,
    ) == entries[i] by {
        assert(rsdt(entries).subrange(36 + 4 * i, 36 + 4 * i + 4) =~= address_list(
            entries,
        ).subrange(4 * i, 4 * i + 4));
        bytes::lemma_u32_at(rsdt(entries), 36 + 4 * i, entries[i]);
    }
}

/// The root pointer's first 20 bytes sum to zero, and so do all of them, and it tells where the
/// root table lies.
pub proof fn law_rsdp_checksums(rsdt_gpa: u32)
    ensures
        byte_sum(rsdp(rsdt_gpa).take(20)) % 256 == 0,
        byte_sum(rsdp(rsdt_gpa)) % 256 == 0,
        bytes::u32_at(rsdp(rsdt_gpa), 16) == rsdt_gpa,
        rsdp(rsdt_gpa).len() == 36,
{
    broadcast use bytes::lemma_le_bytes_len;

    let bare = bare_rsdp(rsdt_gpa);
    let head = bare.take(20);
    let first = bare.update(8, checksum(head));
    lemma_checksum_closes(head, 8);
    assert(rsdp(rsdt_gpa).take(20) =~= head.update(8, checksum(head)));
    assert(first[32] == 0);
    lemma_checksum_closes(first, 32);
    assert(rsdp(rsdt_gpa).subrange(16, 20) =~= bytes::le_bytes(rsdt_gpa as nat, 4));
    bytes::lemma_u32_at(rsdp(rsdt_gpa), 16, rsdt_gpa);
}

} // verus!
