//! Where everything lies in the structures that the kernel and the device read.
use crate::acpi;
use crate::boot_params;
use crate::boot_params::BootParams;
use crate::bytes;
use crate::ioctl::RunState;
use crate::ioctl::VcpuDtable;
use crate::ioctl::VcpuRegs;
use crate::ioctl::VcpuSegment;
use crate::ioctl::VcpuSregs;
use crate::ioctl::UserMemoryRegion;
use crate::layout;
use crate::setup_header;
use vstd::prelude::*;

verus! {

/// Each field of a setup header lies at its own offset.
pub proof fn law_setup_header_offsets(data: Seq<u8>, at: int)
    ensures
        ({
            let h = setup_header::header_at(data, at);
            &&& h.setup_sects == data[at]
            &&& h.root_flags == bytes::u16_at(data, at + 1)
            &&& h.syssize == bytes::u32_at(data, at + 3)
            &&& h.ram_size == bytes::u16_at(data, at + 7)
            &&& h.vid_mode == bytes::u16_at(data, at + 9)
            &&& h.root_dev == bytes::u16_at(data, at + 11)
            &&& h.boot_flag == bytes::u16_at(data, at + 13)
            &&& h.jump == bytes::u16_at(data, at + 15)
            &&& h.header == bytes::u32_at(data, at + 17)
            &&& h.version == bytes::u16_at(data, at + 21)
            &&& h.realmode_swtch == bytes::u32_at(data, at + 23)
            &&& h.start_sys_seg == bytes::u16_at(data, at + 27)
            &&& h.kernel_version == bytes::u16_at(data, at + 29)
            &&& h.type_of_loader == data[at + 31]
            &&& h.loadflags == data[at + 32]
            &&& h.setup_move_size == bytes::u16_at(data, at + 33)
            &&& h.code32_start == bytes::u32_at(data, at + 35)
            &&& h.ramdisk_image == bytes::u32_at(data, at + 39)
            &&& h.ramdisk_size == bytes::u32_at(data, at + 43)
            &&& h.bootsect_kludge == bytes::u32_at(data, at + 47)
            &&& h.heap_end_ptr == bytes::u16_at(data, at + 51)
            &&& h.ext_loader_ver == data[at + 53]
            &&& h.ext_loader_type == data[at + 54]
            &&& h.cmd_line_ptr == bytes::u32_at(data, at + 55)
            &&& h.initrd_addr_max == bytes::u32_at(data, at + 59)
            &&& h.kernel_alignment == bytes::u32_at(data, at + 63)
            &&& h.relocatable_kernel == data[at + 67]
            &&& h.min_alignment == data[at + 68]
            &&& h.xloadflags == bytes::u16_at(data, at + 69)
            &&& h.cmdline_size == bytes::u32_at(data, at + 71)
            &&& h.hardware_subarch == bytes::u32_at(data, at + 75)
            &&& h.hardware_subarch_data == bytes::u64_at(data, at + 79)
            &&& h.payload_offset == bytes::u32_at(data, at + 87)
            &&& h.payload_length == bytes::u32_at(data, at + 91)
            &&& h.setup_data == bytes::u64_at(data, at + 95)
            &&& h.pref_address == bytes::u64_at(data, at + 103)
            &&& h.init_size == bytes::u32_at(data, at + 111)
            &&& h.handover_offset == bytes::u32_at(data, at + 115)
            &&& h.kernel_info_offset == bytes::u32_at(data, at + 119)
        }),
{
}

/// Each field of a segment register lies at its own offset.
pub proof fn law_segment_offsets(data: Seq<u8>, at: int)
    ensures
        ({
            let t = layout::segment_at(data, at);
            &&& t.base == bytes::u64_at(data, at)
            &&& t.limit == bytes::u32_at(data, at + 8)
            &&& t.selector == bytes::u16_at(data, at + 12)
            &&& t.type_ == data[at + 14]
            &&& t.present == data[at + 15]
            &&& t.dpl == data[at + 16]
            &&& t.db == data[at + 17]
            &&& t.s == data[at + 18]
            &&& t.l == data[at + 19]
            &&& t.g == data[at + 20]
            &&& t.avl == data[at + 21]
            &&& t.unusable == data[at + 22]
            &&& t.padding == data[at + 23]
        }),
{
}

/// Each field of the general registers lies at its own offset, whether they are written or read.
pub proof fn law_regs_offsets(data: Seq<u8>)
    ensures
        ({
            let r = layout::regs_at(data);
            &&& r.rax == bytes::u64_at(data, 0)
            &&& r.rbx == bytes::u64_at(data, 8)
            &&& r.rcx == bytes::u64_at(data, 16)
            &&& r.rdx == bytes::u64_at(data, 24)
            &&& r.rsi == bytes::u64_at(data, 32)
            &&& r.rdi == bytes::u64_at(data, 40)
            &&& r.rbp == bytes::u64_at(data, 48)
            &&& r.rsp == bytes::u64_at(data, 56)
            &&& r.r8 == bytes::u64_at(data, 64)
            &&& r.r9 == bytes::u64_at(data, 72)
            &&& r.r10 == bytes::u64_at(data, 80)
            &&& r.r11 == bytes::u64_at(data, 88)
            &&& r.r12 == bytes::u64_at(data, 96)
            &&& r.r13 == bytes::u64_at(data, 104)
            &&& r.r14 == bytes::u64_at(data, 112)
            &&& r.r15 == bytes::u64_at(data, 120)
            &&& r.rip == bytes::u64_at(data, 128)
            &&& r.rflags == bytes::u64_at(data, 136)
        }),
{
}

/// Each field of the special registers lies at its own offset.
pub proof fn law_sregs_offsets(data: Seq<u8>)
    ensures
        ({
            let s = layout::sregs_at(data);
            &&& s.cs == layout::segment_at(data, 0)
            &&& s.ds == layout::segment_at(data, 24)
            &&& s.es == layout::segment_at(data, 48)
            &&& s.fs == layout::segment_at(data, 72)
            &&& s.gs == layout::segment_at(data, 96)
            &&& s.ss == layout::segment_at(data, 120)
            &&& s.tr == layout::segment_at(data, 144)
            &&& s.ldt == layout::segment_at(data, 168)
            &&& s.gdt.base == bytes::u64_at(data, 192)
            &&& s.gdt.limit == bytes::u16_at(data, 200)
            &&& s.idt.base == bytes::u64_at(data, 208)
            &&& s.idt.limit == bytes::u16_at(data, 216)
            &&& s.cr0 == bytes::u64_at(data, 224)
            &&& s.cr2 == bytes::u64_at(data, 232)
            &&& s.cr3 == bytes::u64_at(data, 240)
            &&& s.cr4 == bytes::u64_at(data, 248)
            &&& s.efer == bytes::u64_at(data, 256)
            &&& s.apic_base == bytes::u64_at(data, 264)
            &&& s.interrupt_bitmap@[0] == bytes::u64_at(data, 272)
            &&& s.interrupt_bitmap@[1] == bytes::u64_at(data, 280)
            &&& s.interrupt_bitmap@[2] == bytes::u64_at(data, 288)
            &&& s.interrupt_bitmap@[3] == bytes::u64_at(data, 296)
        }),
{
}

/// Each field of a memory region lies at its own offset.
pub proof fn law_region_offsets(region: UserMemoryRegion)
    ensures
        region.layout().len() == 32,
        bytes::u32_at(region.layout(), 0) == region.slot,
        bytes::u32_at(region.layout(), 4) == region.flags,
        bytes::u64_at(region.layout(), 8) == region.guest_phys_addr,
        bytes::u64_at(region.layout(), 16) == region.memory_size,
        bytes::u64_at(region.layout(), 24) == region.userspace_addr,
{
    region.lemma_layout();
}

/// Each field of a run state lies at its own offset.
pub proof fn law_run_state_offsets(data: Seq<u8>)
    ensures
        ({
            let r = layout::run_state_at(data);
            &&& r.exit_reason == bytes::u32_at(data, 0)
            &&& r.instruction_len == bytes::u32_at(data, 4)
            &&& r.guest_rip == bytes::u64_at(data, 8)
            &&& r.guest_phys_addr == bytes::u64_at(data, 16)
            &&& r.exit_qualification == bytes::u64_at(data, 24)
            &&& r.io.port == bytes::u16_at(data, 32)
            &&& r.io.size == data[34]
            &&& r.io.is_in == data[35]
            &&& r.io.is_string == data[36]
            &&& r.io.is_repeat == data[37]
            &&& r.io.count == bytes::u32_at(data, 40)
            &&& r.io.data == bytes::u64_at(data, 48)
            &&& r.mmio.phys_addr == bytes::u64_at(data, 56)
            &&& r.mmio.data == bytes::u64_at(data, 64)
            &&& r.mmio.len == bytes::u32_at(data, 72)
            &&& r.mmio.is_write == data[76]
        }),
{
}

/// Fresh structures are clear.
pub proof fn law_fresh_structures()
    ensures
        ({
            let r = VcpuRegs::zero();
            &&& r.rax == 0
            &&& r.rbx == 0
            &&& r.rcx == 0
            &&& r.rdx == 0
            &&& r.rsi == 0
            &&& r.rdi == 0
            &&& r.rbp == 0
            &&& r.rsp == 0
            &&& r.r8 == 0
            &&& r.r9 == 0
            &&& r.r10 == 0
            &&& r.r11 == 0
            &&& r.r12 == 0
            &&& r.r13 == 0
            &&& r.r14 == 0
            &&& r.r15 == 0
            &&& r.rip == 0
            &&& r.rflags == 0
        }),
        ({
            let t = VcpuSegment::zero();
            &&& t.base == 0
            &&& t.limit == 0
            &&& t.selector == 0
            &&& t.type_ == 0
            &&& t.present == 0
            &&& t.dpl == 0
            &&& t.db == 0
            &&& t.s == 0
            &&& t.l == 0
            &&& t.g == 0
            &&& t.avl == 0
            &&& t.unusable == 0
            &&& t.padding == 0
        }),
        VcpuDtable::zero().base == 0 && VcpuDtable::zero().limit == 0,
        ({
            let s = VcpuSregs::zero();
            &&& s.cs == VcpuSegment::zero()
            &&& s.ds == VcpuSegment::zero()
            &&& s.es == VcpuSegment::zero()
            &&& s.fs == VcpuSegment::zero()
            &&& s.gs == VcpuSegment::zero()
            &&& s.ss == VcpuSegment::zero()
            &&& s.tr == VcpuSegment::zero()
            &&& s.ldt == VcpuSegment::zero()
            &&& s.gdt == VcpuDtable::zero() && s.idt == VcpuDtable::zero()
            &&& s.cr0 == 0 && s.cr2 == 0 && s.cr3 == 0 && s.cr4 == 0
            &&& s.efer == 0 && s.apic_base == 0
        }),
        ({
            let r = RunState::zero();
            &&& r.exit_reason == 0 && r.instruction_len == 0 && r.guest_rip == 0
            &&& r.guest_phys_addr == 0 && r.exit_qualification == 0
            &&& r.io.port == 0 && r.io.size == 0 && r.io.is_in == 0
            &&& r.io.is_string == 0 && r.io.is_repeat == 0
        }),
{
}

/// The sum of bytes is the sum of its parts, and of one byte it is the byte.
pub proof fn law_byte_sum(a: Seq<u8>, b: Seq<u8>, x: u8)
    ensures
        acpi::byte_sum(Seq::empty()) == 0,
        acpi::byte_sum(seq![x]) == x,
        acpi::byte_sum(a + b) == acpi::byte_sum(a) + acpi::byte_sum(b),
    decreases b.len(),
{
    reveal_with_fuel(acpi::byte_sum, 2);
    if b.len() == 0 {
        assert(a + b =~= a);
    } else {
        assert((a + b).drop_last() =~= a + b.drop_last());
        law_byte_sum(a, b.drop_last(), x);
    }
}

/// A checksum completes a sum to a multiple of 256.
pub proof fn law_checksum(data: Seq<u8>)
    ensures
        (acpi::byte_sum(data) + acpi::checksum(data)) % 256 == 0,
{
}

/// Every table starts with its signature, its length, its revision and its checksum, and then names its
/// maker; what follows stays as it was given.
pub proof fn law_table_header(
    signature: Seq<u8>,
    length: u32,
    revision: u8,
    rest: Seq<u8>,
    i: int,
)
    requires
        signature.len() == 4,
    ensures
        ({
            let t = acpi::finished(acpi::header_bytes(signature, length, revision) + rest);
            &&& t.len() == 36 + rest.len()
            &&& t.subrange(0, 4) == signature
            &&& 36 + rest.len() <= 0xffff_ffff ==> bytes::u32_at(t, 4) == 36 + rest.len()
            &&& t[8] == revision
            &&& acpi::byte_sum(t) % 256 == 0
            &&& t.subrange(10, 16) == seq![0x52u8, 0x53, 0x48, 0x56, 0x4d, 0x4d]
            &&& t.subrange(16, 24) == seq![0x52u8, 0x55, 0x53, 0x54, 0x53, 0x48, 0x59, 0x50]
            &&& bytes::u32_at(t, 24) == 1
            &&& t.subrange(28, 32) == seq![0x52u8, 0x53, 0x48, 0x56]
            &&& bytes::u32_at(t, 32) == 1
            &&& 0 <= i < rest.len() ==> t[36 + i] == rest[i]
        }),
{
    broadcast use bytes::lemma_le_bytes_len;

    let h = acpi::header_bytes(signature, length, revision);
    let t = acpi::finished(h + rest);
    assert((h + rest)[9] == 0);
    acpi::law_finished_table(h + rest);
    assert(t.subrange(0, 4) =~= signature);
    assert(t.subrange(10, 16) =~= seq![0x52u8, 0x53, 0x48, 0x56, 0x4d, 0x4d]);
    assert(t.subrange(16, 24) =~= seq![0x52u8, 0x55, 0x53, 0x54, 0x53, 0x48, 0x59, 0x50]);
    assert(t.subrange(24, 28) =~= bytes::le_bytes(1, 4));
    assert(t.subrange(28, 32) =~= seq![0x52u8, 0x53, 0x48, 0x56]);
    assert(t.subrange(32, 36) =~= bytes::le_bytes(1, 4));
    bytes::lemma_u32_at(t, 24, 1);
    bytes::lemma_u32_at(t, 32, 1);
}

/// The interrupt controller table names where the local APICs are, then each vCPU in order, enabled and with
/// its number in both places, and last the I/O APIC.
pub proof fn law_madt_bytes(count: u32, id: int)
    ensures
        ({
            let t = acpi::madt(count);
            let at = 44 + 8 * id;
            let end = 44 + 8 * count;
            &&& t.len() == 56 + 8 * count
            &&& t.subrange(0, 4) == seq![0x41u8, 0x50, 0x49, 0x43]
            &&& t[8] == 1
            &&& acpi::byte_sum(t) % 256 == 0
            &&& bytes::u32_at(t, 36) == 0xfee0_0000
            &&& bytes::u32_at(t, 40) == 0
            &&& 0 <= id < count ==> t[at] == 0 && t[at + 1] == 8
            &&& 0 <= id < count ==> t[at + 2] == id % 256 && t[at + 3] == id % 256
            &&& 0 <= id < count ==> bytes::u32_at(t, at + 4) == 1
            &&& t[end] == 1 && t[end + 1] == 12 && t[end + 2] == 1 && t[end + 3] == 0
            &&& bytes::u32_at(t, end + 4) == 0xfec0_0000
            &&& bytes::u32_at(t, end + 8) == 0
        }),
{
    broadcast use bytes::lemma_le_bytes_len;

    let t = acpi::madt(count);
    let at = 44 + 8 * id;
    let end = 44 + 8 * count;
    acpi::law_madt_advertises_each_vcpu(count);
    acpi::lemma_local_apic_entries(count as nat);
    let entries = acpi::local_apic_entries(count as nat);
    let rest = bytes::le_bytes(0xfee0_0000, 4) + bytes::le_bytes(0, 4) + entries
        + acpi::io_apic_entry();
    let h = acpi::header_bytes(acpi::madt_signature(), 56, 1);
    assert(h + bytes::le_bytes(0xfee0_0000, 4) + bytes::le_bytes(0, 4) + entries
        + acpi::io_apic_entry() =~= h + rest);
    law_table_header(acpi::madt_signature(), 56, 1, rest, 0);
    if 0 <= id < count {
        let e = t.subrange(44 + 8 * id, 52 + 8 * id);
        assert(e == acpi::local_apic_entry(id));
        assert(e[0] == t[at] && e[1] == t[at + 1] && e[2] == t[at + 2] && e[3] == t[at + 3]);
        assert(t.subrange(at + 4, at + 4 + 4) =~= e.subrange(4, 8));
        assert(e.subrange(4, 8) =~= bytes::le_bytes(1, 4));
        bytes::lemma_u32_at(t, at + 4, 1);
    }
    assert(t.subrange(36, 40) =~= bytes::le_bytes(0xfee0_0000, 4));
    bytes::lemma_u32_at(t, 36, 0xfee0_0000);
    assert(t.subrange(40, 44) =~= bytes::le_bytes(0, 4));
    bytes::lemma_u32_at(t, 40, 0);
    assert(t.subrange(end, end + 12) =~= acpi::io_apic_entry());
    let last = t.subrange(end, end + 12);
    assert(last[0] == t[end] && last[1] == t[end + 1] && last[2] == t[end + 2] && last[3] == t[end
        + 3]);
    assert(t.subrange(end + 4, end + 4 + 4) =~= last.subrange(4, 8));
    assert(last.subrange(4, 8) =~= bytes::le_bytes(0xfec0_0000, 4));
    bytes::lemma_u32_at(t, end + 4, 0xfec0_0000);
    assert(t.subrange(end + 8, end + 8 + 4) =~= last.subrange(8, 12));
    assert(last.subrange(8, 12) =~= bytes::le_bytes(0, 4));
    bytes::lemma_u32_at(t, end + 8, 0);
}

/// The fixed description is 244 bytes long and says nothing but that its interrupt is number nine.
pub proof fn law_fadt_bytes(i: int)
    requires
        36 <= i < 244,
    ensures
        ({
            let t = acpi::fadt();
            &&& t.len() == 244
            &&& t.subrange(0, 4) == seq![0x46u8, 0x41, 0x43, 0x50]
            &&& t[8] == 6
            &&& acpi::byte_sum(t) % 256 == 0
            &&& t[i] == (if i == 46 {
                9int
            } else {
                0
            })
        }),
{
    broadcast use bytes::lemma_le_bytes_len;

    let rest = bytes::zeros(10) + bytes::le_bytes(9, 2) + bytes::zeros(196);
    let h = acpi::header_bytes(acpi::fadt_signature(), 244, 6);
    assert(h + bytes::zeros(10) + bytes::le_bytes(9, 2) + bytes::zeros(196) =~= h + rest);
    law_table_header(acpi::fadt_signature(), 244, 6, rest, i - 36);
    reveal_with_fuel(bytes::le_bytes, 3);
    assert(bytes::le_bytes(9, 2)[0] == 9);
    assert(bytes::le_bytes(9, 2)[1] == 0);
}

/// The root table lists the addresses that it is given, in order.
pub proof fn law_rsdt_bytes(entries: Seq<u32>, i: int)
    ensures
        ({
            let t = acpi::rsdt(entries);
            &&& t.len() == 36 + 4 * entries.len()
            &&& t.subrange(0, 4) == seq![0x52u8, 0x53, 0x44, 0x54]
            &&& t[8] == 1
            &&& acpi::byte_sum(t) % 256 == 0
            &&& 0 <= i < entries.len() ==> bytes::u32_at(t, 36 + 4 * i) == entries[i]
        }),
{
    acpi::law_rsdt_lists_tables(entries);
    acpi::lemma_address_list(entries);
    law_table_header(
        acpi::rsdt_signature(),
        (36 + 4 * (entries.len() as u32)) as u32,
        1,
        acpi::address_list(entries),
        0,
    );
}

/// The root pointer names its maker, its revision, the root table and its own length, and holds nothing else
/// but its two checksums.
pub proof fn law_rsdp_bytes(rsdt_gpa: u32, i: int)
    requires
        24 <= i < 36,
        i != 32,
    ensures
        ({
            let t = acpi::rsdp(rsdt_gpa);
            &&& t.len() == 36
            &&& t.subrange(0, 8) == seq![0x52u8, 0x53, 0x44, 0x20, 0x50, 0x54, 0x52, 0x20]
            &&& t.subrange(9, 15) == seq![0x52u8, 0x53, 0x48, 0x56, 0x4d, 0x4d]
            &&& t[15] == 2
            &&& bytes::u32_at(t, 16) == rsdt_gpa
            &&& bytes::u32_at(t, 20) == 36
            &&& t[i] == 0
            &&& acpi::byte_sum(t.take(20)) % 256 == 0
            &&& acpi::byte_sum(t) % 256 == 0
        }),
{
    broadcast use bytes::lemma_le_bytes_len;

    let t = acpi::rsdp(rsdt_gpa);
    acpi::law_rsdp_checksums(rsdt_gpa);
    assert(t.subrange(0, 8) =~= seq![0x52u8, 0x53, 0x44, 0x20, 0x50, 0x54, 0x52, 0x20]);
    assert(t.subrange(9, 15) =~= seq![0x52u8, 0x53, 0x48, 0x56, 0x4d, 0x4d]);
    assert(t.subrange(20, 24) =~= bytes::le_bytes(36, 4));
    bytes::lemma_u32_at(t, 20, 36);
    boot_params::lemma_zero_bytes(8);
    assert(acpi::bare_rsdp(rsdt_gpa).subrange(24, 32) =~= bytes::zeros(8));
    if i < 32 {
        assert(acpi::bare_rsdp(rsdt_gpa).subrange(24, 32)[i - 24] == 0);
    }
}

proof fn lemma_words_layout(words: Seq<u32>)
    ensures
        boot_params::words_layout(words).len() == 4 * words.len(),
        forall|i: int|
            0 <= i < words.len() ==> #[trigger] boot_params::words_layout(words).subrange(
                4 * i,
                4 * i + 4,
            ) == bytes::le_bytes(words[i] as nat, 4),
    decreases words.len(),
{
    broadcast use bytes::lemma_le_bytes_len;

    if words.len() > 0 {
        let front = words.drop_last();
        lemma_words_layout(front);
        assert forall|i: int| 0 <= i < words.len() implies #[trigger] boot_params::words_layout(
            words,
        ).subrange(4 * i, 4 * i + 4) == bytes::le_bytes(words[i] as nat, 4) by {
            if i < front.len() {
                assert(boot_params::words_layout(words).subrange(4 * i, 4 * i + 4)
                    =~= boot_params::words_layout(front).subrange(4 * i, 4 * i + 4));
            } else {
                assert(boot_params::words_layout(words).subrange(4 * i, 4 * i + 4)
                    =~= bytes::le_bytes(words[i] as nat, 4));
            }
        }
    }
}

/// Each field of the boot parameters page lies at its own offset.
pub proof fn law_boot_params_offsets(params: BootParams, i: int)
    ensures
        ({
            let data = params.layout();
            &&& data.len() == 4096
            &&& data.subrange(0, 64) == params.screen_info@
            &&& data.subrange(64, 84) == params.apm_bios_info@
            &&& data.subrange(84, 88) == params.pad2@
            &&& bytes::u64_at(data, 88) == params.tboot_addr
            &&& data.subrange(96, 112) == params.ist_info@
            &&& bytes::u64_at(data, 112) == params.acpi_rsdp_addr
            &&& data.subrange(120, 128) == params.pad3@
            &&& data.subrange(128, 144) == params.hd0_info@
            &&& data.subrange(144, 160) == params.hd1_info@
            &&& data.subrange(160, 176) == params.sys_desc_table@
            &&& data.subrange(176, 192) == params.olpc_ofw_header@
            &&& bytes::u32_at(data, 192) == params.ext_ramdisk_image
            &&& bytes::u32_at(data, 196) == params.ext_ramdisk_size
            &&& bytes::u32_at(data, 200) == params.ext_cmd_line_ptr
            &&& data.subrange(204, 316) == params.pad4@
            &&& bytes::u32_at(data, 316) == params.cc_blob_address
            &&& data.subrange(320, 448) == params.edid_info@
            &&& data.subrange(448, 480) == params.efi_info@
            &&& bytes::u32_at(data, 480) == params.alt_mem_k
            &&& bytes::u32_at(data, 484) == params.scratch
            &&& data[488] == params.e820_entries
            &&& data[489] == params.eddbuf_entries
            &&& data[490] == params.edd_mbr_sig_buf_entries
            &&& data[491] == params.kbd_status
            &&& data[492] == params.secure_boot
            &&& data.subrange(493, 495) == params.pad5@
            &&& data[495] == params.sentinel
            &&& data.subrange(496, 497) == params.pad6@
            &&& data.subrange(497, 620) == params.hdr.layout()
            &&& data.subrange(620, 656) == params.pad7@
            &&& 0 <= i < 16 ==> bytes::u32_at(data, 656 + 4 * i) == params.edd_mbr_sig_buffer@[i]
            &&& 0 <= i < 128 ==> boot_params::entry_at(data, 720 + 20 * i) == params.e820_table@[i]
            &&& data.subrange(3280, 3328) == params.pad8@
            &&& data.subrange(3328, 3820) == params.eddbuf@
            &&& data.subrange(3820, 4096) == params.pad9@
        }),
{
    broadcast use bytes::lemma_le_bytes_len;

    let data = params.layout();
    let p = params.pieces();
    params.hdr.lemma_layout();
    boot_params::lemma_table_layout(params.e820_table@);
    lemma_words_layout(params.edd_mbr_sig_buffer@);
    assert(bytes::join(p.take(0)).len() == 0);
    bytes::lemma_piece(p, 0, 0);
    bytes::lemma_piece(p, 1, 64);
    bytes::lemma_piece(p, 2, 84);
    bytes::lemma_piece(p, 3, 88);
    bytes::lemma_piece(p, 4, 96);
    bytes::lemma_piece(p, 5, 112);
    bytes::lemma_piece(p, 6, 120);
    bytes::lemma_piece(p, 7, 128);
    bytes::lemma_piece(p, 8, 144);
    bytes::lemma_piece(p, 9, 160);
    bytes::lemma_piece(p, 10, 176);
    bytes::lemma_piece(p, 11, 192);
    bytes::lemma_piece(p, 12, 196);
    bytes::lemma_piece(p, 13, 200);
    bytes::lemma_piece(p, 14, 204);
    bytes::lemma_piece(p, 15, 316);
    bytes::lemma_piece(p, 16, 320);
    bytes::lemma_piece(p, 17, 448);
    bytes::lemma_piece(p, 18, 480);
    bytes::lemma_piece(p, 19, 484);
    bytes::lemma_piece(p, 20, 488);
    bytes::lemma_piece(p, 21, 489);
    bytes::lemma_piece(p, 22, 490);
    bytes::lemma_piece(p, 23, 491);
    bytes::lemma_piece(p, 24, 492);
    bytes::lemma_piece(p, 25, 493);
    bytes::lemma_piece(p, 26, 495);
    bytes::lemma_piece(p, 27, 496);
    bytes::lemma_piece(p, 28, 497);
    bytes::lemma_piece(p, 29, 620);
    bytes::lemma_piece(p, 30, 656);
    bytes::lemma_piece(p, 31, 720);
    bytes::lemma_piece(p, 32, 3280);
    bytes::lemma_piece(p, 33, 3328);
    bytes::lemma_piece(p, 34, 3820);
    assert(p.take(35) =~= p);
    bytes::lemma_u64_at(data, 88, params.tboot_addr);
    bytes::lemma_u64_at(data, 112, params.acpi_rsdp_addr);
    bytes::lemma_u32_at(data, 192, params.ext_ramdisk_image);
    bytes::lemma_u32_at(data, 196, params.ext_ramdisk_size);
    bytes::lemma_u32_at(data, 200, params.ext_cmd_line_ptr);
    bytes::lemma_u32_at(data, 316, params.cc_blob_address);
    bytes::lemma_u32_at(data, 480, params.alt_mem_k);
    bytes::lemma_u32_at(data, 484, params.scratch);
    assert(data.subrange(488, 489)[0] == data[488]);
    assert(data.subrange(489, 490)[0] == data[489]);
    assert(data.subrange(490, 491)[0] == data[490]);
    assert(data.subrange(491, 492)[0] == data[491]);
    assert(data.subrange(492, 493)[0] == data[492]);
    assert(data.subrange(495, 496)[0] == data[495]);
    if 0 <= i < 16 {
        assert(data.subrange(656 + 4 * i, 656 + 4 * i + 4) =~= data.subrange(656, 720).subrange(
            4 * i,
            4 * i + 4,
        ));
        bytes::lemma_u32_at(data, 656 + 4 * i, params.edd_mbr_sig_buffer@[i]);
    }
    if 0 <= i < 128 {
        assert(data.subrange(720 + 20 * i, 720 + 20 * i + 20) =~= data.subrange(720, 3280).subrange(
            20 * i,
            20 * i + 20,
        ));
        boot_params::lemma_entry_in(data, 720 + 20 * i, params.e820_table@[i]);
    }
}

} // verus!
