//! Loading a guest: where each byte of an image, its boot data and its registers comes from.
use crate::acpi;
use crate::api::DeviceRequest;
use crate::api::GuestMemory;
use crate::boot;
use crate::boot::BootPlan;
use crate::boot_params;
use crate::bytes;
use crate::config::VmmConfig;
use crate::error::VmmError;
use crate::guest;
use crate::guest::GuestWrite;
use crate::ioctl::VcpuSegment;
use crate::linux;
use crate::linux::BootModel;
use crate::linux::LinuxBootConfig;
use crate::setup_header;
use crate::setup_header::SetupHeader;
use crate::text;
use vstd::prelude::*;
use vstd::string::*;

verus! {

/// The last of some writes that covers an address decides what stands there.
pub proof fn law_last_write_decides(memory: Seq<u8>, writes: Seq<GuestWrite>, k: int, at: int)
    requires
        0 <= k < writes.len(),
        guest::written(memory, writes).1 is None,
        writes[k].addr as usize <= at < (writes[k].addr as usize) + writes[k].data.len(),
        forall|j: int|
            k < j < writes.len() ==> !((#[trigger] writes[j]).addr as usize <= at < (
            writes[j].addr as usize) + writes[j].data.len()),
    ensures
        at < memory.len(),
        guest::written(memory, writes).0[at] == writes[k].data[at - (writes[k].addr as usize)],
    decreases writes.len(),
{
    let next = bytes::overlay(memory, (writes[0].addr as usize) as int, writes[0].data);
    let rest = writes.drop_first();
    assert forall|j: int| 0 <= j < rest.len() implies #[trigger] rest[j] == writes[j + 1] by {}
    if k > 0 {
        law_last_write_decides(next, rest, k - 1, at);
    } else {
        guest::law_writes_leave_the_rest(next, rest, at);
    }
}

/// Writes end with an error exactly where one of them ends beyond memory; then the first such write
/// is the one that is told.
pub proof fn law_first_misfit_is_told(memory: Seq<u8>, writes: Seq<GuestWrite>, k: int)
    requires
        0 <= k < writes.len(),
        (writes[k].addr as usize) + writes[k].data.len() > memory.len(),
        forall|j: int|
            0 <= j < k ==> ((#[trigger] writes[j]).addr as usize) + writes[j].data.len()
                <= memory.len(),
    ensures
        guest::written(memory, writes).1 == Some(
            VmmError::GuestDataDoesNotFit {
                guest_addr: writes[k].addr,
                size: writes[k].data.len() as usize,
            },
        ),
    decreases writes.len(),
{
    let rest = writes.drop_first();
    assert forall|j: int| 0 <= j < rest.len() implies #[trigger] rest[j] == writes[j + 1] by {}
    if k > 0 {
        assert(writes[0].fits(memory.len()));
        law_first_misfit_is_told(
            bytes::overlay(memory, (writes[0].addr as usize) as int, writes[0].data),
            rest,
            k - 1,
        );
    }
}

/// An image is taken for a bzImage exactly where it reaches to byte 0x26c and has the boot flag at
/// 0x1fe, `HdrS` at 0x202, and a boot protocol of 2.15 or later at 0x206. What is found missing first
/// is what is told.
pub proof fn law_bzimage_signature(image: Seq<u8>)
    ensures
        setup_header::setup_header_error(image) == (if image.len() < 0x26c {
            Some(VmmError::ImageTooSmall)
        } else if !(image[0x1fe] == 0x55 && image[0x1ff] == 0xaa) {
            Some(VmmError::InvalidBootFlag)
        } else if !(image[0x202] == 0x48 && image[0x203] == 0x64 && image[0x204] == 0x72
            && image[0x205] == 0x53) {
            Some(VmmError::InvalidHeaderMagic)
        } else if image[0x206] + 0x100 * image[0x207] < 0x20f {
            Some(
                VmmError::BootProtocolTooOld {
                    version: (image[0x206] + 0x100 * image[0x207]) as u16,
                },
            )
        } else {
            None
        }),
{
    crate::laws::numbers::law_stored_numbers(image, 0x1fe);
    crate::laws::numbers::law_stored_numbers(image, 0x202);
    crate::laws::numbers::law_stored_numbers(image, 0x206);
}

/// The kernel that a loaded guest starts is the image from behind its setup sectors on: byte 0x1f1 of
/// the image counts them, zero stands for four, and one boot sector comes before them. Every byte of it
/// stands at the kernel's address, but for those that the other parts of the boot data lie on.
pub proof fn law_kernel_is_the_image_behind_its_setup_sectors(
    memory: Seq<u8>,
    image: Seq<u8>,
    config: BootModel,
    i: int,
)
    requires
        linux::load_outcome(memory, image, config).1 is Ok,
        ({
            let sectors = if image[0x1f1] == 0 {
                4
            } else {
                image[0x1f1] as int
            };
            let cmdline = match config.cmdline {
                Some(cmdline) => cmdline,
                None => "console=ttyS0 earlycon=uart8250,io,0x3f8 nokaslr"@,
            };
            let at = (if config.kernel_load_addr == 0 {
                0x10_0000
            } else {
                (config.kernel_load_addr as usize) as int
            }) + i;
            let header = setup_header::header_at(image, 0x1f1);
            &&& 0 <= i < image.len() - (sectors + 1) * 512
            &&& !(0x5000 <= at < 0x5028)
            &&& !(0x1_0000 <= at < 0x1_1000)
            &&& !(0x2_0000 <= at < 0x2_0000 + vstd::utf8::encode_utf8(cmdline).len() + 1)
            &&& !(0xf_0000 <= at < 0xf_0024)
            &&& !(0xf_1000 <= at < 0xf_102c)
            &&& !(0xf_2000 <= at < 0xf_20f4)
            &&& !(0xf_3000 <= at < 0xf_3038 + 8 * config.vcpu_count)
            &&& config.initrd matches Some(initrd) ==> !((linux::initrd_start(
                config.guest_mem_size,
                header,
                initrd.len() as u64,
            ) as u64) as usize <= at < ((linux::initrd_start(
                config.guest_mem_size,
                header,
                initrd.len() as u64,
            ) as u64) as usize) + initrd.len())
        }),
    ensures
        ({
            let sectors = if image[0x1f1] == 0 {
                4
            } else {
                image[0x1f1] as int
            };
            let at = (if config.kernel_load_addr == 0 {
                0x10_0000
            } else {
                (config.kernel_load_addr as usize) as int
            }) + i;
            &&& at < memory.len()
            &&& linux::load_outcome(memory, image, config).0[at] == image[(sectors + 1) * 512 + i]
        }),
{
    let header = setup_header::header_at(image, setup_header::SETUP_HEADER_OFFSET as int);
    let writes = config.boot_writes(image, header);
    linux::lemma_boot_sizes(config, header);
    linux::lemma_boot_writes(config, image, header);
    let at = (config.kernel_addr() as usize) + i;
    law_last_write_decides(memory, writes, 0, at);
}

/// An image is refused as having no kernel exactly where it ends with its setup sectors or before.
pub proof fn law_image_must_reach_behind_its_setup_sectors(
    memory: Seq<u8>,
    image: Seq<u8>,
    config: BootModel,
)
    requires
        setup_header::setup_header_error(image) is None,
    ensures
        linux::load_outcome(memory, image, config).1 == Err::<linux::LinuxBootState, VmmError>(
            VmmError::SetupExceedsImage,
        ) <==> image.len() <= ((if image[0x1f1] == 0 {
            4
        } else {
            image[0x1f1] as int
        }) + 1) * 512,
{
    let header = setup_header::header_at(image, setup_header::SETUP_HEADER_OFFSET as int);
    guest::lemma_written_error(memory, config.early_writes(image, header));
    guest::lemma_written_error(memory, config.boot_writes(image, header));
}

/// Of all page boundaries from which an initrd ends within guest memory and within the kernel's limit,
/// both rounded down to a page, it starts at the highest. Where one of them is at or above one megabyte,
/// there is room for it; otherwise there is none.
pub proof fn law_initrd_starts_at_the_highest_page(
    guest_mem_size: u64,
    header: SetupHeader,
    len: u64,
    other: int,
)
    ensures
        ({
            let start = linux::initrd_start(guest_mem_size, header, len);
            let limit = header.initrd_addr_max + 1;
            let fits = |from: int|
                from + len <= guest_mem_size - guest_mem_size % 0x1000 && (header.initrd_addr_max
                    != 0 ==> from + len <= limit - limit % 0x1000);
            &&& start % 0x1000 == 0
            &&& start >= 0x10_0000 ==> fits(start)
            &&& other >= 0 && other % 0x1000 == 0 && fits(other) ==> other <= start
            &&& other >= 0x10_0000 && other % 0x1000 == 0 && fits(other) ==> start >= 0x10_0000
        }),
{
}

/// What a load that succeeds comes down to.
proof fn lemma_loaded(memory: Seq<u8>, image: Seq<u8>, config: BootModel)
    requires
        linux::load_outcome(memory, image, config).1 is Ok,
    ensures
        linux::load_outcome(memory, image, config).1->Ok_0 == config.boot_state(),
        linux::load_outcome(memory, image, config).0.len() == memory.len(),
{
    let header = setup_header::header_at(image, setup_header::SETUP_HEADER_OFFSET as int);
    guest::lemma_written_len(memory, config.boot_writes(image, header));
}

/// Data, texts and settings are taken as they are given.
pub proof fn law_taken_as_given(
    config: &LinuxBootConfig<'_>,
    lines: Seq<String>,
    line: String,
    data: &[u8],
)
    ensures
        config@.kernel_load_addr == config.kernel_load_addr,
        config@.guest_mem_size == config.guest_mem_size,
        config@.vcpu_count == config.vcpu_count,
        config@.stack_pointer == config.stack_pointer,
        config@.initrd is Some <==> config.initrd is Some,
        config.initrd matches Some(initrd) ==> config@.initrd == Some(initrd@),
        config@.cmdline is Some <==> config.cmdline is Some,
        config.cmdline matches Some(cmdline) ==> config@.cmdline == Some(cmdline@),
        boot::bytes_of(Some(data)) == Some(data@),
        boot::bytes_of(None) is None,
        text::text_of(Some(line)) == Some(line@),
        text::text_of(None) is None,
        text::texts(lines.push(line)) == text::texts(lines).push(line@),
        text::texts(Seq::empty()).len() == 0,
{
    assert(text::texts(lines.push(line)) =~= text::texts(lines).push(line@));
}

/// The addresses that the boot data and the kernel go by.
pub proof fn law_fixed_addresses()
    ensures
        linux::ZERO_PAGE_GPA == 0x1_0000,
        linux::CMDLINE_GPA == 0x2_0000,
        linux::EBDA_END == 0x9_f000,
        linux::LOW_MEM_HOLE_END == 0x10_0000,
        linux::DEFAULT_KERNEL_LOAD_ADDR == 0x10_0000,
        linux::DEFAULT_BOOT_STACK_PTR == 0x1f_f000,
        crate::segments::GDT_GPA == 0x5000,
        acpi::ACPI_RSDP_GPA == 0xf_0000,
        acpi::ACPI_RSDT_GPA == 0xf_1000,
        acpi::ACPI_FADT_GPA == 0xf_2000,
        acpi::ACPI_MADT_GPA == 0xf_3000,
        acpi::LAPIC_BASE == 0xfee0_0000,
        acpi::IOAPIC_BASE == 0xfec0_0000,
        setup_header::SETUP_HEADER_OFFSET == 0x1f1,
        setup_header::SETUP_HEADER_SIZE == 123,
{
}

/// A load succeeds exactly where the image is a bzImage with a kernel, an initrd has a place at or above
/// one megabyte, and the kernel, the command line, the initrd and the tables end within memory.
#[verifier::rlimit(30)]
pub proof fn law_load_succeeds(memory: Seq<u8>, image: Seq<u8>, config: BootModel)
    ensures
        linux::load_outcome(memory, image, config).1 is Ok <==> ({
            let sectors = if image[0x1f1] == 0 {
                4
            } else {
                image[0x1f1] as int
            };
            let cmdline = match config.cmdline {
                Some(cmdline) => cmdline,
                None => "console=ttyS0 earlycon=uart8250,io,0x3f8 nokaslr"@,
            };
            let kernel = if config.kernel_load_addr == 0 {
                0x10_0000
            } else {
                (config.kernel_load_addr as usize) as int
            };
            &&& setup_header::setup_header_error(image) is None
            &&& (sectors + 1) * 512 < image.len()
            &&& kernel + image.len() - (sectors + 1) * 512 <= memory.len()
            &&& 0x2_0000 + vstd::utf8::encode_utf8(cmdline).len() + 1 <= memory.len()
            &&& 0xf_3038 + 8 * config.vcpu_count <= memory.len()
            &&& config.initrd matches Some(initrd) ==> ({
                let start = linux::initrd_start(
                    config.guest_mem_size,
                    setup_header::header_at(image, 0x1f1),
                    initrd.len() as u64,
                );
                start >= 0x10_0000 && ((start as u64) as usize) + initrd.len() <= memory.len()
            })
        }),
{
    let header = setup_header::header_at(image, setup_header::SETUP_HEADER_OFFSET as int);
    let writes = config.boot_writes(image, header);
    linux::lemma_boot_sizes(config, header);
    linux::lemma_boot_writes(config, image, header);
    linux::law_load_succeeds_where_all_fits(memory, image, config);
    if setup_header::setup_header_error(image) is None && linux::setup_size(header) < image.len() {
        let n = config.initrd_writes(header).len() as int;
        assert(image.skip(linux::setup_size(header)).len() == image.len() - linux::setup_size(
            header,
        ));
        if forall|k: int| 0 <= k < writes.len() ==> (#[trigger] writes[k]).fits(memory.len()) {
            assert(writes[0].fits(memory.len()));
            assert(writes[2].fits(memory.len()));
            assert(writes[3].fits(memory.len()));
            assert(writes[3 + n].fits(memory.len()));
        }
    }
}

/// The first vCPU of a loaded guest starts at the low 32 bits of the kernel's address, on the stack asked
/// for or the usual one, with its boot parameters' address in `rsi`, and with everything else clear.
pub proof fn law_entry_registers(memory: Seq<u8>, image: Seq<u8>, config: BootModel)
    requires
        linux::load_outcome(memory, image, config).1 is Ok,
    ensures
        ({
            let state = linux::load_outcome(memory, image, config).1->Ok_0;
            let kernel = if config.kernel_load_addr == 0 {
                0x10_0000
            } else {
                config.kernel_load_addr as int
            };
            &&& state.regs.rip == kernel % 0x1_0000_0000
            &&& state.entry_point == kernel % 0x1_0000_0000
            &&& config.stack_pointer != 0 ==> state.regs.rsp == config.stack_pointer
            &&& config.stack_pointer == 0 ==> state.regs.rsp == 0x1f_f000
            &&& state.regs.rsi == 0x1_0000
            &&& state.zero_page_addr == 0x1_0000
            &&& state.regs.rflags == 2
            &&& state.regs.rax == 0 && state.regs.rbx == 0 && state.regs.rcx == 0
            &&& state.regs.rdx == 0 && state.regs.rdi == 0 && state.regs.rbp == 0
            &&& state.regs.r8 == 0 && state.regs.r9 == 0 && state.regs.r10 == 0
            &&& state.regs.r11 == 0 && state.regs.r12 == 0 && state.regs.r13 == 0
            &&& state.regs.r14 == 0 && state.regs.r15 == 0
        }),
{
}

/// The first vCPU of a loaded guest starts in flat 32-bit segments: code at selector 0x10, data at 0x18,
/// a task at 0x20, and no local table. Protected mode is on and paging is off.
pub proof fn law_entry_segments(memory: Seq<u8>, image: Seq<u8>, config: BootModel)
    requires
        linux::load_outcome(memory, image, config).1 is Ok,
    ensures
        ({
            let s = linux::load_outcome(memory, image, config).1->Ok_0.sregs;
            let flat = |segment: VcpuSegment, selector: int, type_: int|
                segment.base == 0 && segment.limit == 0xffff_ffff && segment.selector == selector
                    && segment.type_ == type_ && segment.present == 1 && segment.dpl == 0
                    && segment.db == 1 && segment.s == 1 && segment.l == 0 && segment.g == 1
                    && segment.avl == 0 && segment.unusable == 0;
            &&& flat(s.cs, 0x10, 0x0b)
            &&& flat(s.ds, 0x18, 0x03)
            &&& flat(s.es, 0x18, 0x03)
            &&& flat(s.fs, 0x18, 0x03)
            &&& flat(s.gs, 0x18, 0x03)
            &&& flat(s.ss, 0x18, 0x03)
            &&& s.tr.base == 0 && s.tr.limit == 0xffff && s.tr.selector == 0x20
            &&& s.tr.type_ == 0x0b && s.tr.present == 1 && s.tr.s == 0 && s.tr.unusable == 0
            &&& s.ldt.unusable == 1 && s.ldt.present == 0
            &&& s.gdt.base == 0x5000 && s.gdt.limit == 39
            &&& s.idt.base == 0 && s.idt.limit == 0
            &&& s.cr0 == 0x31 && s.cr2 == 0 && s.cr3 == 0 && s.cr4 == 0
            &&& s.efer == 0 && s.apic_base == 0
            &&& s.interrupt_bitmap@[0] == 0 && s.interrupt_bitmap@[1] == 0
            &&& s.interrupt_bitmap@[2] == 0 && s.interrupt_bitmap@[3] == 0
        }),
{
    lemma_loaded(memory, image, config);
}

/// In a loaded guest the descriptor table at 0x5000 holds the flat code segment, the flat data segment
/// and the task, behind two empty entries.
pub proof fn law_descriptor_table_in_memory(memory: Seq<u8>, image: Seq<u8>, config: BootModel)
    requires
        config.guest_mem_size <= usize::MAX,
        linux::load_outcome(memory, image, config).1 is Ok,
    ensures
        ({
            let after = linux::load_outcome(memory, image, config).0;
            &&& bytes::u64_at(after, 0x5000) == 0
            &&& bytes::u64_at(after, 0x5008) == 0
            &&& bytes::u64_at(after, 0x5010) == 0x00c0_9b00_0000_ffff
            &&& bytes::u64_at(after, 0x5018) == 0x00c0_9300_0000_ffff
            &&& bytes::u64_at(after, 0x5020) == 0x0000_8b00_0000_ffff
        }),
{
    linux::law_loaded_tables_stand(memory, image, config, 0);
    lemma_descriptors(linux::load_outcome(memory, image, config).0);
}

proof fn lemma_descriptors(after: Seq<u8>)
    requires
        guest::holds(after, (GuestWrite { addr: 0x5000, data: crate::segments::gdt_bytes() })),
    ensures
        bytes::u64_at(after, 0x5000) == 0,
        bytes::u64_at(after, 0x5008) == 0,
        bytes::u64_at(after, 0x5010) == 0x00c0_9b00_0000_ffff,
        bytes::u64_at(after, 0x5018) == 0x00c0_9300_0000_ffff,
        bytes::u64_at(after, 0x5020) == 0x0000_8b00_0000_ffff,
{
    broadcast use bytes::lemma_le_bytes_len;

    let table = crate::segments::gdt_bytes();
    let gdt = crate::segments::boot_gdt();
    let found = after.subrange(0x5000, 0x5028);
    assert(table.len() == 40);
    assert(found =~= table);
    assert(after.subrange(0x5000, 0x5008) =~= bytes::le_bytes(gdt[0] as nat, 8)) by {
        assert(after.subrange(0x5000, 0x5008) =~= table.subrange(0, 8));
    }
    assert(after.subrange(0x5008, 0x5010) =~= bytes::le_bytes(gdt[1] as nat, 8)) by {
        assert(after.subrange(0x5008, 0x5010) =~= found.subrange(8, 16));
        assert(table.subrange(8, 16) =~= bytes::le_bytes(gdt[1] as nat, 8));
    }
    assert(after.subrange(0x5010, 0x5018) =~= bytes::le_bytes(gdt[2] as nat, 8)) by {
        assert(after.subrange(0x5010, 0x5018) =~= found.subrange(16, 24));
        assert(table.subrange(16, 24) =~= bytes::le_bytes(gdt[2] as nat, 8));
    }
    assert(after.subrange(0x5018, 0x5020) =~= bytes::le_bytes(gdt[3] as nat, 8)) by {
        assert(after.subrange(0x5018, 0x5020) =~= found.subrange(24, 32));
        assert(table.subrange(24, 32) =~= bytes::le_bytes(gdt[3] as nat, 8));
    }
    assert(after.subrange(0x5020, 0x5028) =~= bytes::le_bytes(gdt[4] as nat, 8)) by {
        assert(after.subrange(0x5020, 0x5028) =~= found.subrange(32, 40));
        assert(table.subrange(32, 40) =~= bytes::le_bytes(gdt[4] as nat, 8));
    }
    bytes::lemma_u64_at(after, 0x5000, gdt[0]);
    bytes::lemma_u64_at(after, 0x5008, gdt[1]);
    bytes::lemma_u64_at(after, 0x5010, gdt[2]);
    bytes::lemma_u64_at(after, 0x5018, gdt[3]);
    bytes::lemma_u64_at(after, 0x5020, gdt[4]);
}

/// In a loaded guest the command line stands at 0x20000, ended by a zero byte, as long as it does not
/// reach the tables at 0xf0000.
pub proof fn law_command_line_in_memory(memory: Seq<u8>, image: Seq<u8>, config: BootModel)
    requires
        config.guest_mem_size <= usize::MAX,
        linux::load_outcome(memory, image, config).1 is Ok,
        ({
            let cmdline = match config.cmdline {
                Some(cmdline) => cmdline,
                None => "console=ttyS0 earlycon=uart8250,io,0x3f8 nokaslr"@,
            };
            0x2_0000 + vstd::utf8::encode_utf8(cmdline).len() + 1 <= 0xf_0000
        }),
    ensures
        ({
            let cmdline = match config.cmdline {
                Some(cmdline) => cmdline,
                None => "console=ttyS0 earlycon=uart8250,io,0x3f8 nokaslr"@,
            };
            let data = vstd::utf8::encode_utf8(cmdline);
            let after = linux::load_outcome(memory, image, config).0;
            &&& after.subrange(0x2_0000, 0x2_0000int + data.len()) == data
            &&& after[0x2_0000int + data.len()] == 0
        }),
{
    let header = setup_header::header_at(image, setup_header::SETUP_HEADER_OFFSET as int);
    let cmdline = match config.cmdline {
            Some(cmdline) => cmdline,
            None => "console=ttyS0 earlycon=uart8250,io,0x3f8 nokaslr"@,
    };
    let data = vstd::utf8::encode_utf8(cmdline);
    let after = linux::load_outcome(memory, image, config).0;
    linux::law_loaded_command_line_stands(memory, image, config);
    let found = after.subrange(0x2_0000, 0x2_0000int + data.len() + 1);
    assert(found == data.push(0));
    assert(found.drop_last() =~= data);
    assert(after.subrange(0x2_0000, 0x2_0000int + data.len()) =~= found.drop_last());
    assert(found[data.len() as int] == after[0x2_0000int + data.len()]);
}

/// In a loaded guest every byte of the initrd stands in order from where it starts on, as long as the
/// vCPUs' table at 0xf3000 does not reach it.
pub proof fn law_initrd_in_memory(memory: Seq<u8>, image: Seq<u8>, config: BootModel, i: int)
    requires
        config.guest_mem_size <= usize::MAX,
        linux::load_outcome(memory, image, config).1 is Ok,
        config.initrd matches Some(initrd) && 0 <= i < initrd.len() && 0xf_3038 + 8
            * config.vcpu_count <= linux::initrd_start(
            config.guest_mem_size,
            setup_header::header_at(image, 0x1f1),
            initrd.len() as u64,
        ),
    ensures
        ({
            let initrd = config.initrd->Some_0;
            let start = linux::initrd_start(
                config.guest_mem_size,
                setup_header::header_at(image, 0x1f1),
                initrd.len() as u64,
            );
            start + i < memory.len() && linux::load_outcome(memory, image, config).0[start + i]
                == initrd[i]
        }),
{
    let header = setup_header::header_at(image, setup_header::SETUP_HEADER_OFFSET as int);
    let writes = config.boot_writes(image, header);
    let start = config.initrd_addr(header);
    linux::lemma_boot_sizes(config, header);
    linux::lemma_boot_writes(config, image, header);
    linux::law_initrd_placement(
        config.guest_mem_size,
        header,
        config.initrd->Some_0.len() as u64,
        0,
    );
    assert((start as u64) as usize == start);
    law_last_write_decides(memory, writes, 3, start + i);
}

/// The boot parameters page of a loaded guest, at 0x10000, holds the image's own header with what a loader
/// has to tell: who it is, that the kernel was loaded high and may use a heap, where the kernel, the command
/// line and the initrd are, and how long those two are, each in 32 bits.
pub proof fn law_header_in_memory(memory: Seq<u8>, image: Seq<u8>, config: BootModel)
    requires
        config.guest_mem_size <= usize::MAX,
        linux::load_outcome(memory, image, config).1 is Ok,
    ensures
        ({
            let given = setup_header::header_at(image, 0x1f1);
            let found = setup_header::header_at(
                linux::load_outcome(memory, image, config).0,
                0x1_01f1,
            );
            let kernel = if config.kernel_load_addr == 0 {
                0x10_0000
            } else {
                config.kernel_load_addr as int
            };
            let cmdline = match config.cmdline {
                Some(cmdline) => cmdline,
                None => "console=ttyS0 earlycon=uart8250,io,0x3f8 nokaslr"@,
            };
            &&& found.type_of_loader == 0xff
            &&& found.loadflags == given.loadflags | 0x81
            &&& found.heap_end_ptr == 0xfe00
            &&& found.code32_start == kernel % 0x1_0000_0000
            &&& found.cmd_line_ptr == 0x2_0000
            &&& found.cmdline_size == (vstd::utf8::encode_utf8(cmdline).len() + 1) % 0x1_0000_0000
            &&& config.initrd is None ==> found.ramdisk_image == 0 && found.ramdisk_size == 0
            &&& config.initrd matches Some(initrd) ==> found.ramdisk_size == initrd.len()
                % 0x1_0000_0000 && found.ramdisk_image == linux::initrd_start(
                config.guest_mem_size,
                given,
                initrd.len() as u64,
            ) % 0x1_0000_0000
            &&& found == (SetupHeader {
                type_of_loader: found.type_of_loader,
                loadflags: found.loadflags,
                heap_end_ptr: found.heap_end_ptr,
                code32_start: found.code32_start,
                cmd_line_ptr: found.cmd_line_ptr,
                cmdline_size: found.cmdline_size,
                ramdisk_image: found.ramdisk_image,
                ramdisk_size: found.ramdisk_size,
                ..given
            })
        }),
{
    lemma_loaded(memory, image, config);
    linux::law_kernel_finds_its_parameters(memory, image, config);
    lemma_boot_header(config, setup_header::header_at(image, 0x1f1));
}

proof fn lemma_boot_header(config: BootModel, given: SetupHeader)
    ensures
        ({
            let found = config.boot_header(given);
            let kernel = if config.kernel_load_addr == 0 {
                0x10_0000
            } else {
                config.kernel_load_addr as int
            };
            let cmdline = match config.cmdline {
                Some(cmdline) => cmdline,
                None => "console=ttyS0 earlycon=uart8250,io,0x3f8 nokaslr"@,
            };
            &&& found.type_of_loader == 0xff
            &&& found.loadflags == given.loadflags | 0x81
            &&& found.heap_end_ptr == 0xfe00
            &&& found.code32_start == kernel % 0x1_0000_0000
            &&& found.cmd_line_ptr == 0x2_0000
            &&& found.cmdline_size == (vstd::utf8::encode_utf8(cmdline).len() + 1) % 0x1_0000_0000
            &&& config.initrd is None ==> found.ramdisk_image == 0 && found.ramdisk_size == 0
            &&& config.initrd matches Some(initrd) ==> found.ramdisk_size == initrd.len()
                % 0x1_0000_0000 && found.ramdisk_image == linux::initrd_start(
                config.guest_mem_size,
                given,
                initrd.len() as u64,
            ) % 0x1_0000_0000
        }),
{
}

/// The memory map of a loaded guest tells of low memory up to 0x9f000, of a hole up to one megabyte, and
/// of everything that the guest has beyond.
pub proof fn law_memory_map_in_memory(memory: Seq<u8>, image: Seq<u8>, config: BootModel)
    requires
        config.guest_mem_size <= usize::MAX,
        linux::load_outcome(memory, image, config).1 is Ok,
    ensures
        ({
            let after = linux::load_outcome(memory, image, config).0;
            &&& after[0x1_01e8] == (if config.guest_mem_size > 0x10_0000 {
                3int
            } else {
                2
            })
            &&& bytes::u64_at(after, 0x1_02d0) == 0
            &&& bytes::u64_at(after, 0x1_02d8) == 0x9_f000
            &&& bytes::u32_at(after, 0x1_02e0) == 1
            &&& bytes::u64_at(after, 0x1_02e4) == 0x9_f000
            &&& bytes::u64_at(after, 0x1_02ec) == 0x6_1000
            &&& bytes::u32_at(after, 0x1_02f4) == 2
            &&& config.guest_mem_size > 0x10_0000 ==> bytes::u64_at(after, 0x1_02f8) == 0x10_0000
                && bytes::u64_at(after, 0x1_0300) == config.guest_mem_size - 0x10_0000
                && bytes::u32_at(after, 0x1_0308) == 1
            &&& bytes::u64_at(after, 0x1_0070) == 0xf_0000
        }),
{
    lemma_loaded(memory, image, config);
    linux::law_kernel_finds_its_parameters(memory, image, config);
    lemma_map_entries(linux::load_outcome(memory, image, config).0, config.guest_mem_size);
}

proof fn lemma_map_entries(after: Seq<u8>, guest_mem_size: u64)
    requires
        forall|i: int|
            0 <= i < linux::e820_map(guest_mem_size).len() ==> #[trigger] boot_params::entry_at(
                after,
                0x1_0000 + 0x2d0 + 20 * i,
            ) == linux::e820_map(guest_mem_size)[i],
    ensures
        bytes::u64_at(after, 0x1_02d0) == 0,
        bytes::u64_at(after, 0x1_02d8) == 0x9_f000,
        bytes::u32_at(after, 0x1_02e0) == 1,
        bytes::u64_at(after, 0x1_02e4) == 0x9_f000,
        bytes::u64_at(after, 0x1_02ec) == 0x6_1000,
        bytes::u32_at(after, 0x1_02f4) == 2,
        guest_mem_size > 0x10_0000 ==> bytes::u64_at(after, 0x1_02f8) == 0x10_0000
            && bytes::u64_at(after, 0x1_0300) == guest_mem_size - 0x10_0000 && bytes::u32_at(
            after,
            0x1_0308,
        ) == 1,
{
    let map = linux::e820_map(guest_mem_size);
    assert(boot_params::entry_at(after, 0x1_0000 + 0x2d0 + 20 * 0int) == map[0]);
    assert(boot_params::entry_at(after, 0x1_0000 + 0x2d0 + 20 * 1int) == map[1]);
    if guest_mem_size > 0x10_0000 {
        assert(boot_params::entry_at(after, 0x1_0000 + 0x2d0 + 20 * 2int) == map[2]);
    }
}

/// In a loaded guest the four ACPI tables stand at their addresses and lead to each other: the root pointer to
/// the root table, and that to the vCPUs' table and the fixed description.
pub proof fn law_acpi_tables_in_memory(memory: Seq<u8>, image: Seq<u8>, config: BootModel)
    requires
        config.guest_mem_size <= usize::MAX,
        linux::load_outcome(memory, image, config).1 is Ok,
    ensures
        ({
            let after = linux::load_outcome(memory, image, config).0;
            &&& after.subrange(0xf_0000, 0xf_0024) == acpi::rsdp(0xf_1000)
            &&& after.subrange(0xf_1000, 0xf_102c) == acpi::rsdt(seq![0xf_3000u32, 0xf_2000])
            &&& after.subrange(0xf_2000, 0xf_20f4) == acpi::fadt()
            &&& after.subrange(0xf_3000, 0xf_3038 + 8 * config.vcpu_count) == acpi::madt(
                config.vcpu_count,
            )
        }),
{
    let header = setup_header::header_at(image, setup_header::SETUP_HEADER_OFFSET as int);
    let after = linux::load_outcome(memory, image, config).0;
    let tables = linux::acpi_writes(config.vcpu_count);
    linux::lemma_boot_sizes(config, header);
    linux::law_loaded_tables_stand(memory, image, config, 0);
    linux::law_loaded_tables_stand(memory, image, config, 1);
    linux::law_loaded_tables_stand(memory, image, config, 2);
    linux::law_loaded_tables_stand(memory, image, config, 3);
    assert(guest::holds(after, tables[0]));
    assert(guest::holds(after, tables[1]));
    assert(guest::holds(after, tables[2]));
    assert(guest::holds(after, tables[3]));
}

/// The boot parameters page is clear wherever it holds nothing of the ACPI address, the number of entries,
/// the header or the memory map.
pub proof fn law_zero_page_is_clear_elsewhere(
    rsdp: u64,
    header: SetupHeader,
    entries: Seq<boot_params::BootE820Entry>,
    i: int,
)
    requires
        entries.len() <= 128,
        0 <= i < 4096,
        !(0x70 <= i < 0x78),
        i != 0x1e8,
        !(0x1f1 <= i < 0x26c),
        !(0x2d0 <= i < 0x2d0 + 20 * entries.len()),
    ensures
        boot_params::zero_page(rsdp, header, entries).len() == 4096,
        boot_params::zero_page(rsdp, header, entries)[i] == 0,
{
    broadcast use bytes::lemma_le_bytes_len;

    header.lemma_layout();
    boot_params::lemma_table_layout(entries);
}

/// A raw image that fits is copied to the address asked for, and its first vCPU starts at the entry point
/// and on the stack asked for, whatever they are, with everything else clear.
pub proof fn law_raw_image(
    memory: Seq<u8>,
    image: Seq<u8>,
    initrd: Option<Seq<u8>>,
    config: &VmmConfig,
    plan: BootPlan,
    guest: &GuestMemory<'_>,
    i: int,
)
    requires
        setup_header::setup_header_error(image) is Some,
        0 <= i < memory.len(),
    ensures
        ({
            let (after, start) = boot::boot_outcome(memory, image, initrd, config);
            let at = (config.load_addr as usize) as int;
            &&& start is Ok <==> at + image.len() <= memory.len()
            &&& start matches Err(e) ==> e == VmmError::GuestImageDoesNotFit && after == memory
            &&& start is Ok ==> after.len() == memory.len() && after[i] == (if at <= i < at
                + image.len() {
                image[i - at]
            } else {
                memory[i]
            })
            &&& start is Ok && plan.follows(start->Ok_0, guest, config.vcpu_count) ==> ({
                &&& plan.regs.rip == config.entry_point
                &&& plan.regs.rsp == config.stack_pointer
                &&& plan.regs.rflags == 2
                &&& plan.regs.rax == 0 && plan.regs.rbx == 0 && plan.regs.rcx == 0
                &&& plan.regs.rdx == 0 && plan.regs.rsi == 0 && plan.regs.rdi == 0
                &&& plan.regs.rbp == 0 && plan.regs.r8 == 0 && plan.regs.r9 == 0
                &&& plan.regs.r10 == 0 && plan.regs.r11 == 0 && plan.regs.r12 == 0
                &&& plan.regs.r13 == 0 && plan.regs.r14 == 0 && plan.regs.r15 == 0
                &&& plan.sregs is None
                &&& plan.announcement is None
            })
        }),
{
}

/// A Linux image is loaded with what the configuration says: its load address, its memory size, its number
/// of vCPUs, its command line and its stack, next to the initrd. The plan then sets the registers that the
/// load returns, and tells the entry point.
pub proof fn law_linux_image(
    memory: Seq<u8>,
    image: Seq<u8>,
    initrd: Option<Seq<u8>>,
    config: &VmmConfig,
    plan: BootPlan,
    guest: &GuestMemory<'_>,
)
    requires
        setup_header::setup_header_error(image) is None,
    ensures
        ({
            let model = BootModel {
                kernel_load_addr: config.load_addr,
                guest_mem_size: config.guest_mem_size as u64,
                vcpu_count: config.vcpu_count,
                initrd,
                cmdline: match config.cmdline {
                    Some(cmdline) => Some(cmdline@),
                    None => None,
                },
                stack_pointer: config.stack_pointer,
            };
            let (after, start) = boot::boot_outcome(memory, image, initrd, config);
            let (loaded, res) = linux::load_outcome(memory, image, model);
            &&& after == loaded
            &&& start is Ok <==> res is Ok
            &&& start is Err ==> start->Err_0 == res->Err_0
            &&& start is Ok && plan.follows(start->Ok_0, guest, config.vcpu_count) ==> ({
                &&& plan.regs == res->Ok_0.regs
                &&& plan.sregs == Some(res->Ok_0.sregs)
                &&& plan.announcement matches Some(said) && said@
                    == "rustshyper-vmm: Linux entry point at 0x"@ + text::digits(
                    res->Ok_0.entry_point as nat,
                    16,
                )
            })
        }),
{
    let model = config.boot_model(initrd);
    assert(model.cmdline == (match config.cmdline {
        Some(cmdline) => Some(cmdline@),
        None => None,
    }));
    let (loaded, res) = linux::load_outcome(memory, image, model);
    if res is Ok {
        lemma_announcement(res->Ok_0.entry_point);
    }
}

proof fn lemma_announcement(entry: u64)
    ensures
        linux::announcement_text(entry) == "rustshyper-vmm: Linux entry point at 0x"@
            + text::digits(entry as nat, 16),
{
    reveal_strlit("rustshyper-vmm: Linux entry point at 0x");
    reveal_strlit("rustshyper-vmm: Linux entry point at ");
    reveal_strlit("0x");
    assert(linux::announcement_text(entry) =~= "rustshyper-vmm: Linux entry point at 0x"@
        + text::digits(entry as nat, 16));
}

/// A plan maps all of the guest's memory at guest address zero, and then asks for the vCPUs and their
/// registers in a fixed order.
pub proof fn law_plan_requests(plan: BootPlan, start: boot::Start, guest: &GuestMemory<'_>, count: u32, k: int)
    requires
        plan.follows(start, guest, count),
        k >= 0,
    ensures
        plan.spec_request(0) matches Some(DeviceRequest::SetUserMemoryRegion { region })
            && region.slot == 0 && region.flags == 0 && region.guest_phys_addr == 0
            && region.memory_size == guest@.len() as u64 && region.userspace_addr
            == guest.userspace_addr,
        plan.spec_request(1) == Some(DeviceRequest::CreateVcpu { vcpu_id: 0 }),
        start.sregs matches Some(sregs) ==> plan.spec_request(2) == Some(
            DeviceRequest::SetSregs { sregs },
        ) && plan.spec_request(3) == Some(DeviceRequest::SetRegs { regs: start.regs })
            && plan.spec_request(4 + k) == (if k + 1 < count {
            Some(DeviceRequest::CreateVcpu { vcpu_id: (k + 1) as u32 })
        } else {
            None
        }),
        start.sregs is None ==> plan.spec_request(2) == Some(
            DeviceRequest::SetRegs { regs: start.regs },
        ) && plan.spec_request(3 + k) == (if k + 1 < count {
            Some(DeviceRequest::CreateVcpu { vcpu_id: (k + 1) as u32 })
        } else {
            None
        }),
{
}

} // verus!
