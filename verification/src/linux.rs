//! Loading a Linux bzImage into guest memory, and the state that the guest starts in.
use crate::acpi;
use crate::boot_params;
use crate::boot_params::BootE820Entry;
use crate::bytes;
use crate::error::ErrorKind;
use crate::error::VmmError;
use crate::guest;
use crate::guest::GuestWrite;
use crate::guest::write_guest;
use crate::ioctl::VcpuRegs;
use crate::ioctl::VcpuSregs;
use crate::segments;
use crate::segments::GDT_GPA;
use crate::segments::build_linux_boot_gdt;
pub use crate::segments::linux32_boot_sregs;
use crate::setup_header;
use crate::setup_header::SetupHeader;
use crate::text;
use vstd::arithmetic::power2::*;
use vstd::bits::*;
use vstd::prelude::*;
use vstd::string::*;

verus! {

const CAN_USE_HEAP: u8 = 0x80;

const LOADED_HIGH: u8 = 0x01;

/// Where the boot parameters page goes.
pub const ZERO_PAGE_GPA: u64 = 0x0001_0000;

/// Where the command line goes.
pub const CMDLINE_GPA: u64 = 0x0002_0000;

/// End of the low memory that the kernel may use.
pub const EBDA_END: u64 = 0x0009_f000;

/// End of the hole below one megabyte.
pub const LOW_MEM_HOLE_END: u64 = 0x0010_0000;

/// Where the kernel goes unless told otherwise.
pub const DEFAULT_KERNEL_LOAD_ADDR: u64 = 0x0010_0000;

/// Where the stack starts unless told otherwise.
pub const DEFAULT_BOOT_STACK_PTR: u64 = 0x001f_f000;

/// The command line unless told otherwise.
pub const DEFAULT_CMDLINE: &'static str = "console=ttyS0 earlycon=uart8250,io,0x3f8 nokaslr";

/// What a Linux guest is to be started with.
#[derive(Debug, Clone)]
pub struct LinuxBootConfig<'a> {
    /// Where the kernel goes; zero for the usual place.
    pub kernel_load_addr: u64,
    /// How much memory the guest has.
    pub guest_mem_size: u64,
    /// How many vCPUs the guest has.
    pub vcpu_count: u32,
    /// The initial RAM disk, if any.
    pub initrd: Option<&'a [u8]>,
    /// The command line, if it is not the usual one.
    pub cmdline: Option<&'a str>,
    /// Where the stack starts; zero for the usual place.
    pub stack_pointer: u64,
}

/// What a Linux guest is to be started with, as values.
pub struct BootModel {
    /// Where the kernel goes; zero for the usual place.
    pub kernel_load_addr: u64,
    /// How much memory the guest has.
    pub guest_mem_size: u64,
    /// How many vCPUs the guest has.
    pub vcpu_count: u32,
    /// The initial RAM disk, if any.
    pub initrd: Option<Seq<u8>>,
    /// The command line, if it is not the usual one.
    pub cmdline: Option<Seq<char>>,
    /// Where the stack starts; zero for the usual place.
    pub stack_pointer: u64,
}

impl LinuxBootConfig<'_> {
    /// The configuration as values.
    pub open spec fn view(&self) -> BootModel {
        BootModel {
            kernel_load_addr: self.kernel_load_addr,
            guest_mem_size: self.guest_mem_size,
            vcpu_count: self.vcpu_count,
            initrd: match self.initrd {
                Some(initrd) => Some(initrd@),
                None => None,
            },
            cmdline: match self.cmdline {
                Some(cmdline) => Some(cmdline@),
                None => None,
            },
            stack_pointer: self.stack_pointer,
        }
    }
}

/// How the first vCPU of a loaded guest is to be started.
#[derive(Debug, Clone, Copy)]
pub struct LinuxBootState {
    /// Its general registers.
    pub regs: VcpuRegs,
    /// Its special registers.
    pub sregs: VcpuSregs,
    /// Where it starts.
    pub entry_point: u64,
    /// Where its boot parameters are.
    pub zero_page_addr: u64,
}

/// What is said of the entry point once the guest is loaded.
pub open spec fn announcement_text(entry_point: u64) -> Seq<char> {
    "rustshyper-vmm: Linux entry point at "@ + text::hex_text(entry_point as nat)
}

impl LinuxBootState {
    /// What is said of the entry point once the guest is loaded.
    pub fn announcement(&self) -> (message: String)
        ensures
            message@ == announcement_text(self.entry_point),
    {
        let mut message = "rustshyper-vmm: Linux entry point at ".to_owned();
        text::push_hex(&mut message, self.entry_point);
        message
    }
}

/// `value` with the low bits cleared that `align`, a power of two, counts.
pub fn align_down(value: u64, align: u64) -> (aligned: u64)
    requires
        align > 0,
    ensures
        aligned == value & !((align - 1) as u64),
        forall|n: nat| n < 64 && align == #[trigger] pow2(n) ==> aligned == value - value % align,
{
    let mask: u64 = align - 1;
    proof {
        assert(value & !mask == value - (value & mask)) by (bit_vector);
        assert forall|n: nat| n < 64 && align == #[trigger] pow2(n) implies value & !mask == value
            - value % align by {
            lemma_u64_low_bits_mask_is_mod(value, n);
            lemma_pow2_pos(n);
        }
    }
    value & !mask
}

proof fn lemma_page_is_pow2()
    ensures
        pow2(12) == 0x1000,
{
    lemma2_to64();
}

/// `value` rounded down to a page boundary.
pub open spec fn page_floor(value: int) -> int {
    value - value % 0x1000
}

/// The first address behind the memory that an initrd may use: the end of guest memory, or the
/// limit that the header sets where that is lower.
pub open spec fn initrd_limit(guest_mem_size: u64, header: SetupHeader) -> int {
    let end = if guest_mem_size == 0 {
        1
    } else {
        guest_mem_size as int
    };
    if header.initrd_addr_max != 0 && header.initrd_addr_max + 1 < end {
        header.initrd_addr_max + 1
    } else {
        end
    }
}

/// Where an initrd of `len` bytes goes: as high as page boundaries allow.
pub open spec fn initrd_start(guest_mem_size: u64, header: SetupHeader, len: u64) -> int {
    let end = page_floor(initrd_limit(guest_mem_size, header));
    if len > end {
        0
    } else {
        page_floor(end - len)
    }
}

/// Finds a place for an initrd of `initrd_len` bytes, above one megabyte.
pub fn place_initrd(guest_mem_size: u64, header: &SetupHeader, initrd_len: u64) -> (res: Result<
    u64,
    VmmError,
>)
    ensures
        match res {
            Ok(start) => start == initrd_start(guest_mem_size, *header, initrd_len) && start
                >= LOW_MEM_HOLE_END,
            Err(e) => e == VmmError::InitrdDoesNotFit && initrd_start(
                guest_mem_size,
                *header,
                initrd_len,
            ) < LOW_MEM_HOLE_END,
        },
{
    let last: u64 = guest_mem_size.saturating_sub(1);
    let max_addr: u64 = if header.initrd_addr_max == 0 {
        last
    } else if last < header.initrd_addr_max as u64 {
        last
    } else {
        header.initrd_addr_max as u64
    };
    proof {
        lemma_page_is_pow2();
        assert(0x1000 == pow2(12));
    }
    let end = align_down(max_addr.saturating_add(1), 0x1000);
    let start = align_down(end.saturating_sub(initrd_len), 0x1000);
    if start < LOW_MEM_HOLE_END {
        return Err(VmmError::InitrdDoesNotFit);
    }
    Ok(start)
}

/// The memory map of a guest: low memory, the hole below one megabyte, and what lies above.
pub open spec fn e820_map(guest_mem_size: u64) -> Seq<BootE820Entry> {
    let low = seq![
        BootE820Entry { addr: 0, size: EBDA_END, typ: boot_params::E820_RAM },
        BootE820Entry {
            addr: EBDA_END,
            size: (LOW_MEM_HOLE_END - EBDA_END) as u64,
            typ: boot_params::E820_RESERVED,
        },
    ];
    if guest_mem_size > LOW_MEM_HOLE_END {
        low.push(
            BootE820Entry {
                addr: LOW_MEM_HOLE_END,
                size: (guest_mem_size - LOW_MEM_HOLE_END) as u64,
                typ: boot_params::E820_RAM,
            },
        )
    } else {
        low
    }
}

/// The memory map of a guest.
pub fn make_e820_entries(guest_mem_size: u64) -> (entries: Vec<BootE820Entry>)
    ensures
        entries@ == e820_map(guest_mem_size),
        2 <= entries@.len() <= 3,
{
    let mut entries: Vec<BootE820Entry> = Vec::new();
    entries.push(BootE820Entry { addr: 0, size: EBDA_END, typ: boot_params::E820_RAM });
    entries.push(
        BootE820Entry {
            addr: EBDA_END,
            size: LOW_MEM_HOLE_END - EBDA_END,
            typ: boot_params::E820_RESERVED,
        },
    );
    if guest_mem_size > LOW_MEM_HOLE_END {
        entries.push(
            BootE820Entry {
                addr: LOW_MEM_HOLE_END,
                size: guest_mem_size - LOW_MEM_HOLE_END,
                typ: boot_params::E820_RAM,
            },
        );
    }
    assert(entries@ =~= e820_map(guest_mem_size));
    entries
}

/// The writes that put the ACPI tables of `vcpu_count` vCPUs in place.
pub open spec fn acpi_writes(vcpu_count: u32) -> Seq<GuestWrite> {
    seq![
        GuestWrite { addr: acpi::ACPI_MADT_GPA as u64, data: acpi::madt(vcpu_count) },
        GuestWrite {
            addr: acpi::ACPI_RSDT_GPA as u64,
            data: acpi::rsdt(seq![acpi::ACPI_MADT_GPA, acpi::ACPI_FADT_GPA]),
        },
        GuestWrite { addr: acpi::ACPI_RSDP_GPA, data: acpi::rsdp(acpi::ACPI_RSDT_GPA) },
        GuestWrite { addr: acpi::ACPI_FADT_GPA as u64, data: acpi::fadt() },
    ]
}

/// Puts the ACPI tables of `vcpu_count` vCPUs in place.
pub fn write_acpi_tables(guest_memory: &mut [u8], vcpu_count: u32) -> (res: Result<(), VmmError>)
    ensures
        guest::written(old(guest_memory)@, acpi_writes(vcpu_count)) == (
            final(guest_memory)@,
            guest::error_of(res),
        ),
        final(guest_memory)@.len() == old(guest_memory)@.len(),
{
    let madt = acpi::build_madt(vcpu_count);
    let tables: [u32; 2] = [acpi::ACPI_MADT_GPA, acpi::ACPI_FADT_GPA];
    assert(tables@ =~= seq![acpi::ACPI_MADT_GPA, acpi::ACPI_FADT_GPA]);
    assert(36 + 4 * ((tables@.len() as u32) as int) <= u32::MAX);
    let rsdt = acpi::build_rsdt(&tables);
    let rsdp = acpi::build_rsdp(acpi::ACPI_RSDT_GPA);
    let fadt = acpi::build_fadt();
    proof {
        reveal_with_fuel(guest::written, 5);
        let w = acpi_writes(vcpu_count);
        assert(w.drop_first() =~= seq![w[1], w[2], w[3]]);
        assert(w.drop_first().drop_first() =~= seq![w[2], w[3]]);
        assert(w.drop_first().drop_first().drop_first() =~= seq![w[3]]);
        assert(w.drop_first().drop_first().drop_first().drop_first() =~= Seq::empty());
    }
    match write_guest(guest_memory, acpi::ACPI_MADT_GPA as u64, &madt) {
        Ok(()) => {},
        Err(e) => {
            return Err(e);
        },
    }
    match write_guest(guest_memory, acpi::ACPI_RSDT_GPA as u64, &rsdt) {
        Ok(()) => {},
        Err(e) => {
            return Err(e);
        },
    }
    match write_guest(guest_memory, acpi::ACPI_RSDP_GPA, &rsdp) {
        Ok(()) => {},
        Err(e) => {
            return Err(e);
        },
    }
    match write_guest(guest_memory, acpi::ACPI_FADT_GPA as u64, &fadt) {
        Ok(()) => {},
        Err(e) => {
            return Err(e);
        },
    }
    Ok(())
}

/// How many bytes of an image come before the kernel: the boot sector and the setup sectors, of
/// which there are four where the header tells none.
pub open spec fn setup_size(header: SetupHeader) -> int {
    ((if header.setup_sects == 0 {
        4
    } else {
        header.setup_sects as int
    }) + 1) * 512
}

/// The low 32 bits of `value`.
pub open spec fn low_word(value: int) -> u32 {
    (value % 0x1_0000_0000) as u32
}

proof fn lemma_low_word(value: u64)
    ensures
        value as u32 == low_word(value as int),
{
    assert(value as u32 == value % 0x1_0000_0000) by (bit_vector);
}

impl BootModel {
    /// Where the kernel goes.
    pub open spec fn kernel_addr(self) -> u64 {
        if self.kernel_load_addr == 0 {
            DEFAULT_KERNEL_LOAD_ADDR
        } else {
            self.kernel_load_addr
        }
    }

    /// The bytes of the command line, with the zero that ends it.
    pub open spec fn cmdline_bytes(self) -> Seq<u8> {
        (match self.cmdline {
            Some(cmdline) => vstd::utf8::encode_utf8(cmdline),
            None => vstd::utf8::encode_utf8(DEFAULT_CMDLINE@),
        }).push(0)
    }

    /// Where the initrd goes, given the header of the image.
    pub open spec fn initrd_addr(self, header: SetupHeader) -> int {
        match self.initrd {
            Some(initrd) => initrd_start(self.guest_mem_size, header, initrd.len() as u64),
            None => 0,
        }
    }

    /// There is no initrd, or there is room for it above one megabyte.
    pub open spec fn initrd_has_room(self, header: SetupHeader) -> bool {
        self.initrd is Some ==> self.initrd_addr(header) >= LOW_MEM_HOLE_END
    }

    /// The header of the image as the kernel gets it.
    pub open spec fn boot_header(self, header: SetupHeader) -> SetupHeader {
        SetupHeader {
            type_of_loader: 0xff,
            loadflags: header.loadflags | 0x81u8,
            heap_end_ptr: 0xfe00,
            code32_start: low_word(self.kernel_addr() as int),
            cmd_line_ptr: CMDLINE_GPA as u32,
            cmdline_size: low_word(self.cmdline_bytes().len() as int),
            ramdisk_image: low_word(self.initrd_addr(header)),
            ramdisk_size: match self.initrd {
                Some(initrd) => low_word(initrd.len() as int),
                None => 0,
            },
            ..header
        }
    }

    /// How the first vCPU is started.
    pub open spec fn boot_state(self) -> LinuxBootState {
        LinuxBootState {
            regs: VcpuRegs {
                rip: low_word(self.kernel_addr() as int) as u64,
                rsp: if self.stack_pointer == 0 {
                    DEFAULT_BOOT_STACK_PTR
                } else {
                    self.stack_pointer
                },
                rsi: ZERO_PAGE_GPA,
                rflags: 0x2,
                ..VcpuRegs::zero()
            },
            sregs: segments::boot_sregs(),
            entry_point: low_word(self.kernel_addr() as int) as u64,
            zero_page_addr: ZERO_PAGE_GPA,
        }
    }

    /// The writes that do not depend on where an initrd goes: the kernel, the descriptor table and
    /// the command line.
    pub open spec fn early_writes(self, image: Seq<u8>, header: SetupHeader) -> Seq<GuestWrite> {
        seq![
            GuestWrite { addr: self.kernel_addr(), data: image.skip(setup_size(header)) },
            GuestWrite { addr: GDT_GPA, data: segments::gdt_bytes() },
            GuestWrite { addr: CMDLINE_GPA, data: self.cmdline_bytes() },
        ]
    }

    /// The write of the initrd, if there is one.
    pub open spec fn initrd_writes(self, header: SetupHeader) -> Seq<GuestWrite> {
        match self.initrd {
            Some(initrd) => seq![
                GuestWrite { addr: self.initrd_addr(header) as u64, data: initrd },
            ],
            None => Seq::empty(),
        }
    }

    /// The write of the boot parameters page.
    pub open spec fn zero_page_write(self, header: SetupHeader) -> GuestWrite {
        GuestWrite {
            addr: ZERO_PAGE_GPA,
            data: boot_params::zero_page(
                acpi::ACPI_RSDP_GPA,
                self.boot_header(header),
                e820_map(self.guest_mem_size),
            ),
        }
    }

    /// Everything that is written to load an image, in order.
    pub open spec fn boot_writes(self, image: Seq<u8>, header: SetupHeader) -> Seq<GuestWrite> {
        self.early_writes(image, header) + self.initrd_writes(header) + acpi_writes(
            self.vcpu_count,
        ) + seq![self.zero_page_write(header)]
    }
}

/// What loading `image` into `memory` leaves there, and what it returns.
pub open spec fn load_outcome(memory: Seq<u8>, image: Seq<u8>, config: BootModel) -> (
    Seq<u8>,
    Result<LinuxBootState, VmmError>,
) {
    let header = setup_header::header_at(image, setup_header::SETUP_HEADER_OFFSET as int);
    if setup_header::setup_header_error(image) is Some {
        (memory, Err(setup_header::setup_header_error(image)->Some_0))
    } else if setup_size(header) >= image.len() {
        (memory, Err(VmmError::SetupExceedsImage))
    } else if !config.initrd_has_room(header) {
        let (after, error) = guest::written(memory, config.early_writes(image, header));
        (
            after,
            Err(
                match error {
                    Some(e) => e,
                    None => VmmError::InitrdDoesNotFit,
                },
            ),
        )
    } else {
        let (after, error) = guest::written(memory, config.boot_writes(image, header));
        (
            after,
            match error {
                Some(e) => Err(e),
                None => Ok(config.boot_state()),
            },
        )
    }
}

/// Tells whether `image` is a bzImage that can be booted.
pub fn looks_like_bzimage(image: &[u8]) -> (yes: bool)
    ensures
        yes == (setup_header::setup_header_error(image@) is None),
{
    setup_header::parse_setup_header(image).is_ok()
}

/// Writes the kernel, the descriptor table and the command line. Tells how long the command line
/// is, with the zero that ends it.
fn write_early(
    guest_memory: &mut [u8],
    bzimage: &[u8],
    header: &SetupHeader,
    config: &LinuxBootConfig<'_>,
) -> (res: Result<usize, VmmError>)
    requires
        setup_size(*header) < bzimage@.len(),
    ensures
        guest::written(old(guest_memory)@, config@.early_writes(bzimage@, *header)) == (
            final(guest_memory)@,
            guest::error_of(res),
        ),
        res is Ok ==> res->Ok_0 == config@.cmdline_bytes().len(),
        final(guest_memory)@.len() == old(guest_memory)@.len(),
{
    broadcast use bytes::lemma_le_bytes_len;

    proof {
        reveal_with_fuel(guest::written, 4);
        let w = config@.early_writes(bzimage@, *header);
        assert(w.drop_first() =~= seq![w[1], w[2]]);
        assert(w.drop_first().drop_first() =~= seq![w[2]]);
        assert(w.drop_first().drop_first().drop_first() =~= Seq::empty());
    }
    let setup_sects: usize = if header.setup_sects == 0 {
        4
    } else {
        header.setup_sects as usize
    };
    let setup_bytes: usize = (setup_sects + 1) * 512;
    let kernel_load_addr: u64 = if config.kernel_load_addr == 0 {
        DEFAULT_KERNEL_LOAD_ADDR
    } else {
        config.kernel_load_addr
    };
    let payload = &bzimage[setup_bytes..bzimage.len()];
    assert(payload@ =~= bzimage@.skip(setup_bytes as int));
    match write_guest(guest_memory, kernel_load_addr, payload) {
        Ok(()) => {},
        Err(e) => {
            return Err(e);
        },
    }
    let table = build_linux_boot_gdt();
    let mut gdt: Vec<u8> = Vec::new();
    bytes::push_u64(&mut gdt, table[0]);
    bytes::push_u64(&mut gdt, table[1]);
    bytes::push_u64(&mut gdt, table[2]);
    bytes::push_u64(&mut gdt, table[3]);
    bytes::push_u64(&mut gdt, table[4]);
    assert(gdt@ =~= segments::gdt_bytes());
    match write_guest(guest_memory, GDT_GPA, &gdt) {
        Ok(()) => {},
        Err(e) => {
            return Err(e);
        },
    }
    let cmdline = match config.cmdline {
        Some(cmdline) => cmdline,
        None => DEFAULT_CMDLINE,
    };
    let mut cmdline_buf: Vec<u8> = Vec::new();
    bytes::push_bytes(&mut cmdline_buf, cmdline.as_bytes());
    cmdline_buf.push(0);
    assert(cmdline_buf@ =~= config@.cmdline_bytes());
    match write_guest(guest_memory, CMDLINE_GPA, &cmdline_buf) {
        Ok(()) => {},
        Err(e) => {
            return Err(e);
        },
    }
    Ok(cmdline_buf.len())
}

/// Loads a bzImage: the kernel, the tables that it is started with, its command line and its
/// initrd. Says how the first vCPU is to be started.
pub fn load_bzimage(
    guest_memory: &mut [u8],
    bzimage: &[u8],
    config: &LinuxBootConfig<'_>,
) -> (res: Result<LinuxBootState, VmmError>)
    ensures
        load_outcome(old(guest_memory)@, bzimage@, config@) == (final(guest_memory)@, res),
        final(guest_memory)@.len() == old(guest_memory)@.len(),
{
    let header = match setup_header::parse_setup_header(bzimage) {
        Ok(header) => header,
        Err(e) => {
            return Err(e);
        },
    };
    let setup_sects: usize = if header.setup_sects == 0 {
        4
    } else {
        header.setup_sects as usize
    };
    if (setup_sects + 1) * 512 >= bzimage.len() {
        return Err(VmmError::SetupExceedsImage);
    }
    let ghost early = config@.early_writes(bzimage@, header);
    let ghost initrd_part = config@.initrd_writes(header);
    let ghost acpi_part = acpi_writes(config.vcpu_count);
    let ghost page_part = seq![config@.zero_page_write(header)];
    proof {
        guest::lemma_written_concat(old(guest_memory)@, early + initrd_part + acpi_part, page_part);
        guest::lemma_written_concat(old(guest_memory)@, early + initrd_part, acpi_part);
        guest::lemma_written_concat(old(guest_memory)@, early, initrd_part);
    }
    let cmdline_size: usize = match write_early(guest_memory, bzimage, &header, config) {
        Ok(size) => size,
        Err(e) => {
            return Err(e);
        },
    };
    let mut ramdisk_image: u64 = 0;
    let mut ramdisk_size: u64 = 0;
    match config.initrd {
        Some(initrd) => {
            let addr = match place_initrd(config.guest_mem_size, &header, initrd.len() as u64) {
                Ok(addr) => addr,
                Err(e) => {
                    return Err(e);
                },
            };
            match write_guest(guest_memory, addr, initrd) {
                Ok(()) => {},
                Err(e) => {
                    return Err(e);
                },
            }
            ramdisk_image = addr;
            ramdisk_size = initrd.len() as u64;
        },
        None => {},
    }
    let kernel_load_addr: u64 = if config.kernel_load_addr == 0 {
        DEFAULT_KERNEL_LOAD_ADDR
    } else {
        config.kernel_load_addr
    };
    proof {
        lemma_low_word(kernel_load_addr);
        lemma_low_word(cmdline_size as u64);
        lemma_low_word(ramdisk_image);
        lemma_low_word(ramdisk_size);
        assert(0x80u8 | 0x01u8 == 0x81u8) by (bit_vector);
    }
    let boot_header = SetupHeader {
        type_of_loader: 0xff,
        loadflags: header.loadflags | (CAN_USE_HEAP | LOADED_HIGH),
        heap_end_ptr: 0xfe00,
        code32_start: kernel_load_addr as u32,
        cmd_line_ptr: CMDLINE_GPA as u32,
        cmdline_size: cmdline_size as u64 as u32,
        ramdisk_image: ramdisk_image as u32,
        ramdisk_size: ramdisk_size as u32,
        ..header
    };
    assert(boot_header == config@.boot_header(header));
    let entries = make_e820_entries(config.guest_mem_size);
    let page = boot_params::build_zero_page(acpi::ACPI_RSDP_GPA, boot_header, &entries);
    match write_acpi_tables(guest_memory, config.vcpu_count) {
        Ok(()) => {},
        Err(e) => {
            return Err(e);
        },
    }
    match write_guest(guest_memory, ZERO_PAGE_GPA, &page) {
        Ok(()) => {},
        Err(e) => {
            return Err(e);
        },
    }
    let entry_point: u64 = boot_header.code32_start as u64;
    Ok(
        LinuxBootState {
            regs: VcpuRegs {
                rip: entry_point,
                rsp: if config.stack_pointer == 0 {
                    DEFAULT_BOOT_STACK_PTR
                } else {
                    config.stack_pointer
                },
                rsi: ZERO_PAGE_GPA,
                rflags: 0x2,
                ..VcpuRegs::default()
            },
            sregs: linux32_boot_sregs(),
            entry_point,
            zero_page_addr: ZERO_PAGE_GPA,
        },
    )
}

/// How many bytes each part of the boot data takes.
pub proof fn lemma_boot_sizes(config: BootModel, header: SetupHeader)
    ensures
        segments::gdt_bytes().len() == 40,
        acpi::madt(config.vcpu_count).len() == 56 + 8 * config.vcpu_count,
        acpi::rsdt(seq![acpi::ACPI_MADT_GPA, acpi::ACPI_FADT_GPA]).len() == 44,
        acpi::rsdp(acpi::ACPI_RSDT_GPA).len() == 36,
        acpi::fadt().len() == 244,
        config.zero_page_write(header).data.len() == 4096,
{
    broadcast use bytes::lemma_le_bytes_len;

    acpi::law_madt_advertises_each_vcpu(config.vcpu_count);
    acpi::law_rsdt_lists_tables(seq![acpi::ACPI_MADT_GPA, acpi::ACPI_FADT_GPA]);
    acpi::law_rsdp_checksums(acpi::ACPI_RSDT_GPA);
    acpi::law_fadt_checksum();
}

/// The writes of a load, one by one.
pub proof fn lemma_boot_writes(config: BootModel, image: Seq<u8>, header: SetupHeader)
    ensures
        ({
            let w = config.boot_writes(image, header);
            let n = config.initrd_writes(header).len() as int;
            &&& w.len() == 8 + n
            &&& w[0] == config.early_writes(image, header)[0]
            &&& w[1] == config.early_writes(image, header)[1]
            &&& w[2] == config.early_writes(image, header)[2]
            &&& n == 1 ==> w[3] == config.initrd_writes(header)[0]
            &&& w[3 + n] == acpi_writes(config.vcpu_count)[0]
            &&& w[4 + n] == acpi_writes(config.vcpu_count)[1]
            &&& w[5 + n] == acpi_writes(config.vcpu_count)[2]
            &&& w[6 + n] == acpi_writes(config.vcpu_count)[3]
            &&& w[7 + n] == config.zero_page_write(header)
        }),
{
}

/// After a load, the boot parameters page, the descriptor table and the four ACPI tables stand where
/// they belong, wherever the kernel was put.
pub proof fn law_loaded_tables_stand(
    memory: Seq<u8>,
    image: Seq<u8>,
    config: BootModel,
    k: int,
)
    requires
        config.guest_mem_size <= usize::MAX,
        load_outcome(memory, image, config).1 is Ok,
        0 <= k < 4,
    ensures
        ({
            let header = setup_header::header_at(image, setup_header::SETUP_HEADER_OFFSET as int);
            let after = load_outcome(memory, image, config).0;
            &&& guest::holds(after, config.zero_page_write(header))
            &&& guest::holds(after, GuestWrite { addr: GDT_GPA, data: segments::gdt_bytes() })
            &&& guest::holds(after, acpi_writes(config.vcpu_count)[k])
        }),
{
    let header = setup_header::header_at(image, setup_header::SETUP_HEADER_OFFSET as int);
    let w = config.boot_writes(image, header);
    let n = config.initrd_writes(header).len() as int;
    lemma_boot_sizes(config, header);
    lemma_boot_writes(config, image, header);
    guest::law_write_reads_back(memory, w, 7 + n);
    guest::law_write_reads_back(memory, w, 1);
    guest::law_write_reads_back(memory, w, 3 + n + k);
}

/// After a load, the command line stands where the header says and is as long as the header says,
/// unless it is so long that it reaches the ACPI tables.
pub proof fn law_loaded_command_line_stands(
    memory: Seq<u8>,
    image: Seq<u8>,
    config: BootModel,
)
    requires
        config.guest_mem_size <= usize::MAX,
        load_outcome(memory, image, config).1 is Ok,
        CMDLINE_GPA + config.cmdline_bytes().len() <= acpi::ACPI_RSDP_GPA,
    ensures
        guest::holds(
            load_outcome(memory, image, config).0,
            GuestWrite { addr: CMDLINE_GPA, data: config.cmdline_bytes() },
        ),
        ({
            let header = setup_header::header_at(image, setup_header::SETUP_HEADER_OFFSET as int);
            &&& config.boot_header(header).cmd_line_ptr == CMDLINE_GPA
            &&& config.boot_header(header).cmdline_size == config.cmdline_bytes().len()
        }),
{
    let header = setup_header::header_at(image, setup_header::SETUP_HEADER_OFFSET as int);
    lemma_boot_sizes(config, header);
    lemma_boot_writes(config, image, header);
    guest::law_write_reads_back(memory, config.boot_writes(image, header), 2);
}

/// After a load, the initrd stands where the header says and is as long as the header says, unless the
/// table of the vCPUs grows into it. The header holds 32 bits of each.
pub proof fn law_loaded_initrd_stands(memory: Seq<u8>, image: Seq<u8>, config: BootModel)
    requires
        config.guest_mem_size <= usize::MAX,
        load_outcome(memory, image, config).1 is Ok,
        config.initrd is Some,
        ({
            let header = setup_header::header_at(image, setup_header::SETUP_HEADER_OFFSET as int);
            acpi::ACPI_MADT_GPA + 56 + 8 * config.vcpu_count <= config.initrd_addr(header)
        }),
    ensures
        ({
            let header = setup_header::header_at(image, setup_header::SETUP_HEADER_OFFSET as int);
            let addr = config.initrd_addr(header);
            let initrd = config.initrd->Some_0;
            &&& guest::holds(
                load_outcome(memory, image, config).0,
                GuestWrite { addr: addr as u64, data: initrd },
            )
            &&& addr <= u32::MAX ==> config.boot_header(header).ramdisk_image == addr
            &&& initrd.len() <= u32::MAX ==> config.boot_header(header).ramdisk_size
                == initrd.len()
        }),
{
    let header = setup_header::header_at(image, setup_header::SETUP_HEADER_OFFSET as int);
    lemma_boot_sizes(config, header);
    lemma_boot_writes(config, image, header);
    guest::law_write_reads_back(memory, config.boot_writes(image, header), 3);
}

/// After a load, the kernel stands where it was asked for and is started there, unless it was put
/// where something else goes. Only 32 bits of its address count for the start.
pub proof fn law_loaded_kernel_stands(memory: Seq<u8>, image: Seq<u8>, config: BootModel)
    requires
        load_outcome(memory, image, config).1 is Ok,
        ({
            let header = setup_header::header_at(image, setup_header::SETUP_HEADER_OFFSET as int);
            let writes = config.boot_writes(image, header);
            forall|j: int|
                1 <= j < writes.len() ==> guest::disjoint(writes[0], #[trigger] writes[j])
        }),
    ensures
        ({
            let header = setup_header::header_at(image, setup_header::SETUP_HEADER_OFFSET as int);
            guest::holds(
                load_outcome(memory, image, config).0,
                GuestWrite { addr: config.kernel_addr(), data: image.skip(setup_size(header)) },
            )
        }),
        config.kernel_addr() <= u32::MAX ==> load_outcome(memory, image, config).1->Ok_0.regs.rip
            == config.kernel_addr(),
{
    let header = setup_header::header_at(image, setup_header::SETUP_HEADER_OFFSET as int);
    lemma_boot_writes(config, image, header);
    guest::law_write_reads_back(memory, config.boot_writes(image, header), 0);
}

/// Above one megabyte, nothing goes where the kernel is but an initrd, an overlong table of vCPUs or
/// an overlong command line.
pub proof fn law_high_kernel_is_out_of_the_way(image: Seq<u8>, config: BootModel, j: int)
    requires
        config.guest_mem_size <= usize::MAX,
        LOW_MEM_HOLE_END <= config.kernel_addr() <= usize::MAX,
        acpi::ACPI_MADT_GPA + 56 + 8 * config.vcpu_count <= LOW_MEM_HOLE_END,
        CMDLINE_GPA + config.cmdline_bytes().len() <= LOW_MEM_HOLE_END,
        ({
            let header = setup_header::header_at(image, setup_header::SETUP_HEADER_OFFSET as int);
            &&& setup_size(header) < image.len()
            &&& config.initrd is Some ==> config.kernel_addr() + image.len() - setup_size(header)
                <= config.initrd_addr(header) || config.initrd_addr(header)
                + config.initrd->Some_0.len() <= config.kernel_addr()
            &&& 1 <= j < config.boot_writes(image, header).len()
        }),
    ensures
        ({
            let header = setup_header::header_at(image, setup_header::SETUP_HEADER_OFFSET as int);
            let writes = config.boot_writes(image, header);
            guest::disjoint(writes[0], writes[j])
        }),
{
    let header = setup_header::header_at(image, setup_header::SETUP_HEADER_OFFSET as int);
    lemma_boot_sizes(config, header);
    lemma_boot_writes(config, image, header);
}

/// After a load, the kernel finds its parameters at the address that it is started with: the ACPI
/// root pointer, the memory map, and the header that tells it where its command line and its initrd
/// are.
pub proof fn law_kernel_finds_its_parameters(
    memory: Seq<u8>,
    image: Seq<u8>,
    config: BootModel,
)
    requires
        config.guest_mem_size <= usize::MAX,
        load_outcome(memory, image, config).1 is Ok,
    ensures
        ({
            let header = setup_header::header_at(image, setup_header::SETUP_HEADER_OFFSET as int);
            let after = load_outcome(memory, image, config).0;
            let page = load_outcome(memory, image, config).1->Ok_0.regs.rsi as int;
            let map = e820_map(config.guest_mem_size);
            &&& bytes::u64_at(after, page + 0x70) == acpi::ACPI_RSDP_GPA
            &&& setup_header::header_at(after, page + 0x1f1) == config.boot_header(header)
            &&& after[page + 0x1e8] == map.len()
            &&& forall|i: int|
                0 <= i < map.len() ==> #[trigger] boot_params::entry_at(
                    after,
                    page + 0x2d0 + 20 * i,
                ) == map[i]
        }),
{
    let header = setup_header::header_at(image, setup_header::SETUP_HEADER_OFFSET as int);
    let after = load_outcome(memory, image, config).0;
    law_loaded_tables_stand(memory, image, config, 0);
    lemma_boot_sizes(config, header);
    boot_params::law_zero_page_fields(
        after,
        ZERO_PAGE_GPA as int,
        acpi::ACPI_RSDP_GPA,
        config.boot_header(header),
        e820_map(config.guest_mem_size),
    );
}

/// A load succeeds exactly where the image is well formed, there is room for the initrd, and each part
/// fits in memory.
pub proof fn law_load_succeeds_where_all_fits(memory: Seq<u8>, image: Seq<u8>, config: BootModel)
    ensures
        load_outcome(memory, image, config).1 is Ok <==> ({
            let header = setup_header::header_at(image, setup_header::SETUP_HEADER_OFFSET as int);
            let writes = config.boot_writes(image, header);
            &&& setup_header::setup_header_error(image) is None
            &&& setup_size(header) < image.len()
            &&& config.initrd_has_room(header)
            &&& forall|k: int|
                0 <= k < writes.len() ==> (#[trigger] writes[k]).fits(memory.len())
        }),
{
    let header = setup_header::header_at(image, setup_header::SETUP_HEADER_OFFSET as int);
    guest::law_writes_succeed_where_all_fit(memory, config.boot_writes(image, header));
}

/// A malformed image is refused before anything is written, and the error is one of invalid data. No
/// other failure is.
pub proof fn law_refused_image_changes_nothing(
    memory: Seq<u8>,
    image: Seq<u8>,
    config: BootModel,
)
    ensures
        setup_header::setup_header_error(image) is Some ==> load_outcome(memory, image, config) == (
            memory,
            Err::<LinuxBootState, VmmError>(setup_header::setup_header_error(image)->Some_0),
        ),
        load_outcome(memory, image, config).1 matches Err(e) ==> (e.spec_kind()
            == ErrorKind::InvalidData <==> load_outcome(memory, image, config).0 == memory && (
        setup_header::setup_header_error(image) is Some || e == VmmError::SetupExceedsImage)),
{
    let header = setup_header::header_at(image, setup_header::SETUP_HEADER_OFFSET as int);
    guest::lemma_written_error(memory, config.early_writes(image, header));
    guest::lemma_written_error(memory, config.boot_writes(image, header));
}

/// The memory map covers every address from zero to the end of guest memory, or to one megabyte where
/// guest memory ends earlier, without gap or overlap. Only the hole below one megabyte is reserved.
pub proof fn law_memory_map_tiles(guest_mem_size: u64)
    ensures
        ({
            let map = e820_map(guest_mem_size);
            &&& map[0].addr == 0
            &&& forall|i: int|
                #![trigger map[i]]
                0 <= i < map.len() - 1 ==> map[i].addr + map[i].size == map[i + 1].addr
            &&& map.last().addr + map.last().size == (if guest_mem_size > LOW_MEM_HOLE_END {
                guest_mem_size
            } else {
                LOW_MEM_HOLE_END
            })
            &&& forall|i: int|
                0 <= i < map.len() ==> ((#[trigger] map[i]).typ == boot_params::E820_RAM <==> !(
                EBDA_END <= map[i].addr < LOW_MEM_HOLE_END))
            &&& forall|i: int|
                0 <= i < map.len() ==> ((#[trigger] map[i]).typ == boot_params::E820_RAM
                    || map[i].typ == boot_params::E820_RESERVED)
        }),
{
}

/// An initrd that has room starts on a page boundary above one megabyte, ends within guest memory and
/// within the limit that the header sets, and starts no lower than any other page boundary from which
/// it would end before the last page boundary below that limit.
pub proof fn law_initrd_placement(guest_mem_size: u64, header: SetupHeader, len: u64, other: int)
    requires
        initrd_start(guest_mem_size, header, len) >= LOW_MEM_HOLE_END,
    ensures
        ({
            let start = initrd_start(guest_mem_size, header, len);
            &&& start % 0x1000 == 0
            &&& start + len <= guest_mem_size
            &&& header.initrd_addr_max != 0 ==> start + len <= header.initrd_addr_max + 1
            &&& other % 0x1000 == 0 && other + len <= page_floor(
                initrd_limit(guest_mem_size, header),
            ) ==> other <= start
        }),
{
}

} // verus!
