//! The hypervisor device's requests and the structures they carry.
use vstd::prelude::*;

verus! {

const IOC_TYPESHIFT: u32 = 8;

const IOC_SIZESHIFT: u32 = 16;

const IOC_DIRSHIFT: u32 = 30;

/// The request carries nothing.
pub const IOC_NONE: u32 = 0;

/// The request carries a structure to the device.
pub const IOC_WRITE: u32 = 1;

/// The request brings a structure back.
pub const IOC_READ: u32 = 2;

/// The number of a request: direction, size, type and serial number side by side.
pub open spec fn ioc_spec(dir: u32, ty: u8, nr: u8, size: u32) -> u64 {
    ((dir << 30u32) | ((ty as u32) << 8u32) | (nr as u32) | (size << 16u32)) as u64
}

/// The number of a request.
pub fn ioc(dir: u32, ty: u8, nr: u8, size: usize) -> (number: u64)
    ensures
        number == ioc_spec(dir, ty, nr, size as u32),
        dir < 4 && size < 0x4000 ==> number == dir * 0x4000_0000 + size * 0x1_0000 + ty * 0x100
            + nr,
{
    let size32: u32 = size as u32;
    proof {
        if dir < 4 && size < 0x4000 {
            law_ioc_fields(dir, ty, nr, size32);
        }
    }
    ((dir << IOC_DIRSHIFT) | ((ty as u32) << IOC_TYPESHIFT) | (nr as u32) | (size32
        << IOC_SIZESHIFT)) as u64
}

/// In a request number the fields do not overlap: direction, size, type and serial number can each
/// be read back.
pub proof fn law_ioc_fields(dir: u32, ty: u8, nr: u8, size: u32)
    by (bit_vector)
    requires
        dir < 4,
        size < 0x4000,
    ensures
        ioc_spec(dir, ty, nr, size) == dir * 0x4000_0000 + size * 0x1_0000 + ty * 0x100 + nr,
        ioc_spec(dir, ty, nr, size) / 0x4000_0000 == dir,
        (ioc_spec(dir, ty, nr, size) / 0x1_0000) % 0x4000 == size,
        (ioc_spec(dir, ty, nr, size) / 0x100) % 0x100 == ty,
        ioc_spec(dir, ty, nr, size) % 0x100 == nr,
{
}

/// Something with a fixed size in the device's binary interface.
pub trait AbiSized {
    /// The size in bytes.
    spec fn abi_size() -> nat;

    /// The size in bytes.
    fn size() -> (n: usize)
        ensures
            n == Self::abi_size(),
            n < 0x4000,
    ;
}

impl AbiSized for u32 {
    open spec fn abi_size() -> nat {
        4
    }

    fn size() -> (n: usize) {
        4
    }
}

impl AbiSized for i32 {
    open spec fn abi_size() -> nat {
        4
    }

    fn size() -> (n: usize) {
        4
    }
}

impl AbiSized for UserMemoryRegion {
    open spec fn abi_size() -> nat {
        32
    }

    fn size() -> (n: usize) {
        32
    }
}

impl AbiSized for DirtyLog {
    open spec fn abi_size() -> nat {
        16
    }

    fn size() -> (n: usize) {
        16
    }
}

impl AbiSized for VcpuRegs {
    open spec fn abi_size() -> nat {
        144
    }

    fn size() -> (n: usize) {
        144
    }
}

impl AbiSized for VcpuSregs {
    open spec fn abi_size() -> nat {
        304
    }

    fn size() -> (n: usize) {
        304
    }
}

impl AbiSized for RunState {
    open spec fn abi_size() -> nat {
        80
    }

    fn size() -> (n: usize) {
        80
    }
}

/// The number of a request that carries nothing.
pub fn io(ty: u8, nr: u8) -> (number: u64)
    ensures
        number == ioc_spec(IOC_NONE, ty, nr, 0),
{
    ioc(IOC_NONE, ty, nr, 0)
}

/// The number of a request that brings a `T` back.
pub fn ior<T: AbiSized>(ty: u8, nr: u8) -> (number: u64)
    ensures
        number == ioc_spec(IOC_READ, ty, nr, T::abi_size() as u32),
{
    ioc(IOC_READ, ty, nr, T::size())
}

/// The number of a request that carries a `T` to the device.
pub fn iow<T: AbiSized>(ty: u8, nr: u8) -> (number: u64)
    ensures
        number == ioc_spec(IOC_WRITE, ty, nr, T::abi_size() as u32),
{
    ioc(IOC_WRITE, ty, nr, T::size())
}

/// The number of a request that carries a `T` both ways.
pub fn iowr<T: AbiSized>(ty: u8, nr: u8) -> (number: u64)
    ensures
        number == ioc_spec(IOC_READ | IOC_WRITE, ty, nr, T::abi_size() as u32),
{
    ioc(IOC_READ | IOC_WRITE, ty, nr, T::size())
}

/// The type field of all requests: an upper-case H.
pub const RSH_IOC_TYPE: u8 = 0x48;

/// Asks for the version of the interface.
pub const RSH_GET_API_VERSION: u64 = 0x4800;

/// Creates a virtual machine.
pub const RSH_CREATE_VM: u64 = 0x4801;

/// Asks whether an extension is there.
pub const RSH_CHECK_EXTENSION: u64 = 0x4004_4803;

/// Creates a vCPU.
pub const RSH_CREATE_VCPU: u64 = 0x4004_4841;

/// Asks which pages were written.
pub const RSH_GET_DIRTY_LOG: u64 = 0xc010_4842;

/// Raises an interrupt line.
pub const RSH_INJECT_IRQ: u64 = 0x4004_4843;

/// Maps host memory into the guest.
pub const RSH_SET_USER_MEMORY_REGION: u64 = 0x4020_4846;

/// Runs a vCPU until it exits.
pub const RSH_RUN: u64 = 0x8050_4880;

/// Reads the general registers.
pub const RSH_GET_REGS: u64 = 0x8090_4881;

/// Writes the general registers.
pub const RSH_SET_REGS: u64 = 0x4090_4882;

/// Reads the special registers.
pub const RSH_GET_SREGS: u64 = 0x8130_4883;

/// Writes the special registers.
pub const RSH_SET_SREGS: u64 = 0x4130_4884;

/// Injects an interrupt vector.
pub const RSH_INJECT_INTERRUPT: u64 = 0x4004_4885;

/// The request numbers are those of their direction, serial number and structure.
pub proof fn lemma_request_numbers()
    by (bit_vector)
    ensures
        RSH_GET_API_VERSION == ioc_spec(IOC_NONE, RSH_IOC_TYPE, 0x00, 0),
        RSH_CREATE_VM == ioc_spec(IOC_NONE, RSH_IOC_TYPE, 0x01, 0),
        RSH_CHECK_EXTENSION == ioc_spec(IOC_WRITE, RSH_IOC_TYPE, 0x03, 4),
        RSH_CREATE_VCPU == ioc_spec(IOC_WRITE, RSH_IOC_TYPE, 0x41, 4),
        RSH_GET_DIRTY_LOG == ioc_spec(IOC_READ | IOC_WRITE, RSH_IOC_TYPE, 0x42, 16),
        RSH_INJECT_IRQ == ioc_spec(IOC_WRITE, RSH_IOC_TYPE, 0x43, 4),
        RSH_SET_USER_MEMORY_REGION == ioc_spec(IOC_WRITE, RSH_IOC_TYPE, 0x46, 32),
        RSH_RUN == ioc_spec(IOC_READ, RSH_IOC_TYPE, 0x80, 80),
        RSH_GET_REGS == ioc_spec(IOC_READ, RSH_IOC_TYPE, 0x81, 144),
        RSH_SET_REGS == ioc_spec(IOC_WRITE, RSH_IOC_TYPE, 0x82, 144),
        RSH_GET_SREGS == ioc_spec(IOC_READ, RSH_IOC_TYPE, 0x83, 304),
        RSH_SET_SREGS == ioc_spec(IOC_WRITE, RSH_IOC_TYPE, 0x84, 304),
        RSH_INJECT_INTERRUPT == ioc_spec(IOC_WRITE, RSH_IOC_TYPE, 0x85, 4),
{
}

/// The guest executed HLT.
pub const VMX_EXIT_REASON_HLT: u32 = 12;
/// The guest triple-faulted.
pub const VMX_EXIT_REASON_TRIPLE_FAULT: u32 = 2;
/// The guest executed a port I/O instruction.
pub const VMX_EXIT_REASON_IO_INSTRUCTION: u32 = 30;
/// The guest executed PAUSE.
pub const VMX_EXIT_REASON_PAUSE_INSTRUCTION: u32 = 40;
/// The guest touched memory that is not mapped.
pub const VMX_EXIT_REASON_EPT_VIOLATION: u32 = 48;
/// The guest's time slice ended.
pub const VMX_EXIT_REASON_PREEMPTION_TIMER: u32 = 52;

/// What an exit reason is called in messages.
pub open spec fn exit_reason_text(reason: u32) -> Seq<char> {
    if reason == VMX_EXIT_REASON_TRIPLE_FAULT {
        "TRIPLE_FAULT"@
    } else if reason == VMX_EXIT_REASON_HLT {
        "HLT"@
    } else if reason == VMX_EXIT_REASON_IO_INSTRUCTION {
        "IO_INSTRUCTION"@
    } else if reason == VMX_EXIT_REASON_PAUSE_INSTRUCTION {
        "PAUSE_INSTRUCTION"@
    } else {
        "unhandled VM exit reason"@
    }
}

/// What an exit reason is called in messages.
pub fn exit_reason_name(reason: u32) -> (name: &'static str)
    ensures
        name@ == exit_reason_text(reason),
{
    match reason {
        VMX_EXIT_REASON_TRIPLE_FAULT => "TRIPLE_FAULT",
        VMX_EXIT_REASON_HLT => "HLT",
        VMX_EXIT_REASON_IO_INSTRUCTION => "IO_INSTRUCTION",
        VMX_EXIT_REASON_PAUSE_INSTRUCTION => "PAUSE_INSTRUCTION",
        _ => "unhandled VM exit reason",
    }
}

/// First port of the serial line.
pub const COM1_BASE: u16 = 0x3f8;

/// First port behind the serial line.
pub const COM1_END: u16 = 0x400;

/// A stretch of host memory that the guest sees as its own.
#[derive(Debug, Clone, Copy)]
pub struct UserMemoryRegion {
    /// Which mapping this is.
    pub slot: u32,
    /// Mapping options.
    pub flags: u32,
    /// Where the guest sees it.
    pub guest_phys_addr: u64,
    /// Its size in bytes.
    pub memory_size: u64,
    /// Where the host has it.
    pub userspace_addr: u64,
}

impl UserMemoryRegion {
    /// All fields zero.
    pub open spec fn zero() -> UserMemoryRegion {
        UserMemoryRegion {
            slot: 0,
            flags: 0,
            guest_phys_addr: 0,
            memory_size: 0,
            userspace_addr: 0,
        }
    }
}

impl Default for UserMemoryRegion {
    fn default() -> (value: UserMemoryRegion)
        ensures
            value == UserMemoryRegion::zero(),
    {
        let value = UserMemoryRegion {
            slot: 0,
            flags: 0,
            guest_phys_addr: 0,
            memory_size: 0,
            userspace_addr: 0,
        };
        value
    }
}

/// A question about which pages of a mapping were written.
#[derive(Debug, Clone, Copy)]
pub struct DirtyLog {
    /// Which mapping is asked about.
    pub slot: u32,
    /// Unused.
    pub padding: u32,
    /// Where the bitmap goes.
    pub dirty_bitmap: u64,
}

impl DirtyLog {
    /// All fields zero.
    pub open spec fn zero() -> DirtyLog {
        DirtyLog {
            slot: 0,
            padding: 0,
            dirty_bitmap: 0,
        }
    }
}

impl Default for DirtyLog {
    fn default() -> (value: DirtyLog)
        ensures
            value == DirtyLog::zero(),
    {
        let value = DirtyLog {
            slot: 0,
            padding: 0,
            dirty_bitmap: 0,
        };
        value
    }
}

/// The general registers of a vCPU.
#[derive(Debug, Clone, Copy)]
pub struct VcpuRegs {
    /// Register rax.
    pub rax: u64,
    /// Register rbx.
    pub rbx: u64,
    /// Register rcx.
    pub rcx: u64,
    /// Register rdx.
    pub rdx: u64,
    /// Register rsi.
    pub rsi: u64,
    /// Register rdi.
    pub rdi: u64,
    /// Register rbp.
    pub rbp: u64,
    /// The stack pointer.
    pub rsp: u64,
    /// Register r8.
    pub r8: u64,
    /// Register r9.
    pub r9: u64,
    /// Register r10.
    pub r10: u64,
    /// Register r11.
    pub r11: u64,
    /// Register r12.
    pub r12: u64,
    /// Register r13.
    pub r13: u64,
    /// Register r14.
    pub r14: u64,
    /// Register r15.
    pub r15: u64,
    /// The instruction pointer.
    pub rip: u64,
    /// The flags.
    pub rflags: u64,
}

impl VcpuRegs {
    /// All fields zero.
    pub open spec fn zero() -> VcpuRegs {
        VcpuRegs {
            rax: 0,
            rbx: 0,
            rcx: 0,
            rdx: 0,
            rsi: 0,
            rdi: 0,
            rbp: 0,
            rsp: 0,
            r8: 0,
            r9: 0,
            r10: 0,
            r11: 0,
            r12: 0,
            r13: 0,
            r14: 0,
            r15: 0,
            rip: 0,
            rflags: 0,
        }
    }
}

impl Default for VcpuRegs {
    fn default() -> (value: VcpuRegs)
        ensures
            value == VcpuRegs::zero(),
    {
        let value = VcpuRegs {
            rax: 0,
            rbx: 0,
            rcx: 0,
            rdx: 0,
            rsi: 0,
            rdi: 0,
            rbp: 0,
            rsp: 0,
            r8: 0,
            r9: 0,
            r10: 0,
            r11: 0,
            r12: 0,
            r13: 0,
            r14: 0,
            r15: 0,
            rip: 0,
            rflags: 0,
        };
        value
    }
}

/// A segment register.
#[derive(Debug, Clone, Copy)]
pub struct VcpuSegment {
    /// First address.
    pub base: u64,
    /// Last offset.
    pub limit: u32,
    /// Selector.
    pub selector: u16,
    /// Type bits.
    pub type_: u8,
    /// Present bit.
    pub present: u8,
    /// Privilege level.
    pub dpl: u8,
    /// Default operand size.
    pub db: u8,
    /// Code or data, not system.
    pub s: u8,
    /// 64-bit code.
    pub l: u8,
    /// Limit counts pages.
    pub g: u8,
    /// Free for software.
    pub avl: u8,
    /// Not loaded.
    pub unusable: u8,
    /// Unused.
    pub padding: u8,
}

impl VcpuSegment {
    /// All fields zero.
    pub open spec fn zero() -> VcpuSegment {
        VcpuSegment {
            base: 0,
            limit: 0,
            selector: 0,
            type_: 0,
            present: 0,
            dpl: 0,
            db: 0,
            s: 0,
            l: 0,
            g: 0,
            avl: 0,
            unusable: 0,
            padding: 0,
        }
    }
}

impl Default for VcpuSegment {
    fn default() -> (value: VcpuSegment)
        ensures
            value == VcpuSegment::zero(),
    {
        let value = VcpuSegment {
            base: 0,
            limit: 0,
            selector: 0,
            type_: 0,
            present: 0,
            dpl: 0,
            db: 0,
            s: 0,
            l: 0,
            g: 0,
            avl: 0,
            unusable: 0,
            padding: 0,
        };
        value
    }
}

/// A descriptor table register.
#[derive(Debug, Clone, Copy)]
pub struct VcpuDtable {
    /// First address.
    pub base: u64,
    /// Last offset.
    pub limit: u16,
    /// Unused.
    pub padding: [u16; 3],
}

impl VcpuDtable {
    /// All fields zero.
    pub open spec fn zero() -> VcpuDtable {
        VcpuDtable {
            base: 0,
            limit: 0,
            padding: [0, 0, 0],
        }
    }
}

impl Default for VcpuDtable {
    fn default() -> (value: VcpuDtable)
        ensures
            value == VcpuDtable::zero(),
    {
        let value = VcpuDtable {
            base: 0,
            limit: 0,
            padding: [0;3],
        };
        assert(value.padding =~= VcpuDtable::zero().padding);
        value
    }
}

/// The special registers of a vCPU.
#[derive(Debug, Clone, Copy)]
pub struct VcpuSregs {
    /// Segment cs.
    pub cs: VcpuSegment,
    /// Segment ds.
    pub ds: VcpuSegment,
    /// Segment es.
    pub es: VcpuSegment,
    /// Segment fs.
    pub fs: VcpuSegment,
    /// Segment gs.
    pub gs: VcpuSegment,
    /// Segment ss.
    pub ss: VcpuSegment,
    /// Task register.
    pub tr: VcpuSegment,
    /// Local descriptor table register.
    pub ldt: VcpuSegment,
    /// Global descriptor table register.
    pub gdt: VcpuDtable,
    /// Interrupt descriptor table register.
    pub idt: VcpuDtable,
    /// Control register cr0.
    pub cr0: u64,
    /// Control register cr2.
    pub cr2: u64,
    /// Control register cr3.
    pub cr3: u64,
    /// Control register cr4.
    pub cr4: u64,
    /// Extended feature enable register.
    pub efer: u64,
    /// Address of the local APIC.
    pub apic_base: u64,
    /// Pending interrupt vectors.
    pub interrupt_bitmap: [u64; 4],
}

impl VcpuSregs {
    /// All fields zero.
    pub open spec fn zero() -> VcpuSregs {
        VcpuSregs {
            cs: VcpuSegment::zero(),
            ds: VcpuSegment::zero(),
            es: VcpuSegment::zero(),
            fs: VcpuSegment::zero(),
            gs: VcpuSegment::zero(),
            ss: VcpuSegment::zero(),
            tr: VcpuSegment::zero(),
            ldt: VcpuSegment::zero(),
            gdt: VcpuDtable::zero(),
            idt: VcpuDtable::zero(),
            cr0: 0,
            cr2: 0,
            cr3: 0,
            cr4: 0,
            efer: 0,
            apic_base: 0,
            interrupt_bitmap: [0, 0, 0, 0],
        }
    }
}

impl Default for VcpuSregs {
    fn default() -> (value: VcpuSregs)
        ensures
            value == VcpuSregs::zero(),
    {
        let value = VcpuSregs {
            cs: VcpuSegment::default(),
            ds: VcpuSegment::default(),
            es: VcpuSegment::default(),
            fs: VcpuSegment::default(),
            gs: VcpuSegment::default(),
            ss: VcpuSegment::default(),
            tr: VcpuSegment::default(),
            ldt: VcpuSegment::default(),
            gdt: VcpuDtable::default(),
            idt: VcpuDtable::default(),
            cr0: 0,
            cr2: 0,
            cr3: 0,
            cr4: 0,
            efer: 0,
            apic_base: 0,
            interrupt_bitmap: [0;4],
        };
        assert(value.interrupt_bitmap =~= VcpuSregs::zero().interrupt_bitmap);
        value
    }
}

/// What a port I/O exit tells.
#[derive(Debug, Clone, Copy)]
pub struct IoExit {
    /// The port, or zero where only the qualification tells.
    pub port: u16,
    /// Width in bytes, or zero where only the qualification tells.
    pub size: u8,
    /// Non-zero for an input.
    pub is_in: u8,
    /// Non-zero for a string instruction.
    pub is_string: u8,
    /// Non-zero for a repeated instruction.
    pub is_repeat: u8,
    /// Unused.
    pub reserved: [u8; 2],
    /// Number of repetitions.
    pub count: u32,
    /// The data.
    pub data: u64,
}

impl IoExit {
    /// All fields zero.
    pub open spec fn zero() -> IoExit {
        IoExit {
            port: 0,
            size: 0,
            is_in: 0,
            is_string: 0,
            is_repeat: 0,
            reserved: [0, 0],
            count: 0,
            data: 0,
        }
    }
}

impl Default for IoExit {
    fn default() -> (value: IoExit)
        ensures
            value == IoExit::zero(),
    {
        let value = IoExit {
            port: 0,
            size: 0,
            is_in: 0,
            is_string: 0,
            is_repeat: 0,
            reserved: [0;2],
            count: 0,
            data: 0,
        };
        assert(value.reserved =~= IoExit::zero().reserved);
        value
    }
}

/// What a memory-mapped I/O exit tells.
#[derive(Debug, Clone, Copy)]
pub struct MmioInfo {
    /// The guest physical address.
    pub phys_addr: u64,
    /// The data.
    pub data: u64,
    /// Width in bytes.
    pub len: u32,
    /// Non-zero for a write.
    pub is_write: u8,
    /// Unused.
    pub reserved: [u8; 3],
}

impl MmioInfo {
    /// All fields zero.
    pub open spec fn zero() -> MmioInfo {
        MmioInfo {
            phys_addr: 0,
            data: 0,
            len: 0,
            is_write: 0,
            reserved: [0, 0, 0],
        }
    }
}

impl Default for MmioInfo {
    fn default() -> (value: MmioInfo)
        ensures
            value == MmioInfo::zero(),
    {
        let value = MmioInfo {
            phys_addr: 0,
            data: 0,
            len: 0,
            is_write: 0,
            reserved: [0;3],
        };
        assert(value.reserved =~= MmioInfo::zero().reserved);
        value
    }
}

/// Why and where a vCPU stopped.
#[derive(Debug, Clone, Copy)]
pub struct RunState {
    /// Why the guest left.
    pub exit_reason: u32,
    /// Length of the instruction that left, or zero.
    pub instruction_len: u32,
    /// Its address.
    pub guest_rip: u64,
    /// The guest physical address it touched.
    pub guest_phys_addr: u64,
    /// The processor's description of the exit.
    pub exit_qualification: u64,
    /// Port I/O details.
    pub io: IoExit,
    /// Memory-mapped I/O details.
    pub mmio: MmioInfo,
}

impl RunState {
    /// All fields zero.
    pub open spec fn zero() -> RunState {
        RunState {
            exit_reason: 0,
            instruction_len: 0,
            guest_rip: 0,
            guest_phys_addr: 0,
            exit_qualification: 0,
            io: IoExit::zero(),
            mmio: MmioInfo::zero(),
        }
    }
}

impl Default for RunState {
    fn default() -> (value: RunState)
        ensures
            value == RunState::zero(),
    {
        let value = RunState {
            exit_reason: 0,
            instruction_len: 0,
            guest_rip: 0,
            guest_phys_addr: 0,
            exit_qualification: 0,
            io: IoExit::default(),
            mmio: MmioInfo::default(),
        };
        value
    }
}

impl RunState {
    /// The port of a port I/O exit.
    pub open spec fn port(&self) -> u16 {
        if self.io.port != 0 {
            self.io.port
        } else {
            ((self.exit_qualification / 0x1_0000) % 0x1_0000) as u16
        }
    }

    /// The width of a port I/O exit in bytes.
    pub open spec fn width(&self) -> u8 {
        if self.io.size != 0 {
            self.io.size
        } else {
            (self.exit_qualification % 8 + 1) as u8
        }
    }

    /// A port I/O exit is an input.
    pub open spec fn is_in(&self) -> bool {
        self.io.is_in != 0 || (self.exit_qualification / 8) % 2 == 1
    }

    /// A port I/O exit comes from a string instruction.
    pub open spec fn is_string(&self) -> bool {
        self.io.is_string != 0 || (self.exit_qualification / 16) % 2 == 1
    }

    /// A port I/O exit comes from a repeated instruction.
    pub open spec fn is_repeat(&self) -> bool {
        self.io.is_repeat != 0 || (self.exit_qualification / 32) % 2 == 1
    }

    /// The port of a port I/O exit.
    pub fn io_port(&self) -> (port: u16)
        ensures
            port == self.port(),
    {
        if self.io.port != 0 {
            self.io.port
        } else {
            let q = self.exit_qualification;
            proof {
                assert((q >> 16) & 0xffff == (q / 0x1_0000) % 0x1_0000) by (bit_vector);
            }
            ((q >> 16) & 0xffff) as u16
        }
    }

    /// The width of a port I/O exit in bytes.
    pub fn io_size(&self) -> (width: u8)
        ensures
            width == self.width(),
    {
        if self.io.size != 0 {
            self.io.size
        } else {
            let q = self.exit_qualification;
            proof {
                assert(q & 0b111 == q % 8) by (bit_vector);
            }
            ((q & 0b111) as u8) + 1
        }
    }

    /// A port I/O exit is an input.
    pub fn io_is_in(&self) -> (is: bool)
        ensures
            is == self.is_in(),
    {
        if self.io.is_in != 0 {
            true
        } else {
            let q = self.exit_qualification;
            proof {
                assert((q & (1u64 << 3) != 0) <==> (q / 8) % 2 == 1) by (bit_vector);
            }
            (q & (1u64 << 3)) != 0
        }
    }

    /// A port I/O exit comes from a string instruction.
    pub fn io_is_string(&self) -> (is: bool)
        ensures
            is == self.is_string(),
    {
        if self.io.is_string != 0 {
            true
        } else {
            let q = self.exit_qualification;
            proof {
                assert((q & (1u64 << 4) != 0) <==> (q / 16) % 2 == 1) by (bit_vector);
            }
            (q & (1u64 << 4)) != 0
        }
    }

    /// A port I/O exit comes from a repeated instruction.
    pub fn io_is_repeat(&self) -> (is: bool)
        ensures
            is == self.is_repeat(),
    {
        if self.io.is_repeat != 0 {
            true
        } else {
            let q = self.exit_qualification;
            proof {
                assert((q & (1u64 << 5) != 0) <==> (q / 32) % 2 == 1) by (bit_vector);
            }
            (q & (1u64 << 5)) != 0
        }
    }
}

/// Where the details are left out, the qualification alone tells what a port I/O exit is about: the
/// port, the width, the direction, and whether the instruction is a string or a repeated one.
pub proof fn law_qualification_suffices(
    run_state: RunState,
    port: u16,
    width: u8,
    is_in: bool,
    is_string: bool,
    is_repeat: bool,
)
    requires
        run_state.io == IoExit::zero(),
        1 <= width <= 8,
        run_state.exit_qualification == port * 0x1_0000 + (if is_repeat {
            32int
        } else {
            0
        }) + (if is_string {
            16int
        } else {
            0
        }) + (if is_in {
            8int
        } else {
            0
        }) + (width - 1),
    ensures
        run_state.port() == port,
        run_state.width() == width,
        run_state.is_in() == is_in,
        run_state.is_string() == is_string,
        run_state.is_repeat() == is_repeat,
{
    lemma_qualification_fields(
        run_state.exit_qualification,
        port as u64,
        if is_repeat {
            1
        } else {
            0
        },
        if is_string {
            1
        } else {
            0
        },
        if is_in {
            1
        } else {
            0
        },
        (width - 1) as u64,
    );
}

proof fn lemma_qualification_fields(
    qualification: u64,
    port: u64,
    repeat: u64,
    string: u64,
    input: u64,
    width: u64,
)
    by (bit_vector)
    requires
        port < 0x1_0000,
        repeat < 2,
        string < 2,
        input < 2,
        width < 8,
        qualification == port * 0x1_0000 + repeat * 32 + string * 16 + input * 8 + width,
    ensures
        (qualification / 0x1_0000) % 0x1_0000 == port,
        qualification % 8 == width,
        (qualification / 8) % 2 == input,
        (qualification / 16) % 2 == string,
        (qualification / 32) % 2 == repeat,
{
}

} // verus!
