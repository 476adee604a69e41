//! Guest memory, and the requests made of the hypervisor device.
use crate::bytes;
use crate::error::VmmError;
use crate::ioctl;
use crate::ioctl::AbiSized;
use crate::ioctl::RunState;
use crate::ioctl::UserMemoryRegion;
use crate::ioctl::VcpuRegs;
use crate::ioctl::VcpuSregs;
use crate::text;
use vstd::prelude::*;
use vstd::string::*;

verus! {

/// A failure of the operating system, told together with what was being done.
pub fn with_context(err: &str, context: &str) -> (message: String)
    ensures
        message@ == context@ + ": "@ + err@,
{
    let mut message = context.to_owned();
    message.append(": ");
    message.append(err);
    message
}

/// What was being done when the device could not be opened.
pub fn open_context(path: &str) -> (context: String)
    ensures
        context@ == "failed to open "@ + path@,
{
    let mut context = "failed to open ".to_owned();
    context.append(path);
    context
}

/// A request made of the hypervisor device, of a virtual machine, or of a vCPU.
#[derive(Debug, Clone, Copy)]
pub enum DeviceRequest {
    /// Ask for the version of the interface.
    ApiVersion,
    /// Create a virtual machine.
    CreateVm,
    /// Create a vCPU.
    CreateVcpu { vcpu_id: u32 },
    /// Map host memory into the guest.
    SetUserMemoryRegion { region: UserMemoryRegion },
    /// Raise an interrupt line.
    InjectIrq { irq: u32 },
    /// Run until the guest exits.
    Run,
    /// Read the general registers.
    GetRegs,
    /// Write the general registers.
    SetRegs { regs: VcpuRegs },
    /// Read the special registers.
    GetSregs,
    /// Write the special registers.
    SetSregs { sregs: VcpuSregs },
    /// Inject an interrupt vector.
    InjectInterrupt { vector: u32 },
}

impl DeviceRequest {
    /// The number of the request.
    pub open spec fn spec_number(&self) -> u64 {
        match self {
            DeviceRequest::ApiVersion => ioctl::ioc_spec(
                ioctl::IOC_NONE,
                ioctl::RSH_IOC_TYPE,
                0x00,
                0,
            ),
            DeviceRequest::CreateVm => ioctl::ioc_spec(
                ioctl::IOC_NONE,
                ioctl::RSH_IOC_TYPE,
                0x01,
                0,
            ),
            DeviceRequest::CreateVcpu { .. } => ioctl::ioc_spec(
                ioctl::IOC_WRITE,
                ioctl::RSH_IOC_TYPE,
                0x41,
                u32::abi_size() as u32,
            ),
            DeviceRequest::SetUserMemoryRegion { .. } => ioctl::ioc_spec(
                ioctl::IOC_WRITE,
                ioctl::RSH_IOC_TYPE,
                0x46,
                UserMemoryRegion::abi_size() as u32,
            ),
            DeviceRequest::InjectIrq { .. } => ioctl::ioc_spec(
                ioctl::IOC_WRITE,
                ioctl::RSH_IOC_TYPE,
                0x43,
                u32::abi_size() as u32,
            ),
            DeviceRequest::Run => ioctl::ioc_spec(
                ioctl::IOC_READ,
                ioctl::RSH_IOC_TYPE,
                0x80,
                RunState::abi_size() as u32,
            ),
            DeviceRequest::GetRegs => ioctl::ioc_spec(
                ioctl::IOC_READ,
                ioctl::RSH_IOC_TYPE,
                0x81,
                VcpuRegs::abi_size() as u32,
            ),
            DeviceRequest::SetRegs { .. } => ioctl::ioc_spec(
                ioctl::IOC_WRITE,
                ioctl::RSH_IOC_TYPE,
                0x82,
                VcpuRegs::abi_size() as u32,
            ),
            DeviceRequest::GetSregs => ioctl::ioc_spec(
                ioctl::IOC_READ,
                ioctl::RSH_IOC_TYPE,
                0x83,
                VcpuSregs::abi_size() as u32,
            ),
            DeviceRequest::SetSregs { .. } => ioctl::ioc_spec(
                ioctl::IOC_WRITE,
                ioctl::RSH_IOC_TYPE,
                0x84,
                VcpuSregs::abi_size() as u32,
            ),
            DeviceRequest::InjectInterrupt { .. } => ioctl::ioc_spec(
                ioctl::IOC_WRITE,
                ioctl::RSH_IOC_TYPE,
                0x85,
                u32::abi_size() as u32,
            ),
        }
    }

    /// The number of the request.
    pub fn number(&self) -> (number: u64)
        ensures
            number == self.spec_number(),
    {
        proof {
            ioctl::lemma_request_numbers();
        }
        match self {
            DeviceRequest::ApiVersion => ioctl::RSH_GET_API_VERSION,
            DeviceRequest::CreateVm => ioctl::RSH_CREATE_VM,
            DeviceRequest::CreateVcpu { .. } => ioctl::RSH_CREATE_VCPU,
            DeviceRequest::SetUserMemoryRegion { .. } => ioctl::RSH_SET_USER_MEMORY_REGION,
            DeviceRequest::InjectIrq { .. } => ioctl::RSH_INJECT_IRQ,
            DeviceRequest::Run => ioctl::RSH_RUN,
            DeviceRequest::GetRegs => ioctl::RSH_GET_REGS,
            DeviceRequest::SetRegs { .. } => ioctl::RSH_SET_REGS,
            DeviceRequest::GetSregs => ioctl::RSH_GET_SREGS,
            DeviceRequest::SetSregs { .. } => ioctl::RSH_SET_SREGS,
            DeviceRequest::InjectInterrupt { .. } => ioctl::RSH_INJECT_INTERRUPT,
        }
    }

    /// The bytes handed to the device: what the request carries, or a cleared structure for the
    /// device to fill in.
    pub open spec fn payload(&self) -> Seq<u8> {
        match self {
            DeviceRequest::ApiVersion => Seq::empty(),
            DeviceRequest::CreateVm => Seq::empty(),
            DeviceRequest::CreateVcpu { vcpu_id } => bytes::le_bytes(*vcpu_id as nat, 4),
            DeviceRequest::SetUserMemoryRegion { region } => region.layout(),
            DeviceRequest::InjectIrq { irq } => bytes::le_bytes(*irq as nat, 4),
            DeviceRequest::Run => bytes::zeros(RunState::abi_size()),
            DeviceRequest::GetRegs => bytes::zeros(VcpuRegs::abi_size()),
            DeviceRequest::SetRegs { regs } => regs.layout(),
            DeviceRequest::GetSregs => bytes::zeros(VcpuSregs::abi_size()),
            DeviceRequest::SetSregs { sregs } => sregs.layout(),
            DeviceRequest::InjectInterrupt { vector } => bytes::le_bytes(*vector as nat, 4),
        }
    }

    /// The bytes handed to the device; none where the request takes no argument.
    pub fn argument(&self) -> (data: Vec<u8>)
        ensures
            data@ == self.payload(),
    {
        match self {
            DeviceRequest::ApiVersion => Vec::new(),
            DeviceRequest::CreateVm => Vec::new(),
            DeviceRequest::CreateVcpu { vcpu_id } => u32_argument(*vcpu_id),
            DeviceRequest::SetUserMemoryRegion { region } => region.to_bytes(),
            DeviceRequest::InjectIrq { irq } => u32_argument(*irq),
            DeviceRequest::Run => cleared(RunState::size()),
            DeviceRequest::GetRegs => cleared(VcpuRegs::size()),
            DeviceRequest::SetRegs { regs } => regs.to_bytes(),
            DeviceRequest::GetSregs => cleared(VcpuSregs::size()),
            DeviceRequest::SetSregs { sregs } => sregs.to_bytes(),
            DeviceRequest::InjectInterrupt { vector } => u32_argument(*vector),
        }
    }

    /// What is said to have failed where the device refuses the request.
    pub open spec fn failure_text(&self) -> Seq<char> {
        match self {
            DeviceRequest::ApiVersion => "RSH_GET_API_VERSION failed"@,
            DeviceRequest::CreateVm => "RSH_CREATE_VM failed"@,
            DeviceRequest::CreateVcpu { vcpu_id } => "RSH_CREATE_VCPU failed for vcpu_id="@
                + text::dec_text(*vcpu_id as nat),
            DeviceRequest::SetUserMemoryRegion { region } =>
                "RSH_SET_USER_MEMORY_REGION failed for slot="@ + text::dec_text(region.slot as nat)
                + " gpa="@ + text::hex_text(region.guest_phys_addr as nat) + " size="@
                + text::hex_text(region.memory_size as nat) + " hva="@ + text::hex_text(
                region.userspace_addr as nat,
            ),
            DeviceRequest::InjectIrq { irq } => "RSH_INJECT_IRQ failed for irq="@ + text::dec_text(
                *irq as nat,
            ),
            DeviceRequest::Run => "RSH_RUN failed"@,
            DeviceRequest::GetRegs => "RSH_GET_REGS failed"@,
            DeviceRequest::SetRegs { .. } => "RSH_SET_REGS failed"@,
            DeviceRequest::GetSregs => "RSH_GET_SREGS failed"@,
            DeviceRequest::SetSregs { .. } => "RSH_SET_SREGS failed"@,
            DeviceRequest::InjectInterrupt { vector } => "RSH_INJECT_INTERRUPT failed for vector="@
                + text::dec_text(*vector as nat),
        }
    }

    /// What is said to have failed where the device refuses the request.
    pub fn failure_context(&self) -> (context: String)
        ensures
            context@ == self.failure_text(),
    {
        match self {
            DeviceRequest::ApiVersion => "RSH_GET_API_VERSION failed".to_owned(),
            DeviceRequest::CreateVm => "RSH_CREATE_VM failed".to_owned(),
            DeviceRequest::CreateVcpu { vcpu_id } => {
                let mut out = "RSH_CREATE_VCPU failed for vcpu_id=".to_owned();
                text::push_dec(&mut out, *vcpu_id as u64);
                out
            },
            DeviceRequest::SetUserMemoryRegion { region } => {
                let mut out = "RSH_SET_USER_MEMORY_REGION failed for slot=".to_owned();
                text::push_dec(&mut out, region.slot as u64);
                out.append(" gpa=");
                text::push_hex(&mut out, region.guest_phys_addr);
                out.append(" size=");
                text::push_hex(&mut out, region.memory_size);
                out.append(" hva=");
                text::push_hex(&mut out, region.userspace_addr);
                out
            },
            DeviceRequest::InjectIrq { irq } => {
                let mut out = "RSH_INJECT_IRQ failed for irq=".to_owned();
                text::push_dec(&mut out, *irq as u64);
                out
            },
            DeviceRequest::Run => "RSH_RUN failed".to_owned(),
            DeviceRequest::GetRegs => "RSH_GET_REGS failed".to_owned(),
            DeviceRequest::SetRegs { .. } => "RSH_SET_REGS failed".to_owned(),
            DeviceRequest::GetSregs => "RSH_GET_SREGS failed".to_owned(),
            DeviceRequest::SetSregs { .. } => "RSH_SET_SREGS failed".to_owned(),
            DeviceRequest::InjectInterrupt { vector } => {
                let mut out = "RSH_INJECT_INTERRUPT failed for vector=".to_owned();
                text::push_dec(&mut out, *vector as u64);
                out
            },
        }
    }
}

fn u32_argument(value: u32) -> (data: Vec<u8>)
    ensures
        data@ == bytes::le_bytes(value as nat, 4),
{
    let mut data: Vec<u8> = Vec::new();
    bytes::push_u32(&mut data, value);
    assert(data@ =~= bytes::le_bytes(value as nat, 4));
    data
}

fn cleared(len: usize) -> (data: Vec<u8>)
    ensures
        data@ == bytes::zeros(len as nat),
{
    let data = vec![0u8; len];
    assert(data@ =~= bytes::zeros(len as nat));
    data
}

/// The size that a request's number announces is the size of what is handed to the device.
pub proof fn law_request_size(request: DeviceRequest)
    ensures
        (request.spec_number() / 0x1_0000) % 0x4000 == request.payload().len(),
{
    broadcast use bytes::lemma_le_bytes_len;

    ioctl::law_ioc_fields(ioctl::IOC_NONE, ioctl::RSH_IOC_TYPE, 0x00, 0);
    ioctl::law_ioc_fields(ioctl::IOC_NONE, ioctl::RSH_IOC_TYPE, 0x01, 0);
    ioctl::law_ioc_fields(ioctl::IOC_WRITE, ioctl::RSH_IOC_TYPE, 0x41, 4);
    ioctl::law_ioc_fields(ioctl::IOC_WRITE, ioctl::RSH_IOC_TYPE, 0x46, 32);
    ioctl::law_ioc_fields(ioctl::IOC_WRITE, ioctl::RSH_IOC_TYPE, 0x43, 4);
    ioctl::law_ioc_fields(ioctl::IOC_READ, ioctl::RSH_IOC_TYPE, 0x80, 80);
    ioctl::law_ioc_fields(ioctl::IOC_READ, ioctl::RSH_IOC_TYPE, 0x81, 144);
    ioctl::law_ioc_fields(ioctl::IOC_WRITE, ioctl::RSH_IOC_TYPE, 0x82, 144);
    ioctl::law_ioc_fields(ioctl::IOC_READ, ioctl::RSH_IOC_TYPE, 0x83, 304);
    ioctl::law_ioc_fields(ioctl::IOC_WRITE, ioctl::RSH_IOC_TYPE, 0x84, 304);
    ioctl::law_ioc_fields(ioctl::IOC_WRITE, ioctl::RSH_IOC_TYPE, 0x85, 4);
    match request {
        DeviceRequest::SetUserMemoryRegion { region } => {
            region.lemma_layout();
        },
        DeviceRequest::SetRegs { regs } => {
            regs.lemma_layout();
        },
        DeviceRequest::SetSregs { sregs } => {
            sregs.lemma_layout();
        },
        _ => {},
    }
}

/// The guest's physical memory: bytes that are lent to it, and the address that the hypervisor
/// finds them at.
pub struct GuestMemory<'a> {
    /// The bytes.
    pub memory: &'a mut [u8],
    /// Where the host has them.
    pub userspace_addr: u64,
}

impl<'a> GuestMemory<'a> {
    /// The contents.
    pub open spec fn view(&self) -> Seq<u8> {
        (*self.memory)@
    }

    /// Lends `memory`, which the host has at `userspace_addr`, to a guest.
    pub fn new(memory: &'a mut [u8], userspace_addr: u64) -> (guest: Self)
        ensures
            guest@ == old(memory)@,
            final(guest.memory)@ == final(memory)@,
            guest.userspace_addr == userspace_addr,
    {
        GuestMemory { memory, userspace_addr }
    }

    /// The size in bytes.
    pub fn len(&self) -> (len: usize)
        ensures
            len == self@.len(),
    {
        self.memory.len()
    }

    /// Where the host has the memory.
    pub fn userspace_addr(&self) -> (addr: u64)
        ensures
            addr == self.userspace_addr,
    {
        self.userspace_addr
    }

    /// Copies `image` to `guest_addr`. Nothing is written where it does not fit.
    pub fn load(&mut self, guest_addr: usize, image: &[u8]) -> (res: Result<(), VmmError>)
        ensures
            res is Ok <==> guest_addr + image@.len() <= old(self)@.len(),
            res is Err ==> res->Err_0 == VmmError::GuestImageDoesNotFit,
            final(self)@ == (if res is Ok {
                bytes::overlay(old(self)@, guest_addr as int, image@)
            } else {
                old(self)@
            }),
            final(final(self).memory)@ == final(old(self).memory)@,
            final(self).userspace_addr == old(self).userspace_addr,
    {
        let len: usize = self.memory.len();
        if image.len() > len || guest_addr > len - image.len() {
            return Err(VmmError::GuestImageDoesNotFit);
        }
        bytes::copy_into(self.memory, guest_addr, image);
        Ok(())
    }

    /// The contents, for writing.
    pub fn as_mut_slice(&mut self) -> (slice: &mut [u8])
        ensures
            slice@ == old(self)@,
            final(self)@ == final(slice)@,
            final(final(self).memory)@ == final(old(self).memory)@,
            final(self).userspace_addr == old(self).userspace_addr,
    {
        &mut *self.memory
    }

    /// The contents, for reading.
    pub fn as_slice(&self) -> (slice: &[u8])
        ensures
            slice@ == self@,
    {
        &*self.memory
    }
}

} // verus!
