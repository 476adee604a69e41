//! Getting a guest ready: its image in memory, and what to ask of the hypervisor before it runs.
use crate::acpi;
use crate::api::DeviceRequest;
use crate::api::GuestMemory;
use crate::bytes;
use crate::config::VmmConfig;
use crate::error::VmmError;
use crate::ioctl::UserMemoryRegion;
use crate::ioctl::VcpuRegs;
use crate::ioctl::VcpuSregs;
use crate::linux;
use crate::linux::BootModel;
use crate::linux::LinuxBootConfig;
use crate::segments;
use crate::setup_header;
use crate::text;
use vstd::prelude::*;
use vstd::string::*;

verus! {

/// What is to be asked of the hypervisor before a guest runs.
#[derive(Debug)]
pub struct BootPlan {
    /// The guest's memory.
    pub region: UserMemoryRegion,
    /// The special registers of the first vCPU, unless they stay as they are.
    pub sregs: Option<VcpuSregs>,
    /// The general registers of the first vCPU.
    pub regs: VcpuRegs,
    /// How many vCPUs there are.
    pub vcpu_count: u32,
    /// What to say of the image, if anything.
    pub announcement: Option<String>,
}

/// How the first vCPU is started, and where a Linux guest starts.
pub struct Start {
    /// The special registers, unless they stay as they are.
    pub sregs: Option<VcpuSregs>,
    /// The general registers.
    pub regs: VcpuRegs,
    /// The entry point of a Linux guest.
    pub linux_entry: Option<u64>,
}

impl VmmConfig {
    /// What a Linux guest with this configuration and the RAM disk `initrd` is started with.
    pub open spec fn boot_model(&self, initrd: Option<Seq<u8>>) -> BootModel {
        BootModel {
            kernel_load_addr: self.load_addr,
            guest_mem_size: self.guest_mem_size as u64,
            vcpu_count: self.vcpu_count,
            initrd,
            cmdline: text::text_of(self.cmdline),
            stack_pointer: self.stack_pointer,
        }
    }

    /// How the first vCPU of a raw image is started.
    pub open spec fn raw_start(&self) -> Start {
        Start {
            sregs: None,
            regs: VcpuRegs {
                rip: self.entry_point,
                rsp: self.stack_pointer,
                rflags: 0x2,
                ..VcpuRegs::zero()
            },
            linux_entry: None,
        }
    }
}

/// The bytes of an optional slice.
pub open spec fn bytes_of(data: Option<&[u8]>) -> Option<Seq<u8>> {
    match data {
        Some(data) => Some(data@),
        None => None,
    }
}

/// What getting a guest ready leaves in memory, and how it is started: a bzImage is loaded as such,
/// and anything else is copied to where it is asked for.
pub open spec fn boot_outcome(
    memory: Seq<u8>,
    image: Seq<u8>,
    initrd: Option<Seq<u8>>,
    config: &VmmConfig,
) -> (Seq<u8>, Result<Start, VmmError>) {
    if setup_header::setup_header_error(image) is None {
        let (after, res) = linux::load_outcome(memory, image, config.boot_model(initrd));
        (
            after,
            match res {
                Ok(state) => Ok(
                    Start {
                        sregs: Some(state.sregs),
                        regs: state.regs,
                        linux_entry: Some(state.entry_point),
                    },
                ),
                Err(e) => Err(e),
            },
        )
    } else if (config.load_addr as usize) + image.len() <= memory.len() {
        (
            bytes::overlay(memory, (config.load_addr as usize) as int, image),
            Ok(config.raw_start()),
        )
    } else {
        (memory, Err(VmmError::GuestImageDoesNotFit))
    }
}

impl BootPlan {
    /// The plan starts the first vCPU as `start` says, on the memory of `guest`, next to `count - 1`
    /// others.
    pub open spec fn follows(&self, start: Start, guest: &GuestMemory<'_>, count: u32) -> bool {
        &&& self.sregs == start.sregs
        &&& self.regs == start.regs
        &&& self.vcpu_count == count
        &&& self.region == (UserMemoryRegion {
            slot: 0,
            flags: 0,
            guest_phys_addr: 0,
            memory_size: guest@.len() as u64,
            userspace_addr: guest.userspace_addr,
        })
        &&& text::text_of(self.announcement) == (match start.linux_entry {
            Some(entry) => Some(linux::announcement_text(entry)),
            None => None,
        })
    }

    /// How many requests set the first vCPU up.
    pub open spec fn setup_len(&self) -> int {
        if self.sregs is Some {
            4
        } else {
            3
        }
    }

    /// Request `index`, in order: the memory, the first vCPU and its registers, and then the other
    /// vCPUs.
    pub open spec fn spec_request(&self, index: int) -> Option<DeviceRequest> {
        if index == 0 {
            Some(DeviceRequest::SetUserMemoryRegion { region: self.region })
        } else if index == 1 {
            Some(DeviceRequest::CreateVcpu { vcpu_id: 0 })
        } else if index == 2 && self.sregs is Some {
            Some(DeviceRequest::SetSregs { sregs: self.sregs->Some_0 })
        } else if index == self.setup_len() - 1 {
            Some(DeviceRequest::SetRegs { regs: self.regs })
        } else if self.setup_len() <= index < self.setup_len() + self.vcpu_count - 1 {
            Some(DeviceRequest::CreateVcpu { vcpu_id: (index - self.setup_len() + 1) as u32 })
        } else {
            None
        }
    }

    /// Request `index`, in order: the memory, the first vCPU and its registers, and then the other
    /// vCPUs. Behind the last there is none.
    pub fn request(&self, index: u64) -> (request: Option<DeviceRequest>)
        ensures
            request == self.spec_request(index as int),
    {
        let setup: u64 = match self.sregs {
            Some(_) => 4,
            None => 3,
        };
        if index == 0 {
            return Some(DeviceRequest::SetUserMemoryRegion { region: self.region });
        }
        if index == 1 {
            return Some(DeviceRequest::CreateVcpu { vcpu_id: 0 });
        }
        if index == 2 {
            match self.sregs {
                Some(sregs) => {
                    return Some(DeviceRequest::SetSregs { sregs });
                },
                None => {},
            }
        }
        if index == setup - 1 {
            return Some(DeviceRequest::SetRegs { regs: self.regs });
        }
        if index >= setup && index - setup + 1 < self.vcpu_count as u64 {
            return Some(DeviceRequest::CreateVcpu { vcpu_id: (index - setup + 1) as u32 });
        }
        None
    }
}

/// Puts an image into guest memory and says what to ask of the hypervisor.
pub fn prepare_guest(
    guest_memory: &mut GuestMemory<'_>,
    guest_image: &[u8],
    initrd: Option<&[u8]>,
    config: &VmmConfig,
) -> (res: Result<BootPlan, VmmError>)
    ensures
        ({
            let (after, start) = boot_outcome(
                old(guest_memory)@,
                guest_image@,
                bytes_of(initrd),
                config,
            );
            &&& final(guest_memory)@ == after
            &&& match start {
                Ok(start) => res is Ok && res->Ok_0.follows(
                    start,
                    final(guest_memory),
                    config.vcpu_count,
                ),
                Err(e) => res == Err::<BootPlan, VmmError>(e),
            }
        }),
        final(final(guest_memory).memory)@ == final(old(guest_memory).memory)@,
        final(guest_memory).userspace_addr == old(guest_memory).userspace_addr,
        final(guest_memory)@.len() == old(guest_memory)@.len(),
{
    let mut sregs: Option<VcpuSregs> = None;
    let mut regs = VcpuRegs {
        rip: config.entry_point,
        rsp: config.stack_pointer,
        rflags: 0x2,
        ..VcpuRegs::default()
    };
    let mut announcement: Option<String> = None;
    if linux::looks_like_bzimage(guest_image) {
        let boot = LinuxBootConfig {
            kernel_load_addr: config.load_addr,
            guest_mem_size: config.guest_mem_size as u64,
            vcpu_count: config.vcpu_count,
            initrd,
            cmdline: match &config.cmdline {
                Some(cmdline) => Some(cmdline.as_str()),
                None => None,
            },
            stack_pointer: config.stack_pointer,
        };
        assert(boot@ == config.boot_model(bytes_of(initrd)));
        match linux::load_bzimage(guest_memory.as_mut_slice(), guest_image, &boot) {
            Ok(state) => {
                sregs = Some(state.sregs);
                regs = state.regs;
                announcement = Some(state.announcement());
            },
            Err(e) => {
                return Err(e);
            },
        }
    } else {
        match guest_memory.load(config.load_addr as usize, guest_image) {
            Ok(()) => {},
            Err(e) => {
                return Err(e);
            },
        }
    }
    let region = UserMemoryRegion {
        slot: 0,
        flags: 0,
        guest_phys_addr: 0,
        memory_size: guest_memory.len() as u64,
        userspace_addr: guest_memory.userspace_addr(),
    };
    Ok(BootPlan { region, sregs, regs, vcpu_count: config.vcpu_count, announcement })
}

impl BootPlan {
    /// Where in the order vCPU `id` is created.
    pub open spec fn creation_of(&self, id: u32) -> int {
        if id == 0 {
            1
        } else {
            self.setup_len() + id - 1
        }
    }
}

/// vCPU 0 is created first, and set up before any other is created; the others follow in order, and
/// each is created exactly once. There are no more requests than these.
pub proof fn law_each_vcpu_is_created_once(plan: BootPlan, id: u32, index: int)
    requires
        plan.vcpu_count >= 1,
    ensures
        id < plan.vcpu_count ==> plan.spec_request(plan.creation_of(id)) == Some(
            DeviceRequest::CreateVcpu { vcpu_id: id },
        ),
        plan.spec_request(index) == Some(DeviceRequest::CreateVcpu { vcpu_id: id }) ==> id
            < plan.vcpu_count && index == plan.creation_of(id),
        plan.spec_request(index) is Some <==> 0 <= index < plan.setup_len() + plan.vcpu_count - 1,
        plan.spec_request(plan.setup_len() - 1) == Some(
            DeviceRequest::SetRegs { regs: plan.regs },
        ),
{
}

/// A Linux guest is started in the protected-mode state that belongs to its descriptor table, with its
/// boot parameters in reach: the special registers are set first, and then the general ones.
pub proof fn law_linux_entry_state_is_set(
    memory: Seq<u8>,
    image: Seq<u8>,
    initrd: Option<Seq<u8>>,
    config: &VmmConfig,
    plan: BootPlan,
    guest: &GuestMemory<'_>,
)
    requires
        setup_header::setup_header_error(image) is None,
        boot_outcome(memory, image, initrd, config).1 is Ok,
        plan.follows(
            boot_outcome(memory, image, initrd, config).1->Ok_0,
            guest,
            config.vcpu_count,
        ),
    ensures
        plan.spec_request(2) == Some(DeviceRequest::SetSregs { sregs: segments::boot_sregs() }),
        plan.spec_request(3) == Some(
            DeviceRequest::SetRegs { regs: config.boot_model(initrd).boot_state().regs },
        ),
        plan.regs.rsi == linux::ZERO_PAGE_GPA,
{
}

/// A Linux guest that was got ready finds one enabled entry for each vCPU that is created, in order.
pub proof fn law_created_vcpus_are_advertised(
    memory: Seq<u8>,
    image: Seq<u8>,
    initrd: Option<Seq<u8>>,
    config: &VmmConfig,
    plan: BootPlan,
    guest: &GuestMemory<'_>,
    id: u32,
)
    requires
        setup_header::setup_header_error(image) is None,
        boot_outcome(memory, image, initrd, config).1 is Ok,
        plan.follows(
            boot_outcome(memory, image, initrd, config).1->Ok_0,
            guest,
            config.vcpu_count,
        ),
        id < config.vcpu_count,
    ensures
        ({
            let at = acpi::ACPI_MADT_GPA + 44 + 8 * id;
            &&& boot_outcome(memory, image, initrd, config).0.subrange(at, at + 8)
                == acpi::local_apic_entry(id as int)
            &&& plan.spec_request(plan.creation_of(id)) == Some(
                DeviceRequest::CreateVcpu { vcpu_id: id },
            )
        }),
{
    let model = config.boot_model(initrd);
    let after = linux::load_outcome(memory, image, model).0;
    linux::law_loaded_tables_stand(memory, image, model, 0);
    acpi::law_madt_advertises_each_vcpu(config.vcpu_count);
    law_each_vcpu_is_created_once(plan, id, 0);
    let at = acpi::ACPI_MADT_GPA + 44 + 8 * id;
    assert(after.subrange(at, at + 8) =~= acpi::madt(config.vcpu_count).subrange(
        44 + 8 * id,
        52 + 8 * id,
    ));
}

} // verus!
