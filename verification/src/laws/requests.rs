//! What is asked of the device, and what an exit says.
use crate::api::DeviceRequest;
use crate::bytes;
use crate::ioctl;
use crate::ioctl::AbiSized;
use crate::ioctl::DirtyLog;
use crate::ioctl::RunState;
use crate::ioctl::UserMemoryRegion;
use crate::ioctl::VcpuRegs;
use crate::ioctl::VcpuSregs;
use crate::text;
use vstd::prelude::*;
use vstd::string::*;

verus! {

/// What a port I/O exit is about: each detail counts where it is given, and the qualification otherwise. Its low
/// three bits hold the width less one, bits 3, 4 and 5 tell of input, string and repeat, and the upper half of
/// its low word holds the port.
pub proof fn law_exit_details(run_state: RunState)
    ensures
        ({
            let q = run_state.exit_qualification as int;
            &&& run_state.io.port != 0 ==> run_state.port() == run_state.io.port
            &&& run_state.io.port == 0 ==> run_state.port() == (q / 0x1_0000) % 0x1_0000
            &&& run_state.io.size != 0 ==> run_state.width() == run_state.io.size
            &&& run_state.io.size == 0 ==> run_state.width() == q % 8 + 1
            &&& run_state.io.is_in != 0 ==> run_state.is_in()
            &&& run_state.io.is_in == 0 ==> (run_state.is_in() <==> (q % 16) / 8 == 1)
            &&& run_state.io.is_string != 0 ==> run_state.is_string()
            &&& run_state.io.is_string == 0 ==> (run_state.is_string() <==> (q % 32) / 16 == 1)
            &&& run_state.io.is_repeat != 0 ==> run_state.is_repeat()
            &&& run_state.io.is_repeat == 0 ==> (run_state.is_repeat() <==> (q % 64) / 32 == 1)
        }),
{
}

/// The names of exit reasons.
pub proof fn law_exit_reason_names(reason: u32)
    ensures
        ioctl::exit_reason_text(2) == "TRIPLE_FAULT"@,
        ioctl::exit_reason_text(12) == "HLT"@,
        ioctl::exit_reason_text(30) == "IO_INSTRUCTION"@,
        ioctl::exit_reason_text(40) == "PAUSE_INSTRUCTION"@,
        reason != 2 && reason != 12 && reason != 30 && reason != 40 ==> ioctl::exit_reason_text(
            reason,
        ) == "unhandled VM exit reason"@,
{
}

/// The sizes of what requests carry.
pub proof fn law_carried_sizes()
    ensures
        u32::abi_size() == 4,
        i32::abi_size() == 4,
        DirtyLog::abi_size() == 16,
        UserMemoryRegion::abi_size() == 32,
        RunState::abi_size() == 80,
        VcpuRegs::abi_size() == 144,
        VcpuSregs::abi_size() == 304,
{
}

/// The number of each request, and what is handed over with it: a number in four bytes, a structure as it lies
/// in memory, or room for the answer.
pub proof fn law_requests(request: DeviceRequest)
    ensures
        request is ApiVersion ==> request.spec_number() == 0x4800 && request.payload().len() == 0,
        request is CreateVm ==> request.spec_number() == 0x4801 && request.payload().len() == 0,
        request matches DeviceRequest::CreateVcpu { vcpu_id } ==> request.spec_number()
            == 0x4004_4841 && request.payload() == bytes::le_bytes(vcpu_id as nat, 4),
        request matches DeviceRequest::SetUserMemoryRegion { region } ==> request.spec_number()
            == 0x4020_4846 && request.payload() == region.layout(),
        request matches DeviceRequest::InjectIrq { irq } ==> request.spec_number() == 0x4004_4843
            && request.payload() == bytes::le_bytes(irq as nat, 4),
        request is Run ==> request.spec_number() == 0x8050_4880 && request.payload().len() == 80,
        request is GetRegs ==> request.spec_number() == 0x8090_4881 && request.payload().len()
            == 144,
        request matches DeviceRequest::SetRegs { regs } ==> request.spec_number() == 0x4090_4882
            && request.payload() == regs.layout(),
        request is GetSregs ==> request.spec_number() == 0x8130_4883 && request.payload().len()
            == 304,
        request matches DeviceRequest::SetSregs { sregs } ==> request.spec_number() == 0x4130_4884
            && request.payload() == sregs.layout(),
        request matches DeviceRequest::InjectInterrupt { vector } ==> request.spec_number()
            == 0x4004_4885 && request.payload() == bytes::le_bytes(vector as nat, 4),
        request is Run || request is GetRegs || request is GetSregs ==> forall|i: int|
            0 <= i < request.payload().len() ==> request.payload()[i] == 0,
{
    ioctl::law_ioc_fields(ioctl::IOC_NONE, ioctl::RSH_IOC_TYPE, 0x00, 0);
    ioctl::law_ioc_fields(ioctl::IOC_NONE, ioctl::RSH_IOC_TYPE, 0x01, 0);
    ioctl::law_ioc_fields(ioctl::IOC_WRITE, ioctl::RSH_IOC_TYPE, 0x41, 4);
    ioctl::law_ioc_fields(ioctl::IOC_WRITE, ioctl::RSH_IOC_TYPE, 0x46, 32);
    ioctl::law_ioc_fields(ioctl::IOC_WRITE, ioctl::RSH_IOC_TYPE, 0x43, 4);
    ioctl::law_ioc_fields(ioctl::IOC_READ, ioctl::RSH_IOC_TYPE, 0x80, 80);
    ioctl::law_ioc_fields(ioctl::IOC_READ, ioctl::RSH_IOC_TYPE, 0x81, 144);
    ioctl::law_ioc_fields(ioctl::IOC_WRITE, ioctl::RSH_IOC_TYPE, 0x82, 144);
    ioctl::law_ioc_fields(ioctl::IOC_READ, ioctl::RSH_IOC_TYPE, 0x83, 304);
    ioctl::law_ioc_fields(ioctl::IOC_WRITE, ioctl::RSH_IOC_TYPE, 0x84, 304);
    ioctl::law_ioc_fields(ioctl::IOC_WRITE, ioctl::RSH_IOC_TYPE, 0x85, 4);
}

/// What is said of a request that failed names the request and what it was about.
pub proof fn law_request_failures(request: DeviceRequest)
    ensures
        request is ApiVersion ==> request.failure_text() == "RSH_GET_API_VERSION failed"@,
        request is CreateVm ==> request.failure_text() == "RSH_CREATE_VM failed"@,
        request matches DeviceRequest::CreateVcpu { vcpu_id } ==> request.failure_text()
            == "RSH_CREATE_VCPU failed for vcpu_id="@ + text::dec_text(vcpu_id as nat),
        request matches DeviceRequest::InjectIrq { irq } ==> request.failure_text()
            == "RSH_INJECT_IRQ failed for irq="@ + text::dec_text(irq as nat),
        request is Run ==> request.failure_text() == "RSH_RUN failed"@,
        request is GetRegs ==> request.failure_text() == "RSH_GET_REGS failed"@,
        request is SetRegs ==> request.failure_text() == "RSH_SET_REGS failed"@,
        request is GetSregs ==> request.failure_text() == "RSH_GET_SREGS failed"@,
        request is SetSregs ==> request.failure_text() == "RSH_SET_SREGS failed"@,
        request matches DeviceRequest::InjectInterrupt { vector } ==> request.failure_text()
            == "RSH_INJECT_INTERRUPT failed for vector="@ + text::dec_text(vector as nat),
        request matches DeviceRequest::SetUserMemoryRegion { region } ==> request.failure_text()
            == "RSH_SET_USER_MEMORY_REGION failed for slot="@ + text::dec_text(region.slot as nat)
            + " gpa="@ + text::hex_text(region.guest_phys_addr as nat) + " size="@
            + text::hex_text(region.memory_size as nat) + " hva="@ + text::hex_text(
            region.userspace_addr as nat,
        ),
{
}

} // verus!
