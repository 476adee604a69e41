//! What operations return and leave behind, told of the operations themselves.
use crate::api::DeviceRequest;
use crate::api::GuestMemory;
use crate::boot;
use crate::boot::BootPlan;
use crate::config;
use crate::config::VmmConfig;
use crate::error::VmmError;
use crate::ioctl::RunState;
use crate::ioctl::VcpuRegs;
use crate::ioctl::VcpuSregs;
use crate::laws::loading;
use crate::linux;
use crate::linux::LinuxBootConfig;
use crate::linux::LinuxBootState;
use crate::paging;
use crate::setup_header;
use crate::setup_header::SetupHeader;
use crate::text;
use crate::uart::Uart16550;
use crate::vmm::Action;
use crate::vmm::Event;
use crate::vmm::Step;
use crate::vmm::Vmm;
use vstd::prelude::*;
use vstd::string::*;

verus! {

/// A place that is found for an initrd is a page boundary at or above one megabyte, the initrd ends within guest
/// memory and within the kernel's limit, both rounded down to a page, and no higher page boundary would do. None
/// is found only where none is there.
pub proof fn law_initrd_is_placed_as_high_as_possible(
    guest_mem_size: u64,
    header: &SetupHeader,
    len: u64,
    res: Result<u64, VmmError>,
    other: int,
)
    requires
        call_ensures(linux::place_initrd, (guest_mem_size, header, len), res),
    ensures
        ({
            let limit = header.initrd_addr_max + 1;
            let fits = |from: int|
                from % 0x1000 == 0 && from >= 0x10_0000 && from + len <= guest_mem_size
                    - guest_mem_size % 0x1000 && (header.initrd_addr_max != 0 ==> from + len <= limit
                    - limit % 0x1000);
            &&& res matches Ok(start) ==> fits(start as int) && (fits(other) ==> other <= start)
            &&& res matches Err(e) ==> e == VmmError::InitrdDoesNotFit && !fits(other)
        }),
{
}

/// What is written to register 0 of the serial port right after register 3 goes out exactly where the top bit of
/// what was written to register 3 is clear. Where it is set, the byte is read back from register 0, and nothing
/// that was received is taken.
pub proof fn law_line_control_decides_where_data_goes(
    first: &mut Uart16550,
    second: &mut Uart16550,
    third: &mut Uart16550,
    control: u8,
    data: u8,
    sent: (Option<u8>, Option<u8>),
    read: u8,
)
    requires
        call_ensures(Uart16550::write, (first, 3u8, control), sent.0),
        *second == *final(first),
        call_ensures(Uart16550::write, (second, 0u8, data), sent.1),
        *third == *final(second),
        call_ensures(Uart16550::read, (third, 0u8), read),
    ensures
        sent.0 is None,
        control < 0x80 ==> sent.1 == Some(data),
        control >= 0x80 ==> sent.1 is None && read == data && final(third)@ == old(third)@,
{
}

/// A byte that the serial port receives while nothing waits is the next that is read from register 0 while the
/// top bit of register 3 is clear, and then nothing waits again.
pub proof fn law_received_byte_is_read(
    first: &mut Uart16550,
    second: &mut Uart16550,
    third: &mut Uart16550,
    byte: u8,
    read: (u8, u8),
)
    requires
        old(first)@.rx.len() == 0,
        old(first)@.lcr < 0x80,
        call_ensures(Uart16550::receive_byte, (first, byte), ()),
        *second == *final(first),
        call_ensures(Uart16550::read, (second, 0u8), read.0),
        *third == *final(second),
        call_ensures(Uart16550::read, (third, 5u8), read.1),
    ensures
        read.0 == byte,
        read.1 == 0x60,
        final(third)@.rx.len() == 0,
{
}

/// From a port I/O exit to the registers that are written for it: the instruction pointer is moved behind the
/// instruction in all 64 bits, wherever the guest was, and the upper bytes of the accumulator are kept.
pub proof fn law_port_io_moves_the_guest_on(
    first: &mut Vmm,
    second: &mut Vmm,
    third: &mut Vmm,
    run_state: RunState,
    regs: VcpuRegs,
    steps: (Step, Step, Step),
)
    requires
        old(first)@.phase is Running,
        run_state.exit_reason == 30,
        call_ensures(Vmm::run, (first, Event::Exited { run_state }), steps.0),
        steps.0.action is ReadRegs,
        *second == *final(first),
        call_ensures(Vmm::run, (second, Event::Regs { regs }), steps.1),
        *third == *final(second),
        steps.1.action is Transmit ==> call_ensures(Vmm::run, (third, Event::Done), steps.2),
    ensures
        ({
            let action = if steps.1.action is Transmit {
                steps.2.action
            } else {
                steps.1.action
            };
            let sum = run_state.guest_rip + run_state.instruction_len;
            action matches Action::WriteRegs { regs: after } && after.rip == (
            if run_state.instruction_len == 0 {
                regs.rip as int
            } else if sum < 0x1_0000_0000_0000_0000 {
                sum
            } else {
                sum - 0x1_0000_0000_0000_0000
            }) && after.rax / 256 == regs.rax / 256 && after.rsp == regs.rsp && after.rflags
                == regs.rflags
        }),
{
}

/// A guest image that is no bzImage is copied to its load address if it fits there; its first vCPU is then given
/// the entry point and the stack that were asked for, in all 64 bits.
pub proof fn law_raw_guest_is_got_ready(
    guest: &mut GuestMemory<'_>,
    image: &[u8],
    initrd: Option<&[u8]>,
    config: &VmmConfig,
    res: Result<BootPlan, VmmError>,
    request: Option<DeviceRequest>,
    i: int,
)
    requires
        call_ensures(linux::looks_like_bzimage, (image,), false),
        call_ensures(boot::prepare_guest, (guest, image, initrd, config), res),
        res matches Ok(plan) ==> call_ensures(BootPlan::request, (&plan, 2u64), request),
        0 <= i < old(guest)@.len(),
    ensures
        ({
            let at = (config.load_addr as usize) as int;
            &&& res is Ok <==> at + image@.len() <= old(guest)@.len()
            &&& res is Ok ==> (request matches Some(DeviceRequest::SetRegs { regs }) && regs.rip
                == config.entry_point && regs.rsp == config.stack_pointer && regs.rflags == 2)
            &&& final(guest)@[i] == (if res is Ok && at <= i < at + image@.len() {
                image@[i - at]
            } else {
                old(guest)@[i]
            })
        }),
{
}

/// A loaded Linux kernel is the image from behind its boot sector and its setup sectors on, which byte 0x1f1
/// counts, with four for zero: each byte of it stands where the kernel was asked for, or at one megabyte, unless
/// other boot data lie there. The first vCPU starts at the low 32 bits of that address.
pub proof fn law_linux_kernel_is_loaded(
    memory: &mut [u8],
    image: &[u8],
    config: &LinuxBootConfig<'_>,
    state: LinuxBootState,
    header: SetupHeader,
    place: u64,
    i: int,
)
    requires
        call_ensures(
            linux::load_bzimage,
            (memory, image, config),
            Ok::<LinuxBootState, VmmError>(state),
        ),
        call_ensures(
            setup_header::parse_setup_header,
            (image,),
            Ok::<SetupHeader, VmmError>(header),
        ),
        config.initrd matches Some(initrd) ==> call_ensures(
            linux::place_initrd,
            (config.guest_mem_size, &header, initrd@.len() as u64),
            Ok::<u64, VmmError>(place),
        ),
        ({
            let sectors = if image@[0x1f1] == 0 {
                4
            } else {
                image@[0x1f1] as int
            };
            let cmdline = match config.cmdline {
                Some(cmdline) => cmdline@,
                None => "console=ttyS0 earlycon=uart8250,io,0x3f8 nokaslr"@,
            };
            let at = (if config.kernel_load_addr == 0 {
                0x10_0000
            } else {
                (config.kernel_load_addr as usize) as int
            }) + i;
            &&& 0 <= i < image@.len() - (sectors + 1) * 512
            &&& !(0x5000 <= at < 0x5028)
            &&& !(0x1_0000 <= at < 0x1_1000)
            &&& !(0x2_0000 <= at < 0x2_0000 + vstd::utf8::encode_utf8(cmdline).len() + 1)
            &&& !(0xf_0000 <= at < 0xf_0024)
            &&& !(0xf_1000 <= at < 0xf_102c)
            &&& !(0xf_2000 <= at < 0xf_20f4)
            &&& !(0xf_3000 <= at < 0xf_3038 + 8 * config.vcpu_count)
            &&& config.initrd matches Some(initrd) ==> !(place as usize <= at < (place as usize)
                + initrd@.len())
        }),
    ensures
        ({
            let sectors = if image@[0x1f1] == 0 {
                4
            } else {
                image@[0x1f1] as int
            };
            let at = (if config.kernel_load_addr == 0 {
                0x10_0000
            } else {
                (config.kernel_load_addr as usize) as int
            }) + i;
            &&& at < final(memory)@.len()
            &&& final(memory)@[at] == image@[(sectors + 1) * 512 + i]
            &&& state.regs.rip == (if config.kernel_load_addr == 0 {
                0x10_0000
            } else {
                config.kernel_load_addr as int
            }) % 0x1_0000_0000
        }),
{
    loading::law_kernel_is_the_image_behind_its_setup_sectors(old(memory)@, image@, config@, i);
    loading::law_entry_registers(old(memory)@, image@, config@);
}

/// A bzImage that ends with its setup sectors or before is refused, and no other is for that reason.
pub proof fn law_image_without_a_kernel_is_refused(
    memory: &mut [u8],
    image: &[u8],
    config: &LinuxBootConfig<'_>,
    res: Result<LinuxBootState, VmmError>,
)
    requires
        call_ensures(linux::looks_like_bzimage, (image,), true),
        call_ensures(linux::load_bzimage, (memory, image, config), res),
    ensures
        ({
            let sectors = if image@[0x1f1] == 0 {
                4
            } else {
                image@[0x1f1] as int
            };
            res == Err::<LinuxBootState, VmmError>(VmmError::SetupExceedsImage) <==> image@.len() <= (
            sectors + 1) * 512
        }),
{
    loading::law_image_must_reach_behind_its_setup_sectors(old(memory)@, image@, config@);
}

/// While bit 31 of `cr0` is clear, a guest address is its own physical address.
pub proof fn law_flat_addresses_stay(
    memory: &[u8],
    sregs: &VcpuSregs,
    gva: u64,
    res: Result<u64, VmmError>,
)
    requires
        call_ensures(paging::translate_guest_addr, (memory, sregs, gva), res),
        (sregs.cr0 as int / 0x8000_0000) % 2 == 0,
    ensures
        res == Ok::<u64, VmmError>(gva),
{
}

/// A number is read back from what is written of it, in decimal and in hexadecimal.
pub proof fn law_written_numbers_are_read(value: &str, n: u64, res: Result<u64, VmmError>)
    requires
        call_ensures(config::parse_u64, (value,), res),
        value@ == text::digits(n as nat, 10) || value@ == seq!['0', 'x'] + text::digits(
            n as nat,
            16,
        ),
    ensures
        res == Ok::<u64, VmmError>(n),
{
    config::law_number_round_trip(n);
    reveal_strlit("0x");
    assert(seq!['0', 'x'] + text::digits(n as nat, 16) =~= text::hex_text(n as nat));
}

} // verus!
