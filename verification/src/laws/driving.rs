//! Driving a guest: what each event leads to.
use crate::config::TraceSettings;
use crate::diagnostics;
use crate::error::VmmError;
use crate::ioctl::RunState;
use crate::ioctl::VcpuRegs;
use crate::text;
use crate::uart;
use crate::uart::UartState;
use crate::vmm::Action;
use crate::vmm::Event;
use crate::vmm::Phase;
use crate::vmm::Report;
use crate::vmm::Stream;
use crate::vmm::VmmState;
use vstd::prelude::*;
use vstd::string::*;

verus! {

/// The registers that are written after a port I/O exit: the instruction pointer is behind the instruction,
/// counted in 64 bits, and stays where the length is not known; of the others only the low byte of the
/// accumulator changes, and that only on a read, to what was read. A port other than 0x3f8 to 0x3ff reads
/// zero.
pub proof fn law_registers_after_port_io(s: VmmState, event: Event)
    requires
        s.accepts(event),
        s.next(event).2 is WriteRegs,
    ensures
        ({
            let after = s.next(event).2->regs;
            let before = match event {
                Event::Regs { regs } => regs,
                _ => s.phase->Transmitting_regs,
            };
            let run_state = match event {
                Event::Regs { .. } => s.phase->ReadingRegs_run_state,
                _ => s.phase->Transmitting_run_state,
            };
            let sum = run_state.guest_rip + run_state.instruction_len;
            let port = run_state.port();
            &&& event is Regs && s.phase is ReadingRegs || event is Done && s.phase is Transmitting
            &&& run_state.instruction_len == 0 ==> after.rip == before.rip
            &&& run_state.instruction_len != 0 && sum < 0x1_0000_0000_0000_0000 ==> after.rip == sum
            &&& run_state.instruction_len != 0 && sum >= 0x1_0000_0000_0000_0000 ==> after.rip
                == sum - 0x1_0000_0000_0000_0000
            &&& after.rbx == before.rbx && after.rcx == before.rcx && after.rdx == before.rdx
            &&& after.rsi == before.rsi && after.rdi == before.rdi && after.rbp == before.rbp
            &&& after.rsp == before.rsp && after.r8 == before.r8 && after.r9 == before.r9
            &&& after.r10 == before.r10 && after.r11 == before.r11 && after.r12 == before.r12
            &&& after.r13 == before.r13 && after.r14 == before.r14 && after.r15 == before.r15
            &&& after.rflags == before.rflags
            &&& after.rax / 256 == before.rax / 256
            &&& s.phase is Transmitting ==> after.rax == before.rax
            &&& s.phase is ReadingRegs && !run_state.is_in() ==> after.rax == before.rax
            &&& s.phase is ReadingRegs && run_state.is_in() ==> after.rax % 256 == (if 0x3f8 <= port
                <= 0x3ff {
                s.uart.read_value((port - 0x3f8) as u8) as int
            } else {
                0
            })
        }),
{
}

/// A port I/O exit is remembered, with the registers that are then read, until its registers are written.
pub proof fn law_port_io_is_remembered(s: VmmState, run_state: RunState, regs: VcpuRegs)
    requires
        s.phase is Running,
        run_state.exit_reason == 30,
        s.next(Event::Exited { run_state }).2 is ReadRegs,
    ensures
        ({
            let asked = s.next(Event::Exited { run_state }).0;
            let answered = asked.next(Event::Regs { regs }).0;
            &&& asked == (VmmState { phase: Phase::ReadingRegs { run_state }, ..s })
            &&& answered.phase is WritingRegs || (answered.phase is Transmitting
                && answered.phase->Transmitting_run_state == run_state
                && answered.phase->Transmitting_regs == regs)
        }),
{
}

/// A port I/O access reaches the UART register that its port counts from 0x3f8; one to any other port leaves
/// the UART alone. A written value is the low byte of the accumulator, and where it is to be sent it goes out
/// before anything else happens.
pub proof fn law_port_io_reaches_the_uart(s: VmmState, run_state: RunState, regs: VcpuRegs)
    requires
        s.phase == (Phase::ReadingRegs { run_state }),
    ensures
        ({
            let (next, told, action) = s.next(Event::Regs { regs });
            let port = run_state.port();
            let offset = (port - 0x3f8) as u8;
            let value = (regs.rax % 256) as u8;
            &&& !(0x3f8 <= port <= 0x3ff) ==> next == (VmmState { phase: Phase::WritingRegs, ..s })
                && told is None && action is WriteRegs
            &&& 0x3f8 <= port <= 0x3ff && run_state.is_in() ==> next.uart == s.uart.after_read(
                offset,
            ) && action is WriteRegs
            &&& 0x3f8 <= port <= 0x3ff && !run_state.is_in() ==> next.uart == s.uart.after_write(
                offset,
                value,
            )
            &&& 0x3f8 <= port <= 0x3ff && !run_state.is_in() && port == 0x3f8 && s.uart.lcr < 0x80
                ==> action == (Action::Transmit { byte: value })
            &&& 0x3f8 <= port <= 0x3ff && !run_state.is_in() && !(port == 0x3f8 && s.uart.lcr
                < 0x80) ==> action is WriteRegs
        }),
{
}

/// Once a byte is out, the UART knows, and the registers are written.
pub proof fn law_transmitted(s: VmmState)
    requires
        s.phase is Transmitting,
    ensures
        s.next(Event::Done).0.uart == s.uart.after_transmit(),
        s.next(Event::Done).2 is WriteRegs,
        s.next(Event::Done).0.phase is WritingRegs,
{
}

/// What a port I/O exit leads to: string and repeated accesses, and wide ones to the UART, stop the guest
/// without a report; an access to a port where nothing is is told with the guest's output.
pub proof fn law_port_io_exits(s: VmmState, run_state: RunState)
    requires
        s.phase is Running,
        run_state.exit_reason == 30,
    ensures
        ({
            let (next, told, action) = s.next(Event::Exited { run_state });
            let port = run_state.port();
            &&& run_state.is_string() || run_state.is_repeat() ==> action == (Action::Stop {
                error: VmmError::StringIo,
                report: Report::Nothing,
            }) && told is None
            &&& !run_state.is_string() && !run_state.is_repeat() && 0x3f8 <= port <= 0x3ff
                && run_state.width() != 1 ==> action == (Action::Stop {
                error: VmmError::UartAccessWidth { width: run_state.width() },
                report: Report::Nothing,
            }) && told is None
            &&& !run_state.is_string() && !run_state.is_repeat() && 0x3f8 <= port <= 0x3ff
                && run_state.width() == 1 ==> action is ReadRegs && told is None
            &&& !run_state.is_string() && !run_state.is_repeat() && !(0x3f8 <= port <= 0x3ff)
                ==> action is ReadRegs && told == Some(
                (
                    Stream::Stdout,
                    "rustshyper-vmm: Guest access to unmapped I/O port at "@ + text::hex_text(
                        port as nat,
                    ),
                ),
            )
            &&& action is Stop ==> next == (VmmState { phase: Phase::Stopped, ..s })
            &&& action is ReadRegs ==> next == (VmmState {
                phase: Phase::ReadingRegs { run_state },
                ..s
            })
        }),
{
}

/// What every other exit leads to: a time slice that ended or a pause goes on at once, a halt after a rest,
/// and anything else stops the guest and is told in full.
pub proof fn law_other_exits(s: VmmState, run_state: RunState)
    requires
        s.phase is Running,
        run_state.exit_reason != 30,
    ensures
        ({
            let (next, told, action) = s.next(Event::Exited { run_state });
            let reason = run_state.exit_reason;
            &&& reason == 52 || reason == 40 ==> action is Poll
            &&& reason == 12 ==> action is Rest
            &&& reason != 52 && reason != 40 && reason != 12 ==> action == (Action::Stop {
                error: VmmError::UnhandledExit { reason, rip: run_state.guest_rip },
                report: Report::Exit { run_state },
            }) && told == Some((Stream::Stderr, diagnostics::returned_text(run_state)))
            &&& reason != 52 && reason != 40 && reason != 12 ==> next == (VmmState {
                phase: Phase::Stopped,
                ..s
            })
        }),
{
}

/// An exit that only passes the time is counted with those of its sort, starting over after 64 bits, and
/// changes nothing else.
pub proof fn law_counted_exits(s: VmmState, run_state: RunState)
    requires
        s.phase is Running,
    ensures
        ({
            let next = s.next(Event::Exited { run_state }).0;
            let one_more = |n: u64|
                (if n == 0xffff_ffff_ffff_ffff {
                    0
                } else {
                    n + 1
                }) as u64;
            &&& run_state.exit_reason == 52 ==> next == (VmmState {
                preemption_count: one_more(s.preemption_count),
                phase: Phase::Polling,
                ..s
            })
            &&& run_state.exit_reason == 40 ==> next == (VmmState {
                pause_count: one_more(s.pause_count),
                phase: Phase::Polling,
                ..s
            })
            &&& run_state.exit_reason == 12 ==> next == (VmmState {
                hlt_count: one_more(s.hlt_count),
                phase: Phase::Resting,
                ..s
            })
        }),
{
}

/// Where such exits are traced, each of the first 64 of a sort is told, and then each whose number is a
/// multiple of 1024; otherwise none is. The line gives the sort, the number, and where the guest was.
pub proof fn law_traced_exits(s: VmmState, run_state: RunState, m: int)
    requires
        s.phase is Running,
        run_state.exit_reason == 52 || run_state.exit_reason == 40 || run_state.exit_reason == 12,
    ensures
        ({
            let told = s.next(Event::Exited { run_state }).1;
            let before = if run_state.exit_reason == 52 {
                s.preemption_count
            } else if run_state.exit_reason == 40 {
                s.pause_count
            } else {
                s.hlt_count
            };
            let name = if run_state.exit_reason == 52 {
                "PREEMPTION_TIMER"@
            } else if run_state.exit_reason == 40 {
                "PAUSE"@
            } else {
                "HLT"@
            };
            let count = if before == u64::MAX {
                0
            } else {
                before + 1
            };
            &&& !s.trace.trace_timers ==> told is None
            &&& s.trace.trace_timers && (count <= 64 || count == 1024 * m) ==> told == Some(
                (
                    Stream::Stderr,
                    "rustshyper-vmm: "@ + name + " exit count="@ + text::dec_text(count as nat)
                        + " rip="@ + text::hex_text(run_state.guest_rip as nat) + " len="@
                        + text::dec_text(run_state.instruction_len as nat) + " qual="@
                        + text::hex_text(run_state.exit_qualification as nat),
                ),
            )
            &&& count > 64 && 1024 * m < count < 1024 * m + 1024 ==> told is None
        }),
{
}

/// Where UART accesses are traced, each is counted. It is told inside the window asked for, and outside it
/// among the first 512 and at every multiple of 1024.
pub proof fn law_traced_uart_accesses(
    s: VmmState,
    direction: Seq<char>,
    offset: u8,
    value: u8,
    m: int,
)
    ensures
        ({
            let (next, told) = s.uart_traced(direction, offset, value);
            let count = if s.uart_trace_count == u64::MAX {
                0
            } else {
                s.uart_trace_count + 1
            };
            let first = s.trace.uart_trace_start;
            let in_window = first <= count && (s.trace.uart_trace_end matches Some(last) ==> count
                <= last);
            &&& !s.trace.trace_uart ==> next == s && told is None
            &&& s.trace.trace_uart ==> next == (VmmState {
                uart_trace_count: count as u64,
                ..s
            })
            &&& s.trace.trace_uart && (in_window || count <= 512 || count == 1024 * m) ==> told
                == Some(
                (
                    Stream::Stderr,
                    "rustshyper-vmm: uart "@ + direction + "#"@ + text::dec_text(count as nat)
                        + " off="@ + text::hex_text(offset as nat) + " value="@ + text::hex_text(
                        value as nat,
                    ) + " irq_pending="@ + (if s.uart.read_value(2) != 1 {
                        "true"@
                    } else {
                        "false"@
                    }),
                ),
            )
            &&& !in_window && count > 512 && 1024 * m < count < 1024 * m + 1024 ==> told is None
        }),
{
}

/// A UART access is traced with its direction, its register and its value, once it is done. Nothing but the
/// UART and the number of accesses changes.
pub proof fn law_uart_accesses_are_traced(s: VmmState, run_state: RunState, regs: VcpuRegs)
    requires
        s.phase == (Phase::ReadingRegs { run_state }),
        0x3f8 <= run_state.port() <= 0x3ff,
    ensures
        ({
            let (next, told, action) = s.next(Event::Regs { regs });
            let offset = (run_state.port() - 0x3f8) as u8;
            let value = (regs.rax % 256) as u8;
            let read = VmmState { uart: s.uart.after_read(offset), ..s }.uart_traced(
                "in"@,
                offset,
                s.uart.read_value(offset),
            );
            let wrote = VmmState { uart: s.uart.after_write(offset, value), ..s }.uart_traced(
                "out"@,
                offset,
                value,
            );
            let sent = VmmState {
                uart: s.uart.after_write(offset, value).after_transmit(),
                ..s
            }.uart_traced("out"@, offset, value);
            &&& run_state.is_in() ==> told == read.1 && next == (VmmState {
                phase: Phase::WritingRegs,
                ..read.0
            })
            &&& !run_state.is_in() && action is WriteRegs ==> told == wrote.1 && next
                == (VmmState { phase: Phase::WritingRegs, ..wrote.0 })
            &&& action is Transmit ==> told is None && next == (VmmState {
                uart: s.uart.after_write(offset, value),
                phase: Phase::Transmitting { run_state, regs, offset, value },
                ..s
            })
            &&& action is Transmit ==> next.next(Event::Done).1 == sent.1 && next.next(
                Event::Done,
            ).0 == (VmmState { phase: Phase::WritingRegs, ..sent.0 })
        }),
{
}

/// A look outside: the deadline stops the guest and is told. Otherwise what was typed goes to the UART byte by
/// byte; an edge that then stands raises line 4, once, and without one the guest is entered.
pub proof fn law_looks_outside(s: VmmState, input: Vec<u8>)
    requires
        s.phase is Polling,
    ensures
        s.next(Event::Polled { deadline_reached: true, input }) == (
            VmmState { phase: Phase::Stopped, ..s },
            Some((Stream::Stderr, "rustshyper-vmm: diagnostic deadline reached"@)),
            Action::Stop { error: VmmError::DiagnosticDeadline, report: Report::Current },
        ),
        ({
            let (next, told, action) = s.next(Event::Polled { deadline_reached: false, input });
            let uart = uart::received_all(s.uart, input@);
            &&& next.uart == (UartState { irq_edge: false, ..uart })
            &&& uart.irq_edge ==> action == (Action::InjectIrq { line: 4 }) && told is None && next
                == (VmmState { uart: next.uart, phase: Phase::Injecting, ..s })
            &&& !uart.irq_edge ==> action is Run
        }),
{
}

/// Entering the guest counts, and the first entry is told where exits are traced.
pub proof fn law_entries(s: VmmState)
    requires
        s.phase is Injecting,
    ensures
        ({
            let (next, told, action) = s.next(Event::Done);
            let count = if s.run_count == u64::MAX {
                0
            } else {
                s.run_count + 1
            };
            &&& action is Run
            &&& next == (VmmState { run_count: count as u64, phase: Phase::Running, ..s })
            &&& s.trace.trace_timers && count == 1 ==> told == Some(
                (Stream::Stderr, "rustshyper-vmm: entering vcpu.run() count="@ + text::dec_text(1)),
            )
            &&& !(s.trace.trace_timers && count == 1) ==> told is None
        }),
{
}

/// A guest without an interrupt to raise is entered like one whose interrupt was raised.
pub proof fn law_entry_without_interrupt(s: VmmState, input: Vec<u8>)
    requires
        s.phase is Polling,
        !uart::received_all(s.uart, input@).irq_edge,
    ensures
        ({
            let quiet = VmmState {
                uart: UartState { irq_edge: false, ..uart::received_all(s.uart, input@) },
                phase: Phase::Injecting,
                ..s
            };
            s.next(Event::Polled { deadline_reached: false, input }) == quiet.next(Event::Done)
        }),
{
}

/// Written registers and a rest are followed by another look outside, and change nothing.
pub proof fn law_going_on(s: VmmState)
    requires
        s.phase is WritingRegs || s.phase is Resting,
    ensures
        s.next(Event::Done) == (
            VmmState { phase: Phase::Polling, ..s },
            None::<(Stream, Seq<char>)>,
            Action::Poll,
        ),
{
}

/// A driver starts with a UART after power-on, nothing counted, and a look outside; and each phase waits for
/// one sort of event.
pub proof fn law_start(trace: TraceSettings, event: Event, s: VmmState)
    ensures
        ({
            let start = VmmState::initial(trace);
            &&& start.uart == UartState::reset() && start.trace == trace
            &&& start.uart_trace_count == 0 && start.run_count == 0 && start.hlt_count == 0
            &&& start.pause_count == 0 && start.preemption_count == 0 && start.phase is Polling
        }),
        s.accepts(event) <==> (s.phase is Polling && event is Polled) || (s.phase is Running
            && event is Exited) || (s.phase is ReadingRegs && event is Regs) || (event is Done && (
        s.phase is Injecting || s.phase is Transmitting || s.phase is WritingRegs
            || s.phase is Resting)),
{
}

} // verus!
