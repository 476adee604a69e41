//! Running a guest: what to do about each exit, and what to ask of the outside next.
use crate::config::TraceSettings;
pub use crate::config::VmmConfig;
pub use crate::config::load_config_from_args;
pub use crate::config::parse_u64;
use crate::diagnostics;
use crate::error::VmmError;
pub use crate::error::usage;
use crate::ioctl;
use crate::ioctl::RunState;
use crate::ioctl::VcpuRegs;
use crate::text;
use crate::uart;
use crate::uart::Uart16550;
use crate::uart::UartState;
use vstd::prelude::*;
use vstd::string::*;

verus! {

/// The interrupt line of the serial port.
pub const UART_IRQ_LINE: u32 = 4;

/// Where a line is printed.
#[derive(Debug, Clone, Copy, PartialEq, Eq, Structural)]
pub enum Stream {
    /// With the guest's own output.
    Stdout,
    /// With the errors.
    Stderr,
}

/// A line to print.
#[derive(Debug)]
pub struct LogLine {
    /// Where it is printed.
    pub stream: Stream,
    /// What it says.
    pub text: String,
}

/// What happened outside.
#[derive(Debug)]
pub enum Event {
    /// The clock and the keyboard were looked at.
    Polled {
        /// The time set for a diagnostic dump has come.
        deadline_reached: bool,
        /// What was typed since the last time.
        input: Vec<u8>,
    },
    /// The guest exited.
    Exited {
        /// How.
        run_state: RunState,
    },
    /// The general registers were read.
    Regs {
        /// What they hold.
        regs: VcpuRegs,
    },
    /// What was asked for is done.
    Done,
}

/// What to tell of the guest when it is stopped.
#[derive(Debug, Clone, Copy)]
pub enum Report {
    /// Nothing.
    Nothing,
    /// What it is doing.
    Current,
    /// How it exited.
    Exit {
        /// The exit.
        run_state: RunState,
    },
}

/// What is to be done outside.
#[derive(Debug)]
pub enum Action {
    /// Look at the clock and the keyboard.
    Poll,
    /// Raise an interrupt line.
    InjectIrq {
        /// Which.
        line: u32,
    },
    /// Run the guest until it exits.
    Run,
    /// Read the general registers.
    ReadRegs,
    /// Send a byte out.
    Transmit {
        /// Which.
        byte: u8,
    },
    /// Write the general registers.
    WriteRegs {
        /// What they are to hold.
        regs: VcpuRegs,
    },
    /// Sleep for a millisecond.
    Rest,
    /// Stop for good.
    Stop {
        /// Why.
        error: VmmError,
        /// What to tell before.
        report: Report,
    },
}

/// What is being waited for.
#[derive(Debug, Clone, Copy)]
pub enum Phase {
    /// A look at the clock and the keyboard.
    Polling,
    /// An interrupt line to be raised.
    Injecting,
    /// An exit of the guest.
    Running,
    /// The general registers, for a port I/O exit.
    ReadingRegs {
        /// The exit.
        run_state: RunState,
    },
    /// A byte to be sent out, for a port I/O exit.
    Transmitting {
        /// The exit.
        run_state: RunState,
        /// The registers at the exit.
        regs: VcpuRegs,
        /// The UART register that was written.
        offset: u8,
        /// What was written to it.
        value: u8,
    },
    /// The general registers to be written.
    WritingRegs,
    /// A sleep to end.
    Resting,
    /// Nothing any more.
    Stopped,
}

/// What is told of one step: where, and in what words.
pub type Told = Option<(Stream, Seq<char>)>;

/// The state of a running guest, as far as it is kept outside the hypervisor.
#[verifier::ext_equal]
pub struct VmmState {
    /// The serial port.
    pub uart: UartState,
    /// What is traced.
    pub trace: TraceSettings,
    /// How many UART accesses were counted for tracing.
    pub uart_trace_count: u64,
    /// How often the guest was run.
    pub run_count: u64,
    /// How often it halted.
    pub hlt_count: u64,
    /// How often it paused.
    pub pause_count: u64,
    /// How often its time slice ended.
    pub preemption_count: u64,
    /// What is being waited for.
    pub phase: Phase,
}

/// One more, starting over at the end of 64 bits.
pub open spec fn counted(n: u64) -> u64 {
    if n == u64::MAX {
        0
    } else {
        (n + 1) as u64
    }
}

/// Of exits that only pass the time, the first 64 are traced, and then every 1024th.
pub open spec fn exit_trace_due(count: u64) -> bool {
    count <= 64 || count % 1024 == 0
}

/// UART accesses are traced in the window asked for; outside it, the first 512, and then every
/// 1024th.
pub open spec fn uart_trace_due(trace: TraceSettings, count: u64) -> bool {
    ||| trace.uart_trace_start <= count && (trace.uart_trace_end is None || count
        <= trace.uart_trace_end->Some_0)
    ||| count <= 512
    ||| count % 1024 == 0
}

/// What is said of an exit that only passes the time.
pub open spec fn poll_exit_text(name: Seq<char>, count: u64, run_state: RunState) -> Seq<char> {
    "rustshyper-vmm: "@ + name + " exit count="@ + text::dec_text(count as nat) + " rip="@
        + text::hex_text(run_state.guest_rip as nat) + " len="@ + text::dec_text(
        run_state.instruction_len as nat,
    ) + " qual="@ + text::hex_text(run_state.exit_qualification as nat)
}

/// What is said of a UART access.
pub open spec fn uart_access_text(
    direction: Seq<char>,
    count: u64,
    offset: u8,
    value: u8,
    pending: bool,
) -> Seq<char> {
    "rustshyper-vmm: uart "@ + direction + "#"@ + text::dec_text(count as nat) + " off="@
        + text::hex_text(offset as nat) + " value="@ + text::hex_text(value as nat)
        + " irq_pending="@ + (if pending {
        "true"@
    } else {
        "false"@
    })
}

/// The port of a port I/O exit is one of the UART's.
pub open spec fn is_uart_port(run_state: RunState) -> bool {
    ioctl::COM1_BASE <= run_state.port() < ioctl::COM1_END
}

/// Which of the UART's registers a port I/O exit is about.
pub open spec fn uart_offset(run_state: RunState) -> u8 {
    (run_state.port() - ioctl::COM1_BASE) as u8
}

/// `regs` with the instruction of the exit behind them, if its length is known.
pub open spec fn advanced(regs: VcpuRegs, run_state: RunState) -> VcpuRegs {
    VcpuRegs {
        rip: if run_state.instruction_len != 0 {
            ((run_state.guest_rip + run_state.instruction_len) % 0x1_0000_0000_0000_0000) as u64
        } else {
            regs.rip
        },
        ..regs
    }
}

/// `regs` with `value` in the low byte of the accumulator.
pub open spec fn with_low_byte(regs: VcpuRegs, value: u8) -> VcpuRegs {
    VcpuRegs { rax: (regs.rax - regs.rax % 256 + value) as u64, ..regs }
}

impl VmmState {
    /// The state before the first step.
    pub open spec fn initial(trace: TraceSettings) -> VmmState {
        VmmState {
            uart: UartState::reset(),
            trace,
            uart_trace_count: 0,
            run_count: 0,
            hlt_count: 0,
            pause_count: 0,
            preemption_count: 0,
            phase: Phase::Polling,
        }
    }

    /// The event is one that is being waited for.
    pub open spec fn accepts(self, event: Event) -> bool {
        match self.phase {
            Phase::Polling => event is Polled,
            Phase::Running => event is Exited,
            Phase::ReadingRegs { .. } => event is Regs,
            Phase::Injecting => event is Done,
            Phase::Transmitting { .. } => event is Done,
            Phase::WritingRegs => event is Done,
            Phase::Resting => event is Done,
            Phase::Stopped => false,
        }
    }

    /// Stops for good.
    pub open spec fn stopped(self, error: VmmError, report: Report) -> (VmmState, Action) {
        (VmmState { phase: Phase::Stopped, ..self }, Action::Stop { error, report })
    }

    /// Enters the guest. The first time is told where exits are traced.
    pub open spec fn entered(self) -> (VmmState, Told, Action) {
        let count = counted(self.run_count);
        (
            VmmState { run_count: count, phase: Phase::Running, ..self },
            if self.trace.trace_timers && count == 1 {
                Some(
                    (
                        Stream::Stderr,
                        "rustshyper-vmm: entering vcpu.run() count="@ + text::dec_text(
                            count as nat,
                        ),
                    ),
                )
            } else {
                None
            },
            Action::Run,
        )
    }

    /// After a look outside: the deadline stops the guest; otherwise what was typed goes to the
    /// UART, whose interrupt is raised before the guest is entered.
    pub open spec fn polled(self, deadline_reached: bool, input: Seq<u8>) -> (
        VmmState,
        Told,
        Action,
    ) {
        if deadline_reached {
            let (next, action) = self.stopped(VmmError::DiagnosticDeadline, Report::Current);
            (
                next,
                Some((Stream::Stderr, "rustshyper-vmm: diagnostic deadline reached"@)),
                action,
            )
        } else {
            let uart = uart::received_all(self.uart, input);
            let pumped = VmmState { uart: UartState { irq_edge: false, ..uart }, ..self };
            if uart.irq_edge {
                (
                    VmmState { phase: Phase::Injecting, ..pumped },
                    None,
                    Action::InjectIrq { line: UART_IRQ_LINE },
                )
            } else {
                pumped.entered()
            }
        }
    }

    /// What is told of an exit that only passes the time.
    pub open spec fn exit_told(self, name: Seq<char>, count: u64, run_state: RunState) -> Told {
        if self.trace.trace_timers && exit_trace_due(count) {
            Some((Stream::Stderr, poll_exit_text(name, count, run_state)))
        } else {
            None
        }
    }

    /// After a port I/O exit: string and repeated accesses stop the guest, and so does an access to
    /// the UART that is wider than a byte. Any other access needs the registers.
    pub open spec fn io_exited(self, run_state: RunState) -> (VmmState, Told, Action) {
        if run_state.is_string() || run_state.is_repeat() {
            let (next, action) = self.stopped(VmmError::StringIo, Report::Nothing);
            (next, None, action)
        } else if !is_uart_port(run_state) {
            (
                VmmState { phase: Phase::ReadingRegs { run_state }, ..self },
                Some(
                    (
                        Stream::Stdout,
                        "rustshyper-vmm: Guest access to unmapped I/O port at "@ + text::hex_text(
                            run_state.port() as nat,
                        ),
                    ),
                ),
                Action::ReadRegs,
            )
        } else if run_state.width() != 1 {
            let (next, action) = self.stopped(
                VmmError::UartAccessWidth { width: run_state.width() },
                Report::Nothing,
            );
            (next, None, action)
        } else {
            (
                VmmState { phase: Phase::ReadingRegs { run_state }, ..self },
                None,
                Action::ReadRegs,
            )
        }
    }

    /// After an exit.
    pub open spec fn exited(self, run_state: RunState) -> (VmmState, Told, Action) {
        if run_state.exit_reason == ioctl::VMX_EXIT_REASON_IO_INSTRUCTION {
            self.io_exited(run_state)
        } else if run_state.exit_reason == ioctl::VMX_EXIT_REASON_PREEMPTION_TIMER {
            let count = counted(self.preemption_count);
            (
                VmmState { preemption_count: count, phase: Phase::Polling, ..self },
                self.exit_told("PREEMPTION_TIMER"@, count, run_state),
                Action::Poll,
            )
        } else if run_state.exit_reason == ioctl::VMX_EXIT_REASON_PAUSE_INSTRUCTION {
            let count = counted(self.pause_count);
            (
                VmmState { pause_count: count, phase: Phase::Polling, ..self },
                self.exit_told("PAUSE"@, count, run_state),
                Action::Poll,
            )
        } else if run_state.exit_reason == ioctl::VMX_EXIT_REASON_HLT {
            let count = counted(self.hlt_count);
            (
                VmmState { hlt_count: count, phase: Phase::Resting, ..self },
                self.exit_told("HLT"@, count, run_state),
                Action::Rest,
            )
        } else {
            let (next, action) = self.stopped(
                VmmError::UnhandledExit {
                    reason: run_state.exit_reason,
                    rip: run_state.guest_rip,
                },
                Report::Exit { run_state },
            );
            (next, Some((Stream::Stderr, diagnostics::returned_text(run_state))), action)
        }
    }

    /// After a UART access: where accesses are traced, it is counted, and told if its turn has come.
    pub open spec fn uart_traced(self, direction: Seq<char>, offset: u8, value: u8) -> (
        VmmState,
        Told,
    ) {
        if self.trace.trace_uart {
            let count = counted(self.uart_trace_count);
            (
                VmmState { uart_trace_count: count, ..self },
                if uart_trace_due(self.trace, count) {
                    Some(
                        (
                            Stream::Stderr,
                            uart_access_text(direction, count, offset, value, self.uart.pending()),
                        ),
                    )
                } else {
                    None
                },
            )
        } else {
            (self, None)
        }
    }

    /// After a UART access whose effect is `regs`.
    pub open spec fn uart_done(self, direction: Seq<char>, offset: u8, value: u8, regs: VcpuRegs) -> (
        VmmState,
        Told,
        Action,
    ) {
        let (next, told) = self.uart_traced(direction, offset, value);
        (VmmState { phase: Phase::WritingRegs, ..next }, told, Action::WriteRegs { regs })
    }

    /// Once the registers of a port I/O exit are known: an access to another port reads zero and
    /// writes nothing; an access to the UART goes there, and a byte to be sent goes out first.
    pub open spec fn regs_read(self, run_state: RunState, regs: VcpuRegs) -> (
        VmmState,
        Told,
        Action,
    ) {
        let offset = uart_offset(run_state);
        if !is_uart_port(run_state) {
            let answered = if run_state.is_in() {
                with_low_byte(regs, 0)
            } else {
                regs
            };
            (
                VmmState { phase: Phase::WritingRegs, ..self },
                None,
                Action::WriteRegs { regs: advanced(answered, run_state) },
            )
        } else if run_state.is_in() {
            let value = self.uart.read_value(offset);
            VmmState { uart: self.uart.after_read(offset), ..self }.uart_done(
                "in"@,
                offset,
                value,
                advanced(with_low_byte(regs, value), run_state),
            )
        } else {
            let value = (regs.rax % 256) as u8;
            let next = VmmState { uart: self.uart.after_write(offset, value), ..self };
            match self.uart.transmits(offset, value) {
                Some(byte) => (
                    VmmState {
                        phase: Phase::Transmitting { run_state, regs, offset, value },
                        ..next
                    },
                    None,
                    Action::Transmit { byte },
                ),
                None => next.uart_done("out"@, offset, value, advanced(regs, run_state)),
            }
        }
    }

    /// The state after `event`, what is told, and what is to be done next.
    pub open spec fn next(self, event: Event) -> (VmmState, Told, Action) {
        match (self.phase, event) {
            (Phase::Polling, Event::Polled { deadline_reached, input }) => self.polled(
                deadline_reached,
                input@,
            ),
            (Phase::Injecting, _) => self.entered(),
            (Phase::Running, Event::Exited { run_state }) => self.exited(run_state),
            (Phase::ReadingRegs { run_state }, Event::Regs { regs }) => self.regs_read(
                run_state,
                regs,
            ),
            (Phase::Transmitting { run_state, regs, offset, value }, _) => VmmState {
                uart: self.uart.after_transmit(),
                ..self
            }.uart_done("out"@, offset, value, advanced(regs, run_state)),
            _ => (VmmState { phase: Phase::Polling, ..self }, None, Action::Poll),
        }
    }
}

/// What one step says, and what it asks for.
#[derive(Debug)]
pub struct Step {
    /// A line to print first, if there is one.
    pub log: Option<LogLine>,
    /// What is to be done then.
    pub action: Action,
}

impl Step {
    /// What is told.
    pub open spec fn told(&self) -> Told {
        match self.log {
            Some(line) => Some((line.stream, line.text@)),
            None => None,
        }
    }
}

/// Drives a guest: takes what happened outside and says what to do next.
#[derive(Debug)]
pub struct Vmm {
    uart: Uart16550,
    trace: TraceSettings,
    uart_trace_count: u64,
    run_count: u64,
    hlt_count: u64,
    pause_count: u64,
    preemption_count: u64,
    phase: Phase,
}

proof fn lemma_low_byte(rax: u64, value: u8)
    ensures
        (rax & !0xffu64) | (value as u64) == rax - rax % 256 + value,
        rax & !0xffu64 == rax - rax % 256,
        rax as u8 == rax % 256,
{
    let v = value as u64;
    assert((rax & !0xffu64) | v == rax - rax % 256 + v) by (bit_vector)
        requires
            v < 256,
    ;
    assert(rax & !0xffu64 == rax - rax % 256 && rax as u8 == rax % 256) by (bit_vector);
}

/// `regs` with the instruction of the exit behind them, if its length is known.
fn advance(regs: VcpuRegs, run_state: &RunState) -> (next: VcpuRegs)
    ensures
        next == advanced(regs, *run_state),
{
    let mut next = regs;
    if run_state.instruction_len != 0 {
        next.rip = run_state.guest_rip.wrapping_add(run_state.instruction_len as u64);
    }
    next
}

/// `regs` with `value` in the low byte of the accumulator.
fn set_low_byte(regs: VcpuRegs, value: u8) -> (next: VcpuRegs)
    ensures
        next == with_low_byte(regs, value),
{
    proof {
        lemma_low_byte(regs.rax, value);
    }
    let mut next = regs;
    next.rax = (regs.rax & !0xffu64) | (value as u64);
    next
}

fn on_uart(run_state: &RunState) -> (yes: bool)
    ensures
        yes == is_uart_port(*run_state),
{
    let port: u16 = run_state.io_port();
    ioctl::COM1_BASE <= port && port < ioctl::COM1_END
}

impl Vmm {
    /// What the driver keeps.
    pub closed spec fn view(&self) -> VmmState {
        VmmState {
            uart: self.uart@,
            trace: self.trace,
            uart_trace_count: self.uart_trace_count,
            run_count: self.run_count,
            hlt_count: self.hlt_count,
            pause_count: self.pause_count,
            preemption_count: self.preemption_count,
            phase: self.phase,
        }
    }

    /// The UART is consistent.
    pub closed spec fn wf(&self) -> bool {
        self.uart.wf()
    }

    /// A driver that waits for a first look outside.
    pub fn new(trace: TraceSettings) -> (vmm: Self)
        ensures
            vmm.wf(),
            vmm@ == VmmState::initial(trace),
    {
        Vmm {
            uart: Uart16550::new(),
            trace,
            uart_trace_count: 0,
            run_count: 0,
            hlt_count: 0,
            pause_count: 0,
            preemption_count: 0,
            phase: Phase::Polling,
        }
    }

    /// Hands what was typed to the UART.
    fn pump_stdin(&mut self, input: &[u8])
        requires
            old(self).wf(),
        ensures
            final(self).wf(),
            final(self)@ == (VmmState {
                uart: uart::received_all(old(self)@.uart, input@),
                ..old(self)@
            }),
    {
        let mut i: usize = 0;
        let ghost start = self@.uart;
        assert(input@.take(0) =~= Seq::<u8>::empty());
        while i < input.len()
            invariant
                i <= input@.len(),
                self.wf(),
                start == old(self)@.uart,
                self@ == (VmmState {
                    uart: uart::received_all(start, input@.take(i as int)),
                    ..old(self)@
                }),
            decreases input@.len() - i,
        {
            self.uart.receive_byte(input[i]);
            i = i + 1;
            assert(input@.take(i as int).drop_last() =~= input@.take(i - 1));
        }
        assert(input@.take(i as int) =~= input@);
    }

    /// Tells whether the UART's interrupt is to be raised, once for each edge.
    fn inject_pending_uart_irq(&mut self) -> (inject: bool)
        requires
            old(self).wf(),
        ensures
            final(self).wf(),
            inject == old(self)@.uart.irq_edge,
            final(self)@ == (VmmState {
                uart: UartState { irq_edge: false, ..old(self)@.uart },
                ..old(self)@
            }),
    {
        self.uart.poll_tx();
        self.uart.take_interrupt_edge()
    }

    fn stop(&mut self, error: VmmError, report: Report) -> (action: Action)
        requires
            old(self).wf(),
        ensures
            final(self).wf(),
            (final(self)@, action) == old(self)@.stopped(error, report),
    {
        self.phase = Phase::Stopped;
        Action::Stop { error, report }
    }

    fn enter(&mut self) -> (step: Step)
        requires
            old(self).wf(),
        ensures
            final(self).wf(),
            (final(self)@, step.told(), step.action) == old(self)@.entered(),
    {
        self.run_count = self.run_count.wrapping_add(1);
        self.phase = Phase::Running;
        let log = if self.trace.trace_timers && self.run_count == 1 {
            let mut text = "rustshyper-vmm: entering vcpu.run() count=".to_owned();
            text::push_dec(&mut text, self.run_count);
            Some(LogLine { stream: Stream::Stderr, text })
        } else {
            None
        };
        Step { log, action: Action::Run }
    }

    fn poll(&mut self, deadline_reached: bool, input: &[u8]) -> (step: Step)
        requires
            old(self).wf(),
        ensures
            final(self).wf(),
            (final(self)@, step.told(), step.action) == old(self)@.polled(deadline_reached, input@),
    {
        if deadline_reached {
            let text = "rustshyper-vmm: diagnostic deadline reached".to_owned();
            let action = self.stop(VmmError::DiagnosticDeadline, Report::Current);
            return Step { log: Some(LogLine { stream: Stream::Stderr, text }), action };
        }
        self.pump_stdin(input);
        if self.inject_pending_uart_irq() {
            self.phase = Phase::Injecting;
            return Step { log: None, action: Action::InjectIrq { line: UART_IRQ_LINE } };
        }
        self.enter()
    }

    /// What is told of an exit that only passes the time.
    fn trace_poll_exit(&self, name: &str, count: u64, run_state: &RunState) -> (log: Option<
        LogLine,
    >)
        ensures
            (Step { log, action: Action::Poll }).told() == self@.exit_told(
                name@,
                count,
                *run_state,
            ),
    {
        if self.trace.trace_timers && (count <= 64 || count % 1024 == 0) {
            let mut text = "rustshyper-vmm: ".to_owned();
            text.append(name);
            text.append(" exit count=");
            text::push_dec(&mut text, count);
            text.append(" rip=");
            text::push_hex(&mut text, run_state.guest_rip);
            text.append(" len=");
            text::push_dec(&mut text, run_state.instruction_len as u64);
            text.append(" qual=");
            text::push_hex(&mut text, run_state.exit_qualification);
            Some(LogLine { stream: Stream::Stderr, text })
        } else {
            None
        }
    }

    fn handle_io_exit(&mut self, run_state: &RunState) -> (step: Step)
        requires
            old(self).wf(),
        ensures
            final(self).wf(),
            (final(self)@, step.told(), step.action) == old(self)@.io_exited(*run_state),
    {
        if run_state.io_is_string() || run_state.io_is_repeat() {
            let action = self.stop(VmmError::StringIo, Report::Nothing);
            return Step { log: None, action };
        }
        if !on_uart(run_state) {
            let mut text = "rustshyper-vmm: Guest access to unmapped I/O port at ".to_owned();
            text::push_hex(&mut text, run_state.io_port() as u64);
            self.phase = Phase::ReadingRegs { run_state: *run_state };
            return Step {
                log: Some(LogLine { stream: Stream::Stdout, text }),
                action: Action::ReadRegs,
            };
        }
        let width: u8 = run_state.io_size();
        if width != 1 {
            let action = self.stop(VmmError::UartAccessWidth { width }, Report::Nothing);
            return Step { log: None, action };
        }
        self.phase = Phase::ReadingRegs { run_state: *run_state };
        Step { log: None, action: Action::ReadRegs }
    }

    fn handle_exit(&mut self, run_state: &RunState) -> (step: Step)
        requires
            old(self).wf(),
        ensures
            final(self).wf(),
            (final(self)@, step.told(), step.action) == old(self)@.exited(*run_state),
    {
        match run_state.exit_reason {
            ioctl::VMX_EXIT_REASON_IO_INSTRUCTION => self.handle_io_exit(run_state),
            ioctl::VMX_EXIT_REASON_PREEMPTION_TIMER => {
                self.preemption_count = self.preemption_count.wrapping_add(1);
                self.phase = Phase::Polling;
                let log = self.trace_poll_exit("PREEMPTION_TIMER", self.preemption_count, run_state);
                Step { log, action: Action::Poll }
            },
            ioctl::VMX_EXIT_REASON_PAUSE_INSTRUCTION => {
                self.pause_count = self.pause_count.wrapping_add(1);
                self.phase = Phase::Polling;
                let log = self.trace_poll_exit("PAUSE", self.pause_count, run_state);
                Step { log, action: Action::Poll }
            },
            ioctl::VMX_EXIT_REASON_HLT => {
                self.hlt_count = self.hlt_count.wrapping_add(1);
                self.phase = Phase::Resting;
                let log = self.trace_poll_exit("HLT", self.hlt_count, run_state);
                Step { log, action: Action::Rest }
            },
            other => {
                let text = diagnostics::returned_line(run_state);
                let error = VmmError::UnhandledExit { reason: other, rip: run_state.guest_rip };
                let action = self.stop(error, Report::Exit { run_state: *run_state });
                Step { log: Some(LogLine { stream: Stream::Stderr, text }), action }
            },
        }
    }

    /// Counts and tells a UART access, where such accesses are traced.
    fn trace_uart_io(&mut self, direction: &str, offset: u8, value: u8) -> (log: Option<LogLine>)
        requires
            old(self).wf(),
        ensures
            final(self).wf(),
            (final(self)@, (Step { log, action: Action::Poll }).told()) == old(self)@.uart_traced(
                direction@,
                offset,
                value,
            ),
    {
        if !self.trace.trace_uart {
            return None;
        }
        self.uart_trace_count = self.uart_trace_count.wrapping_add(1);
        let count: u64 = self.uart_trace_count;
        let in_window = count >= self.trace.uart_trace_start && (match self.trace.uart_trace_end {
            Some(end) => count <= end,
            None => true,
        });
        if in_window || count <= 512 || count % 1024 == 0 {
            let mut text = "rustshyper-vmm: uart ".to_owned();
            text.append(direction);
            text.append("#");
            text::push_dec(&mut text, count);
            text.append(" off=");
            text::push_hex(&mut text, offset as u64);
            text.append(" value=");
            text::push_hex(&mut text, value as u64);
            text.append(" irq_pending=");
            if self.uart.interrupt_pending() {
                text.append("true");
            } else {
                text.append("false");
            }
            Some(LogLine { stream: Stream::Stderr, text })
        } else {
            None
        }
    }

    fn finish_uart_io(&mut self, direction: &str, offset: u8, value: u8, regs: VcpuRegs) -> (step:
        Step)
        requires
            old(self).wf(),
        ensures
            final(self).wf(),
            (final(self)@, step.told(), step.action) == old(self)@.uart_done(
                direction@,
                offset,
                value,
                regs,
            ),
    {
        let log = self.trace_uart_io(direction, offset, value);
        self.phase = Phase::WritingRegs;
        Step { log, action: Action::WriteRegs { regs } }
    }

    /// What the registers hold after an access to a port where nothing is: a read gives zero.
    fn handle_unmapped_io(&self, run_state: &RunState, regs: VcpuRegs) -> (next: VcpuRegs)
        ensures
            next == advanced(
                if run_state.is_in() {
                    with_low_byte(regs, 0)
                } else {
                    regs
                },
                *run_state,
            ),
    {
        if run_state.io_is_in() {
            advance(set_low_byte(regs, 0), run_state)
        } else {
            advance(regs, run_state)
        }
    }

    fn handle_regs(&mut self, run_state: &RunState, regs: VcpuRegs) -> (step: Step)
        requires
            old(self).wf(),
        ensures
            final(self).wf(),
            (final(self)@, step.told(), step.action) == old(self)@.regs_read(*run_state, regs),
    {
        if !on_uart(run_state) {
            let next = self.handle_unmapped_io(run_state, regs);
            self.phase = Phase::WritingRegs;
            return Step { log: None, action: Action::WriteRegs { regs: next } };
        }
        let offset: u8 = (run_state.io_port() - ioctl::COM1_BASE) as u8;
        if run_state.io_is_in() {
            let value: u8 = self.uart.read(offset);
            let next = advance(set_low_byte(regs, value), run_state);
            self.finish_uart_io("in", offset, value, next)
        } else {
            proof {
                lemma_low_byte(regs.rax, 0);
            }
            let value: u8 = regs.rax as u8;
            match self.uart.write(offset, value) {
                Some(byte) => {
                    self.phase = Phase::Transmitting {
                        run_state: *run_state,
                        regs,
                        offset,
                        value,
                    };
                    Step { log: None, action: Action::Transmit { byte } }
                },
                None => self.finish_uart_io("out", offset, value, advance(regs, run_state)),
            }
        }
    }

    /// Takes what happened outside and says what to do next.
    pub fn run(&mut self, event: Event) -> (step: Step)
        requires
            old(self).wf(),
            old(self)@.accepts(event),
        ensures
            final(self).wf(),
            (final(self)@, step.told(), step.action) == old(self)@.next(event),
    {
        let phase = self.phase;
        match event {
            Event::Polled { deadline_reached, input } => self.poll(deadline_reached, &input),
            Event::Exited { run_state } => self.handle_exit(&run_state),
            Event::Regs { regs } => match phase {
                Phase::ReadingRegs { run_state } => self.handle_regs(&run_state, regs),
                _ => Step { log: None, action: Action::Poll },
            },
            Event::Done => match phase {
                Phase::Injecting => self.enter(),
                Phase::Transmitting { run_state, regs, offset, value } => {
                    self.uart.transmit_done();
                    self.finish_uart_io("out", offset, value, advance(regs, &run_state))
                },
                _ => {
                    self.phase = Phase::Polling;
                    Step { log: None, action: Action::Poll }
                },
            },
        }
    }
}

/// The phase is the one that waits for `action` to be done.
pub open spec fn awaits(phase: Phase, action: Action) -> bool {
    match action {
        Action::Poll => phase is Polling,
        Action::InjectIrq { .. } => phase is Injecting,
        Action::Run => phase is Running,
        Action::ReadRegs => phase is ReadingRegs,
        Action::Transmit { .. } => phase is Transmitting,
        Action::WriteRegs { .. } => phase is WritingRegs,
        Action::Rest => phase is Resting,
        Action::Stop { .. } => phase is Stopped,
    }
}

/// After each step the driver waits for exactly what it asked for.
pub proof fn law_what_is_asked_is_awaited(s: VmmState, event: Event)
    requires
        s.accepts(event),
    ensures
        awaits(s.next(event).0.phase, s.next(event).2),
{
}

/// How many steps can still be taken before the next look outside.
pub open spec fn steps_left(phase: Phase) -> nat {
    match phase {
        Phase::Polling => 6,
        Phase::Injecting => 5,
        Phase::Running => 4,
        Phase::ReadingRegs { .. } => 3,
        Phase::Transmitting { .. } => 2,
        Phase::WritingRegs => 1,
        Phase::Resting => 1,
        Phase::Stopped => 0,
    }
}

/// The clock and the keyboard are looked at again and again: each step asks for a look, stops for
/// good, or leaves fewer steps to go before the next look.
pub proof fn law_looks_outside_again(s: VmmState, event: Event)
    requires
        s.accepts(event),
    ensures
        s.next(event).2 is Poll || s.next(event).2 is Stop || steps_left(s.next(event).0.phase)
            < steps_left(s.phase),
{
}

/// A guest is stopped by the deadline, by string or repeated port I/O, by a UART access that is not
/// one byte wide, or by an exit whose reason is none of the four that are handled; and by nothing
/// else.
pub proof fn law_reasons_to_stop(s: VmmState, event: Event)
    requires
        s.accepts(event),
    ensures
        s.next(event).2 is Stop <==> match event {
            Event::Polled { deadline_reached, input } => deadline_reached,
            Event::Exited { run_state } => if run_state.exit_reason
                == ioctl::VMX_EXIT_REASON_IO_INSTRUCTION {
                run_state.is_string() || run_state.is_repeat() || (is_uart_port(run_state)
                    && run_state.width() != 1)
            } else {
                run_state.exit_reason != ioctl::VMX_EXIT_REASON_PREEMPTION_TIMER
                    && run_state.exit_reason != ioctl::VMX_EXIT_REASON_PAUSE_INSTRUCTION
                    && run_state.exit_reason != ioctl::VMX_EXIT_REASON_HLT
            },
            _ => false,
        },
        s.next(event).2 is Stop && event is Polled ==> s.next(event).2->error
            == VmmError::DiagnosticDeadline,
{
}

impl VmmState {
    /// What holds between any two steps: the UART is within its bounds, and no interrupt waits to be
    /// raised while the guest is entered or runs.
    pub open spec fn inv(self) -> bool {
        &&& self.uart.rx.len() <= uart::rx_capacity()
        &&& self.uart.thr_pending ==> self.uart.thr_armed
        &&& self.phase is Injecting || self.phase is Running ==> !self.uart.irq_edge
    }
}

/// The state after `events`, one after the other.
pub open spec fn after_events(trace: TraceSettings, events: Seq<Event>) -> VmmState
    decreases events.len(),
{
    if events.len() == 0 {
        VmmState::initial(trace)
    } else {
        after_events(trace, events.drop_last()).next(events.last()).0
    }
}

/// Each of `events` was waited for when it came.
pub open spec fn all_awaited(trace: TraceSettings, events: Seq<Event>) -> bool
    decreases events.len(),
{
    events.len() == 0 || (all_awaited(trace, events.drop_last()) && after_events(
        trace,
        events.drop_last(),
    ).accepts(events.last()))
}

/// Whatever happens, the UART stays within its bounds, and the guest is never entered while an
/// interrupt waits to be raised.
pub proof fn law_no_interrupt_waits_while_running(trace: TraceSettings, events: Seq<Event>)
    requires
        all_awaited(trace, events),
    ensures
        after_events(trace, events).inv(),
    decreases events.len(),
{
    if events.len() > 0 {
        law_no_interrupt_waits_while_running(trace, events.drop_last());
        lemma_step_keeps_inv(after_events(trace, events.drop_last()), events.last());
    }
}

proof fn lemma_step_keeps_inv(s: VmmState, event: Event)
    requires
        s.inv(),
        s.accepts(event),
    ensures
        s.next(event).0.inv(),
{
    if let Event::Polled { input, .. } = event {
        uart::law_receive_keeps_newest(s.uart, input@);
    }
}

/// An interrupt edge is forgotten only in the step that raises the UART's interrupt line.
pub proof fn law_no_edge_is_lost(s: VmmState, event: Event)
    requires
        s.accepts(event),
        s.uart.irq_edge,
        !s.next(event).0.uart.irq_edge,
    ensures
        s.next(event).2 == (Action::InjectIrq { line: UART_IRQ_LINE }),
{
    if let Event::Polled { input, .. } = event {
        lemma_edge_survives_input(s.uart, input@);
    }
}

proof fn lemma_edge_survives_input(s: UartState, input: Seq<u8>)
    requires
        s.irq_edge,
    ensures
        uart::received_all(s, input).irq_edge,
    decreases input.len(),
{
    if input.len() > 0 {
        lemma_edge_survives_input(s, input.drop_last());
    }
}

/// What is typed reaches the guest: it queues up in the UART behind what waits there, and the next
/// read of the data port puts the first byte into the accumulator.
pub proof fn law_input_reaches_the_guest(
    s: VmmState,
    input: Seq<u8>,
    run_state: RunState,
    regs: VcpuRegs,
)
    requires
        s.inv(),
        !s.uart.dlab(),
        (s.uart.rx + input).len() > 0,
        run_state.port() == ioctl::COM1_BASE,
        run_state.is_in(),
    ensures
        s.polled(false, input).0.uart.rx == uart::newest(s.uart.rx + input, uart::rx_capacity()),
        s.polled(false, input).0.regs_read(run_state, regs).2 == (Action::WriteRegs {
            regs: advanced(
                with_low_byte(regs, uart::newest(s.uart.rx + input, uart::rx_capacity())[0]),
                run_state,
            ),
        }),
{
    uart::law_receive_keeps_newest(s.uart, input);
}

/// What the guest writes to the data port goes out, and then the guest goes on behind the instruction.
pub proof fn law_output_leaves_the_guest(s: VmmState, run_state: RunState, regs: VcpuRegs)
    requires
        !s.uart.dlab(),
        run_state.port() == ioctl::COM1_BASE,
        !run_state.is_in(),
    ensures
        s.regs_read(run_state, regs).2 == (Action::Transmit { byte: (regs.rax % 256) as u8 }),
        s.regs_read(run_state, regs).0.next(Event::Done).2 == (Action::WriteRegs {
            regs: advanced(regs, run_state),
        }),
{
}

/// Ports where nothing is read as zero and take no writes: the UART stays as it is, and a write
/// changes no register but the instruction pointer.
pub proof fn law_unmapped_ports(s: VmmState, run_state: RunState, regs: VcpuRegs)
    requires
        !is_uart_port(run_state),
    ensures
        s.regs_read(run_state, regs).0.uart == s.uart,
        s.regs_read(run_state, regs).2 is WriteRegs,
        run_state.is_in() ==> s.regs_read(run_state, regs).2->regs.rax == regs.rax - regs.rax % 256,
        !run_state.is_in() ==> s.regs_read(run_state, regs).2->regs == advanced(regs, run_state),
{
}

/// Port I/O changes only the low byte of the accumulator, and that only on a read, and the instruction
/// pointer, and that only where the length of the instruction is known.
pub proof fn law_port_io_changes_little(s: VmmState, run_state: RunState, regs: VcpuRegs)
    requires
        s.regs_read(run_state, regs).2 is WriteRegs,
    ensures
        ({
            let after = s.regs_read(run_state, regs).2->regs;
            &&& after == (VcpuRegs { rax: after.rax, rip: after.rip, ..regs })
            &&& after.rax / 256 == regs.rax / 256
            &&& !run_state.is_in() ==> after.rax == regs.rax
            &&& run_state.instruction_len == 0 ==> after.rip == regs.rip
        }),
{
}

/// Each counter counts what it is named after and nothing else, and what is traced never changes.
pub proof fn law_counters_count(s: VmmState, event: Event)
    requires
        s.accepts(event),
    ensures
        ({
            let (next, _, action) = s.next(event);
            let reason = if event is Exited {
                Some(event->run_state.exit_reason)
            } else {
                None
            };
            &&& next.trace == s.trace
            &&& next.run_count == (if action is Run {
                counted(s.run_count)
            } else {
                s.run_count
            })
            &&& next.hlt_count == (if reason == Some(ioctl::VMX_EXIT_REASON_HLT) {
                counted(s.hlt_count)
            } else {
                s.hlt_count
            })
            &&& next.pause_count == (if reason == Some(ioctl::VMX_EXIT_REASON_PAUSE_INSTRUCTION) {
                counted(s.pause_count)
            } else {
                s.pause_count
            })
            &&& next.preemption_count == (if reason == Some(
                ioctl::VMX_EXIT_REASON_PREEMPTION_TIMER,
            ) {
                counted(s.preemption_count)
            } else {
                s.preemption_count
            })
        }),
{
}

} // verus!
