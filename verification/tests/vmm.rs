use rustshyper_vmm::config::TraceSettings;
use rustshyper_vmm::error::{ErrorKind, VmmError};
use rustshyper_vmm::ioctl::{IoExit, RunState, VcpuRegs};
use rustshyper_vmm::vmm::{Action, Event, Report, Step, Stream, Vmm};

fn trace(timers: bool, uart: bool, start: u64, end: Option<u64>) -> TraceSettings {
    TraceSettings {
        trace_timers: timers,
        trace_uart: uart,
        uart_trace_start: start,
        uart_trace_end: end,
        diagnose_after_secs: None,
    }
}

fn quiet() -> Vmm {
    Vmm::new(trace(false, false, 1, None))
}

fn polled(input: &[u8]) -> Event {
    Event::Polled { deadline_reached: false, input: input.to_vec() }
}

fn exit(reason: u32) -> Event {
    Event::Exited {
        run_state: RunState {
            exit_reason: reason,
            instruction_len: 2,
            guest_rip: 0x1000,
            exit_qualification: 0x7,
            ..RunState::default()
        },
    }
}

fn io(port: u16, is_in: bool) -> RunState {
    RunState {
        exit_reason: 30,
        instruction_len: 1,
        guest_rip: 0x2000,
        io: IoExit { port, size: 1, is_in: is_in as u8, ..IoExit::default() },
        ..RunState::default()
    }
}

fn text(step: &Step) -> Option<&str> {
    step.log.as_ref().map(|line| line.text.as_str())
}

/// Brings a driver that waits for a look outside into the guest.
fn enter(vmm: &mut Vmm, input: &[u8]) {
    let mut step = vmm.run(polled(input));
    if let Action::InjectIrq { line } = step.action {
        assert_eq!(line, 4);
        step = vmm.run(Event::Done);
    }
    assert!(matches!(step.action, Action::Run));
}

/// Lets the guest write `value` to `port`, and returns what went out.
fn guest_out(vmm: &mut Vmm, port: u16, value: u64) -> Option<u8> {
    enter(vmm, &[]);
    let step = vmm.run(Event::Exited { run_state: io(port, false) });
    assert!(matches!(step.action, Action::ReadRegs));
    let mut step = vmm.run(Event::Regs { regs: VcpuRegs { rax: value, ..VcpuRegs::default() } });
    let mut sent = None;
    if let Action::Transmit { byte } = step.action {
        sent = Some(byte);
        step = vmm.run(Event::Done);
    }
    match step.action {
        Action::WriteRegs { regs } => {
            assert_eq!(regs.rax, value);
            assert_eq!(regs.rip, 0x2001);
        }
        other => panic!("{other:?}"),
    }
    assert!(matches!(vmm.run(Event::Done).action, Action::Poll));
    sent
}

/// Lets the guest read `port`, and returns the accumulator.
fn guest_in(vmm: &mut Vmm, port: u16, rax: u64) -> u64 {
    let step = vmm.run(Event::Exited { run_state: io(port, true) });
    assert!(matches!(step.action, Action::ReadRegs));
    let regs = VcpuRegs { rax, rbx: 77, ..VcpuRegs::default() };
    let step = vmm.run(Event::Regs { regs });
    let after = match step.action {
        Action::WriteRegs { regs } => regs,
        other => panic!("{other:?}"),
    };
    assert_eq!(after.rip, 0x2001);
    assert_eq!(after.rbx, 77);
    assert!(matches!(vmm.run(Event::Done).action, Action::Poll));
    after.rax
}

#[test]
fn a_quiet_guest_is_entered_at_once() {
    let mut vmm = quiet();
    let step = vmm.run(polled(&[]));
    assert!(step.log.is_none());
    assert!(matches!(step.action, Action::Run));
}

#[test]
fn the_first_entry_is_told_when_traced() {
    let mut vmm = Vmm::new(trace(true, false, 1, None));
    let step = vmm.run(polled(&[]));
    assert_eq!(text(&step), Some("rustshyper-vmm: entering vcpu.run() count=1"));
    vmm.run(exit(40));
    let step = vmm.run(polled(&[]));
    assert_eq!(text(&step), None);
}

#[test]
fn the_deadline_stops_the_guest() {
    let mut vmm = quiet();
    let step = vmm.run(Event::Polled { deadline_reached: true, input: vec![1, 2] });
    let line = step.log.unwrap();
    assert_eq!(line.stream, Stream::Stderr);
    assert_eq!(line.text, "rustshyper-vmm: diagnostic deadline reached");
    match step.action {
        Action::Stop { error, report } => {
            assert!(matches!(report, Report::Current));
            assert_eq!(error.kind(), ErrorKind::Interrupted);
            assert_eq!(error.message(), "rustshyper-vmm diagnostic deadline reached");
        }
        other => panic!("{other:?}"),
    }
}

#[test]
fn typed_bytes_reach_the_guest() {
    let mut vmm = quiet();
    enter(&mut vmm, b"hi");
    assert_eq!(guest_in(&mut vmm, 0x3fd, 0), 0x61);
    enter(&mut vmm, b"!");
    assert_eq!(guest_in(&mut vmm, 0x3f8, 0xffff_ffff_ffff_ff00), 0xffff_ffff_ffff_ff00 | b'h' as u64);
    enter(&mut vmm, &[]);
    assert_eq!(guest_in(&mut vmm, 0x3f8, 0xabff), 0xab00 | b'i' as u64);
    enter(&mut vmm, &[]);
    assert_eq!(guest_in(&mut vmm, 0x3f8, 0), b'!' as u64);
    enter(&mut vmm, &[]);
    assert_eq!(guest_in(&mut vmm, 0x3fd, 0xff), 0x60);
}

#[test]
fn enabled_input_raises_the_interrupt_once() {
    let mut vmm = quiet();
    assert_eq!(guest_out(&mut vmm, 0x3f9, 0x01), None);
    let step = vmm.run(polled(b"k"));
    assert!(matches!(step.action, Action::InjectIrq { line: 4 }));
    assert!(matches!(vmm.run(Event::Done).action, Action::Run));
    vmm.run(exit(52));
    assert!(matches!(vmm.run(polled(&[])).action, Action::Run));
}

#[test]
fn guest_output_goes_out() {
    let mut vmm = quiet();
    assert_eq!(guest_out(&mut vmm, 0x3f8, 0x1_2345), Some(0x45));
    assert_eq!(guest_out(&mut vmm, 0x3f8, b'\n' as u64), Some(b'\n'));
    // With the divisor latches mapped, nothing does.
    assert_eq!(guest_out(&mut vmm, 0x3fb, 0x80), None);
    assert_eq!(guest_out(&mut vmm, 0x3f8, 0x0c), None);
    enter(&mut vmm, &[]);
    assert_eq!(guest_in(&mut vmm, 0x3f8, 0), 0x0c);
}

#[test]
fn transmitted_bytes_raise_the_interrupt() {
    let mut vmm = quiet();
    guest_out(&mut vmm, 0x3f9, 0x02);
    guest_out(&mut vmm, 0x3f8, b'x' as u64);
    assert!(matches!(vmm.run(polled(&[])).action, Action::InjectIrq { line: 4 }));
    vmm.run(Event::Done);
    assert_eq!(guest_in(&mut vmm, 0x3fa, 0), 0x02);
}

#[test]
fn unmapped_ports_read_zero() {
    let mut vmm = quiet();
    enter(&mut vmm, b"z");
    let step = vmm.run(Event::Exited { run_state: io(0x60, true) });
    let line = step.log.unwrap();
    assert_eq!(line.stream, Stream::Stdout);
    assert_eq!(line.text, "rustshyper-vmm: Guest access to unmapped I/O port at 0x60");
    let step = vmm.run(Event::Regs { regs: VcpuRegs { rax: 0x1234, ..VcpuRegs::default() } });
    match step.action {
        Action::WriteRegs { regs } => assert_eq!((regs.rax, regs.rip), (0x1200, 0x2001)),
        other => panic!("{other:?}"),
    }
    vmm.run(Event::Done);
    assert_eq!(guest_out(&mut vmm, 0x400, 0x55), None);
    assert_eq!(guest_out(&mut vmm, 0x3f7, 0x55), None);
    enter(&mut vmm, &[]);
    assert_eq!(guest_in(&mut vmm, 0x3f8, 0), b'z' as u64);
}

#[test]
fn unmapped_ports_take_any_width() {
    let mut vmm = quiet();
    enter(&mut vmm, &[]);
    let mut state = io(0xcf8, true);
    state.io.size = 4;
    let step = vmm.run(Event::Exited { run_state: state });
    assert!(matches!(step.action, Action::ReadRegs));
}

#[test]
fn the_instruction_pointer_stays_without_a_length() {
    let mut vmm = quiet();
    enter(&mut vmm, &[]);
    let state = RunState { instruction_len: 0, ..io(0x3ff, true) };
    vmm.run(Event::Exited { run_state: state });
    let step = vmm.run(Event::Regs { regs: VcpuRegs { rip: 0x99, ..VcpuRegs::default() } });
    match step.action {
        Action::WriteRegs { regs } => assert_eq!(regs.rip, 0x99),
        other => panic!("{other:?}"),
    }
    vmm.run(Event::Done);
    enter(&mut vmm, &[]);
    let state = RunState { instruction_len: 3, guest_rip: u64::MAX, ..io(0x3ff, false) };
    vmm.run(Event::Exited { run_state: state });
    let step = vmm.run(Event::Regs { regs: VcpuRegs::default() });
    match step.action {
        Action::WriteRegs { regs } => assert_eq!(regs.rip, 2),
        other => panic!("{other:?}"),
    }
}

#[test]
fn string_io_stops_the_guest() {
    for (string, repeat) in [(1, 0), (0, 1), (1, 1)] {
        let mut vmm = quiet();
        enter(&mut vmm, &[]);
        let mut state = io(0x60, true);
        state.io.is_string = string;
        state.io.is_repeat = repeat;
        let step = vmm.run(Event::Exited { run_state: state });
        assert!(step.log.is_none());
        match step.action {
            Action::Stop { error, report } => {
                assert!(matches!(report, Report::Nothing));
                assert!(matches!(error, VmmError::StringIo));
                assert_eq!(error.kind(), ErrorKind::Other);
                assert_eq!(
                    error.message(),
                    "string or REP-prefixed port I/O exits are not supported yet"
                );
            }
            other => panic!("{other:?}"),
        }
    }
}

#[test]
fn wide_uart_accesses_stop_the_guest() {
    let mut vmm = quiet();
    enter(&mut vmm, &[]);
    let mut state = io(0x3f8, true);
    state.io.size = 2;
    let step = vmm.run(Event::Exited { run_state: state });
    match step.action {
        Action::Stop { error, .. } => {
            assert_eq!(error.message(), "unsupported UART access width 2");
        }
        other => panic!("{other:?}"),
    }
}

#[test]
fn other_exits_stop_the_guest() {
    let mut vmm = quiet();
    enter(&mut vmm, &[]);
    let step = vmm.run(exit(2));
    assert_eq!(
        text(&step),
        Some("rustshyper-vmm: vcpu.run() returned exit=TRIPLE_FAULT rip=0x1000 len=2 qual=0x7")
    );
    match step.action {
        Action::Stop { error, report } => {
            assert_eq!(error.kind(), ErrorKind::Other);
            assert_eq!(error.message(), "TRIPLE_FAULT at rip 0x1000");
            match report {
                Report::Exit { run_state } => assert_eq!(run_state.exit_reason, 2),
                other => panic!("{other:?}"),
            }
        }
        other => panic!("{other:?}"),
    }
}

#[test]
fn passing_time_is_counted_and_traced() {
    for (reason, name) in [(52, "PREEMPTION_TIMER"), (40, "PAUSE"), (12, "HLT")] {
        let mut vmm = Vmm::new(trace(true, false, 1, None));
        for count in 1..=3000u64 {
            enter(&mut vmm, &[]);
            let step = vmm.run(exit(reason));
            if count <= 64 || count % 1024 == 0 {
                let expected =
                    format!("rustshyper-vmm: {name} exit count={count} rip=0x1000 len=2 qual=0x7");
                assert_eq!(text(&step), Some(expected.as_str()));
            } else {
                assert_eq!(text(&step), None);
            }
            if reason == 12 {
                assert!(matches!(step.action, Action::Rest));
                assert!(matches!(vmm.run(Event::Done).action, Action::Poll));
            } else {
                assert!(matches!(step.action, Action::Poll));
            }
        }
    }
}

#[test]
fn uart_accesses_are_traced_in_the_window() {
    let mut vmm = Vmm::new(trace(false, true, 600, Some(602)));
    for count in 1..=1100u64 {
        enter(&mut vmm, &[]);
        vmm.run(Event::Exited { run_state: io(0x3ff, false) });
        let step = vmm.run(Event::Regs { regs: VcpuRegs { rax: 0x1ab, ..VcpuRegs::default() } });
        if count <= 512 || (600..=602).contains(&count) || count == 1024 {
            let expected = format!(
                "rustshyper-vmm: uart out#{count} off=0x7 value=0xab irq_pending=false"
            );
            assert_eq!(text(&step), Some(expected.as_str()));
            assert_eq!(step.log.unwrap().stream, Stream::Stderr);
        } else {
            assert_eq!(text(&step), None);
        }
        vmm.run(Event::Done);
    }
}

#[test]
fn uart_traces_tell_of_a_pending_interrupt() {
    let mut vmm = Vmm::new(trace(false, true, 1, None));
    guest_out(&mut vmm, 0x3f9, 0x02);
    enter(&mut vmm, &[]);
    vmm.run(Event::Exited { run_state: io(0x3f8, false) });
    let step = vmm.run(Event::Regs { regs: VcpuRegs { rax: 0x58, ..VcpuRegs::default() } });
    assert!(matches!(step.action, Action::Transmit { byte: 0x58 }));
    assert!(step.log.is_none());
    let step = vmm.run(Event::Done);
    assert_eq!(
        text(&step),
        Some("rustshyper-vmm: uart out#2 off=0x0 value=0x58 irq_pending=true")
    );
    vmm.run(Event::Done);
    enter(&mut vmm, &[]);
    vmm.run(Event::Exited { run_state: io(0x3fa, true) });
    let step = vmm.run(Event::Regs { regs: VcpuRegs::default() });
    assert_eq!(
        text(&step),
        Some("rustshyper-vmm: uart in#3 off=0x2 value=0x2 irq_pending=false")
    );
}
