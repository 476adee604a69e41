use rustshyper_vmm::diagnostics::{
    dump_current_diagnostics, dump_early_exception_frame, dump_exit_diagnostics,
    dump_guest_code_bytes, dump_guest_qwords, dump_sregs, format_dtable, format_regs,
    format_segment, returned_line,
};
use rustshyper_vmm::ioctl::{RunState, VcpuDtable, VcpuRegs, VcpuSegment, VcpuSregs};
use rustshyper_vmm::segments::linux32_boot_sregs;

fn regs() -> VcpuRegs {
    VcpuRegs {
        rax: 1, rbx: 2, rcx: 3, rdx: 4, rsi: 5, rdi: 6, rbp: 7, rsp: 0x20, r8: 9, r9: 10, r10: 11,
        r11: 12, r12: 13, r13: 14, r14: 0x40, r15: 16, rip: 0x10, rflags: u64::MAX,
    }
}

fn flat() -> VcpuSregs {
    VcpuSregs::default()
}

fn memory() -> Vec<u8> {
    (0..200u32).map(|i| i as u8).collect()
}

#[test]
fn registers_are_listed_in_order() {
    let r = regs();
    assert_eq!(
        format_regs(&r),
        format!(
            "rip={:#x} rsp={:#x} rbp={:#x} rflags={:#x} rax={:#x} rbx={:#x} rcx={:#x} rdx={:#x} \
             rsi={:#x} rdi={:#x} r8={:#x} r9={:#x} r10={:#x} r11={:#x} r12={:#x} r13={:#x} \
             r14={:#x} r15={:#x}",
            r.rip, r.rsp, r.rbp, r.rflags, r.rax, r.rbx, r.rcx, r.rdx, r.rsi, r.rdi, r.r8, r.r9,
            r.r10, r.r11, r.r12, r.r13, r.r14, r.r15
        )
    );
}

#[test]
fn segments_and_tables_are_described() {
    let segment = VcpuSegment {
        base: 0x1000, limit: 0xffff_ffff, selector: 0x10, type_: 0xb, present: 1, dpl: 3, db: 1,
        s: 1, l: 0, g: 1, avl: 2, unusable: 0, padding: 0,
    };
    assert_eq!(
        format_segment(&segment),
        "sel=0x10 base=0x1000 limit=0xffffffff type=0xb p=1 dpl=3 db=1 s=1 l=0 g=1 avl=2 unusable=0"
    );
    let table = VcpuDtable { base: 0x5000, limit: 39, padding: [0; 3] };
    assert_eq!(format_dtable(&table), "base=0x5000 limit=0x27");
}

#[test]
fn special_registers_take_three_lines() {
    let sregs = linux32_boot_sregs();
    let lines = dump_sregs(&sregs);
    assert_eq!(lines.len(), 3);
    assert_eq!(
        lines[0],
        "rustshyper-vmm: control cr0=0x31 cr2=0x0 cr3=0x0 cr4=0x0 efer=0x0 apic_base=0x0"
    );
    assert_eq!(
        lines[1],
        "rustshyper-vmm: tables gdt=base=0x5000 limit=0x27 idt=base=0x0 limit=0x0"
    );
    let s = |segment: &VcpuSegment| format_segment(segment);
    assert_eq!(
        lines[2],
        format!(
            "rustshyper-vmm: segments cs={} ss={} ds={} es={} fs={} gs={} tr={} ldt={}",
            s(&sregs.cs), s(&sregs.ss), s(&sregs.ds), s(&sregs.es), s(&sregs.fs), s(&sregs.gs),
            s(&sregs.tr), s(&sregs.ldt)
        )
    );
}

#[test]
fn code_is_shown_up_to_the_end_of_memory() {
    let memory = memory();
    for rip in [0_u64, 5, 184, 190, 199, 200] {
        let start = rip as usize;
        let end = (start + 16).min(memory.len());
        assert_eq!(
            dump_guest_code_bytes(&memory, &flat(), rip).unwrap(),
            format!(
                "rustshyper-vmm: current code gpa={rip:#x} bytes={:02x?}",
                &memory[start..end]
            )
        );
    }
    assert_eq!(dump_guest_code_bytes(&memory, &flat(), 201), None);
    assert_eq!(dump_guest_code_bytes(&memory, &flat(), u64::MAX), None);
    let paged = VcpuSregs { cr0: 1 << 31, cr3: 0x10_0000, ..flat() };
    assert_eq!(dump_guest_code_bytes(&memory, &paged, 0), None);
}

#[test]
fn words_are_shown_up_to_the_end_of_memory() {
    let memory = memory();
    for (gva, count) in [(0_u64, 2_usize), (8, 0), (184, 4), (193, 1), (200, 3), (3, 100)] {
        let start = gva as usize;
        let end = (start + count * 8).min(memory.len());
        let words: Vec<u64> = memory[start..end]
            .chunks_exact(8)
            .map(|chunk| u64::from_le_bytes(chunk.try_into().unwrap()))
            .collect();
        assert_eq!(
            dump_guest_qwords(&memory, &flat(), "current stack", gva, count).unwrap(),
            format!(
                "rustshyper-vmm: current stack gva={gva:#x} gpa={gva:#x} qwords={words:#x?}"
            )
        );
    }
    assert_eq!(dump_guest_qwords(&memory, &flat(), "x", 201, 1), None);
}

#[test]
fn exception_frames_are_shown_when_they_can_be_read() {
    let memory = memory();
    let at = |offset: usize| u64::from_le_bytes(memory[offset..offset + 8].try_into().unwrap());
    let regs = VcpuRegs { rbx: 8, rbp: 14, ..regs() };
    assert_eq!(
        dump_early_exception_frame(&memory, &flat(), &regs).unwrap(),
        format!(
            "rustshyper-vmm: early-exception frame gva=0x8 vector=0xe qword70={:#x} \
             qword78={:#x} qword80={:#x} qword88={:#x} qword90={:#x} qword98={:#x}",
            at(0x78), at(0x80), at(0x88), at(0x90), at(0x98), at(0xa0)
        )
    );
    let beyond = VcpuRegs { rbx: 41, ..regs };
    assert_eq!(dump_early_exception_frame(&memory, &flat(), &beyond), None);
    // Addresses wrap around.
    let wrapping = VcpuRegs { rbx: u64::MAX - 0x6f, ..regs };
    let line = dump_early_exception_frame(&memory, &flat(), &wrapping).unwrap();
    assert!(line.contains(&format!("qword70={:#x} ", at(0))));
}

#[test]
fn exits_are_reported_with_what_could_be_read() {
    let memory = memory();
    let state = RunState {
        exit_reason: 2, instruction_len: 3, guest_rip: 0x1234, guest_phys_addr: 0x5678,
        exit_qualification: 0x9a, ..RunState::default()
    };
    assert_eq!(
        returned_line(&state),
        "rustshyper-vmm: vcpu.run() returned exit=TRIPLE_FAULT rip=0x1234 len=3 qual=0x9a"
    );
    let first = "rustshyper-vmm: VM exit TRIPLE_FAULT rip=0x1234 instruction_len=3 \
                 qualification=0x9a guest_phys_addr=0x5678";
    let lines = dump_exit_diagnostics(&memory, &state, &Ok(regs()), &Ok(flat()));
    let mut expected = vec![first.to_string(), format!("rustshyper-vmm: regs {}", format_regs(&regs()))];
    expected.extend(dump_sregs(&flat()));
    assert_eq!(lines, expected);
    let lines = dump_exit_diagnostics(
        &memory,
        &state,
        &Err("RSH_GET_REGS failed: gone".to_string()),
        &Err("RSH_GET_SREGS failed: gone".to_string()),
    );
    assert_eq!(
        lines,
        [
            first,
            "rustshyper-vmm: failed to read regs after VM exit: RSH_GET_REGS failed: gone",
            "rustshyper-vmm: failed to read sregs after VM exit: RSH_GET_SREGS failed: gone",
        ]
    );
}

#[test]
fn halts_are_reported_with_the_exception_frame() {
    let memory = memory();
    let state = RunState { exit_reason: 12, ..RunState::default() };
    let lines = dump_exit_diagnostics(&memory, &state, &Ok(regs()), &Ok(flat()));
    assert_eq!(lines.len(), 6);
    assert_eq!(lines[2], dump_early_exception_frame(&memory, &flat(), &regs()).unwrap());
    let lines = dump_exit_diagnostics(&memory, &state, &Ok(regs()), &Err("no".to_string()));
    assert_eq!(lines.len(), 3);
}

#[test]
fn a_running_guest_is_reported_with_code_and_stack() {
    let memory = memory();
    let lines = dump_current_diagnostics(&memory, &Ok(regs()), &Ok(flat()));
    let mut expected = vec![format!("rustshyper-vmm: current regs {}", format_regs(&regs()))];
    expected.push(dump_guest_code_bytes(&memory, &flat(), 0x10).unwrap());
    expected.push(dump_guest_qwords(&memory, &flat(), "current stack", 0x20, 16).unwrap());
    expected.push(dump_guest_qwords(&memory, &flat(), "current r14", 0x40, 32).unwrap());
    expected.extend(dump_sregs(&flat()));
    assert_eq!(lines, expected);
    let far = VcpuRegs { rip: 1 << 40, r14: 1 << 40, ..regs() };
    assert_eq!(dump_current_diagnostics(&memory, &Ok(far), &Ok(flat())).len(), 5);
    assert_eq!(
        dump_current_diagnostics(&memory, &Ok(regs()), &Err("no".to_string())),
        [format!("rustshyper-vmm: current regs {}", format_regs(&regs()))]
    );
    assert_eq!(
        dump_current_diagnostics(&memory, &Err("no".to_string()), &Ok(flat())),
        ["rustshyper-vmm: failed to read current regs: no"]
    );
}
