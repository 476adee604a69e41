use rustshyper_vmm::ioctl::{
    exit_reason_name, io, ioc, ior, iow, iowr, AbiSized, DirtyLog, IoExit, RunState, UserMemoryRegion,
    VcpuRegs, VcpuSregs, COM1_BASE, COM1_END, IOC_NONE, IOC_READ, IOC_WRITE, RSH_CHECK_EXTENSION,
    RSH_CREATE_VCPU, RSH_CREATE_VM, RSH_GET_API_VERSION, RSH_GET_DIRTY_LOG, RSH_GET_REGS,
    RSH_GET_SREGS, RSH_INJECT_INTERRUPT, RSH_INJECT_IRQ, RSH_IOC_TYPE, RSH_RUN, RSH_SET_REGS,
    RSH_SET_SREGS, RSH_SET_USER_MEMORY_REGION, VMX_EXIT_REASON_EPT_VIOLATION, VMX_EXIT_REASON_HLT,
    VMX_EXIT_REASON_IO_INSTRUCTION, VMX_EXIT_REASON_PAUSE_INSTRUCTION,
    VMX_EXIT_REASON_TRIPLE_FAULT,
};

#[test]
fn ioctl_numbers_are_stable() {
    assert_eq!(RSH_GET_API_VERSION, 0x4800);
    assert_eq!(RSH_CREATE_VM, 0x4801);
    assert_eq!(RSH_CREATE_VCPU, 0x40044841);
    assert_eq!(RSH_INJECT_IRQ, iow::<u32>(RSH_IOC_TYPE, 0x43));
    assert_eq!(RSH_SET_SREGS, iow::<VcpuSregs>(RSH_IOC_TYPE, 0x84));
    assert_eq!(RSH_INJECT_INTERRUPT, iow::<u32>(RSH_IOC_TYPE, 0x85));
}

#[test]
fn ioctl_numbers_follow_from_their_parts() {
    assert_eq!(RSH_GET_API_VERSION, io(RSH_IOC_TYPE, 0x00));
    assert_eq!(RSH_CREATE_VM, io(RSH_IOC_TYPE, 0x01));
    assert_eq!(RSH_CHECK_EXTENSION, iow::<i32>(RSH_IOC_TYPE, 0x03));
    assert_eq!(RSH_CREATE_VCPU, iow::<u32>(RSH_IOC_TYPE, 0x41));
    assert_eq!(RSH_GET_DIRTY_LOG, iowr::<DirtyLog>(RSH_IOC_TYPE, 0x42));
    assert_eq!(
        RSH_SET_USER_MEMORY_REGION,
        iow::<UserMemoryRegion>(RSH_IOC_TYPE, 0x46)
    );
    assert_eq!(RSH_RUN, ior::<RunState>(RSH_IOC_TYPE, 0x80));
    assert_eq!(RSH_GET_REGS, ior::<VcpuRegs>(RSH_IOC_TYPE, 0x81));
    assert_eq!(RSH_SET_REGS, iow::<VcpuRegs>(RSH_IOC_TYPE, 0x82));
    assert_eq!(RSH_GET_SREGS, ior::<VcpuSregs>(RSH_IOC_TYPE, 0x83));
}

#[test]
fn ioctl_numbers_hold_exact_values() {
    assert_eq!(RSH_IOC_TYPE, b'H');
    assert_eq!(RSH_GET_DIRTY_LOG, 0xc010_4842);
    assert_eq!(RSH_RUN, 0x8050_4880);
    assert_eq!(RSH_SET_REGS, 0x4090_4882);
    assert_eq!(RSH_SET_SREGS, 0x4130_4884);
    assert_eq!(RSH_SET_USER_MEMORY_REGION, 0x4020_4846);
}

#[test]
fn ioctl_fields_do_not_overlap() {
    let number = ioc(IOC_READ | IOC_WRITE, 0xab, 0xcd, 0x1234);
    assert_eq!(number >> 30, 3);
    assert_eq!((number >> 16) & 0x3fff, 0x1234);
    assert_eq!((number >> 8) & 0xff, 0xab);
    assert_eq!(number & 0xff, 0xcd);
    assert_eq!(ioc(IOC_NONE, 0, 0, 0), 0);
    // A size beyond its field spills over.
    assert_eq!(ioc(IOC_NONE, 0, 0, 0x4000), 0x4000_0000);
    assert_eq!(ioc(IOC_NONE, 0, 0, 0x1_0000_0001), 0x1_0000);
}

#[test]
fn abi_sizes_are_exact() {
    assert_eq!(<u32 as AbiSized>::size(), 4);
    assert_eq!(<i32 as AbiSized>::size(), 4);
    assert_eq!(<DirtyLog as AbiSized>::size(), 16);
    assert_eq!(<UserMemoryRegion as AbiSized>::size(), 32);
    assert_eq!(<RunState as AbiSized>::size(), 80);
    assert_eq!(<VcpuRegs as AbiSized>::size(), 144);
    assert_eq!(<VcpuSregs as AbiSized>::size(), 304);
}

#[test]
fn exit_reasons_have_names() {
    assert_eq!(exit_reason_name(VMX_EXIT_REASON_TRIPLE_FAULT), "TRIPLE_FAULT");
    assert_eq!(exit_reason_name(VMX_EXIT_REASON_HLT), "HLT");
    assert_eq!(exit_reason_name(VMX_EXIT_REASON_IO_INSTRUCTION), "IO_INSTRUCTION");
    assert_eq!(exit_reason_name(VMX_EXIT_REASON_PAUSE_INSTRUCTION), "PAUSE_INSTRUCTION");
    assert_eq!(
        exit_reason_name(VMX_EXIT_REASON_EPT_VIOLATION),
        "unhandled VM exit reason"
    );
    assert_eq!(exit_reason_name(999), "unhandled VM exit reason");
}

#[test]
fn qualification_alone_decodes_port_io() {
    // IN of one byte from 0x3fd.
    let state = RunState {
        exit_qualification: (0x3fd << 16) | (1 << 3),
        ..RunState::default()
    };
    assert_eq!(state.io_port(), 0x3fd);
    assert_eq!(state.io_size(), 1);
    assert!(state.io_is_in());
    assert!(!state.io_is_string());
    assert!(!state.io_is_repeat());
    // REP OUTS of four bytes to 0x1f0.
    let state = RunState {
        exit_qualification: (0x1f0 << 16) | (1 << 5) | (1 << 4) | 3,
        ..RunState::default()
    };
    assert_eq!(state.io_port(), 0x1f0);
    assert_eq!(state.io_size(), 4);
    assert!(!state.io_is_in());
    assert!(state.io_is_string());
    assert!(state.io_is_repeat());
}

#[test]
fn details_take_precedence_over_the_qualification() {
    let state = RunState {
        exit_qualification: (0x60 << 16) | 3,
        io: IoExit {
            port: 0x3f8,
            size: 1,
            is_in: 1,
            is_string: 1,
            is_repeat: 1,
            ..IoExit::default()
        },
        ..RunState::default()
    };
    assert_eq!(state.io_port(), 0x3f8);
    assert_eq!(state.io_size(), 1);
    assert!(state.io_is_in());
    assert!(state.io_is_string());
    assert!(state.io_is_repeat());
}

#[test]
fn serial_ports_are_eight() {
    assert_eq!(COM1_BASE, 0x3f8);
    assert_eq!(COM1_END, 0x400);
}
