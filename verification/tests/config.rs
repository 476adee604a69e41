use rustshyper_vmm::config::{
    env_u64, load_config_from_args, parse_u64, required_arg, TraceSettings, VmmConfig,
};
use rustshyper_vmm::error::{usage, ErrorKind, VmmError};

fn args(list: &[&str]) -> Vec<String> {
    list.iter().map(|arg| arg.to_string()).collect()
}

fn load(list: &[&str]) -> Result<VmmConfig, VmmError> {
    load_config_from_args(&args(list), &vec![false; list.len()])
}

#[test]
fn defaults_are_the_usual_ones() {
    let config = VmmConfig::new("guest.bin".to_string());
    assert_eq!(config.device_path, "/dev/rustshyper");
    assert_eq!(config.guest_path, "guest.bin");
    assert_eq!(config.initrd_path, None);
    assert_eq!(config.cmdline, None);
    assert_eq!(config.guest_mem_size, 0x20_0000);
    assert_eq!(config.load_addr, 0x10_0000);
    assert_eq!(config.entry_point, 0x10_0000);
    assert_eq!(config.stack_pointer, 0x1f_f000);
    assert_eq!(config.vcpu_count, 1);
    let parsed = load(&["--guest", "guest.bin"]).unwrap();
    assert_eq!(format!("{parsed:?}"), format!("{config:?}"));
}

#[test]
fn every_flag_is_understood() {
    let config = load(&[
        "--guest", "./bzImage", "--initrd", "./initramfs.cpio.gz", "--cmdline",
        "console=ttyS0 rdinit=/init", "--mem-size", "0x4000000", "--vcpus", "4", "--device",
        "/dev/other", "--load-addr", "0x200000", "--entry", "2097152", "--stack", "0x300000",
    ])
    .unwrap();
    assert_eq!(config.guest_path, "./bzImage");
    assert_eq!(config.initrd_path.as_deref(), Some("./initramfs.cpio.gz"));
    assert_eq!(config.cmdline.as_deref(), Some("console=ttyS0 rdinit=/init"));
    assert_eq!(config.guest_mem_size, 0x400_0000);
    assert_eq!(config.vcpu_count, 4);
    assert_eq!(config.device_path, "/dev/other");
    assert_eq!(config.load_addr, 0x20_0000);
    assert_eq!(config.entry_point, 0x20_0000);
    assert_eq!(config.stack_pointer, 0x30_0000);
}

#[test]
fn idle_cpus_ask_for_one_more() {
    assert_eq!(load(&["--guest", "g", "--idle-cpus", "3"]).unwrap().vcpu_count, 4);
    assert_eq!(load(&["--guest", "g", "--vcpus", "4"]).unwrap().vcpu_count, 4);
    assert_eq!(load(&["--guest", "g", "--idle-cpus", "0"]).unwrap().vcpu_count, 1);
    assert_eq!(
        load(&["--guest", "g", "--idle-cpus", "0xfffffffe"]).unwrap().vcpu_count,
        u32::MAX
    );
}

#[test]
fn vcpu_counts_are_bounded() {
    for list in [
        ["--vcpus", "0"], ["--vcpus", "4294967296"], ["--idle-cpus", "4294967295"],
        ["--idle-cpus", "18446744073709551615"],
    ] {
        let error = load(&list).unwrap_err();
        assert!(matches!(error, VmmError::VcpuCountOutOfRange));
        assert_eq!(error.kind(), ErrorKind::InvalidInput);
        assert_eq!(error.message(), "vCPU count must be between 1 and 4294967295");
    }
    assert_eq!(load(&["--guest", "g", "--vcpus", "4294967295"]).unwrap().vcpu_count, u32::MAX);
}

#[test]
fn an_existing_file_is_the_guest() {
    let list = args(&["kernel", "--vcpus", "2"]);
    let config = load_config_from_args(&list, &[true, false, false]).unwrap();
    assert_eq!(config.guest_path, "kernel");
    // A second one is not understood, and neither is one that does not exist.
    let list = args(&["kernel", "other"]);
    let error = load_config_from_args(&list, &[true, true]).unwrap_err();
    assert_eq!(error.message(), format!("unknown argument: other\n\n{}", usage()));
    assert_eq!(error.kind(), ErrorKind::InvalidInput);
    let error = load_config_from_args(&list, &[false, true]).unwrap_err();
    assert_eq!(error.message(), format!("unknown argument: kernel\n\n{}", usage()));
    // What is not known to exist does not.
    assert!(load_config_from_args(&list, &[]).is_err());
}

#[test]
fn a_guest_must_be_named() {
    for list in [&[][..], &["--vcpus", "2"], &["--guest"]] {
        let error = load(list).unwrap_err();
        assert!(matches!(error, VmmError::MissingGuestPath));
        assert_eq!(error.kind(), ErrorKind::InvalidInput);
        assert_eq!(error.message(), format!("missing guest image path\n\n{}", usage()));
    }
    // A last flag without a path forgets the guest.
    assert!(matches!(
        load(&["--guest", "a", "--guest"]),
        Err(VmmError::MissingGuestPath)
    ));
    assert_eq!(load(&["--guest", "a", "--guest", "b"]).unwrap().guest_path, "b");
}

#[test]
fn flags_need_their_values() {
    for flag in [
        "--device", "--initrd", "--cmdline", "--mem-size", "--load-addr", "--entry", "--stack",
        "--vcpus", "--idle-cpus",
    ] {
        let error = load(&["--guest", "g", flag]).unwrap_err();
        assert_eq!(error.message(), format!("missing value for {flag}"));
        assert_eq!(error.kind(), ErrorKind::InvalidInput);
    }
    assert_eq!(required_arg(&args(&["a", "b"]), 1, "--x").unwrap(), "b");
    assert_eq!(
        required_arg(&args(&["a"]), 1, "--x").unwrap_err().message(),
        "missing value for --x"
    );
}

#[test]
fn values_are_taken_as_they_are() {
    let config = load(&["--cmdline", "--help", "--guest", "--vcpus"]).unwrap();
    assert_eq!(config.cmdline.as_deref(), Some("--help"));
    assert_eq!(config.guest_path, "--vcpus");
}

#[test]
fn the_last_value_counts() {
    let config = load(&["--guest", "g", "--entry", "1", "--entry", "2"]).unwrap();
    assert_eq!(config.entry_point, 2);
}

#[test]
fn help_ends_the_reading() {
    for list in [&["--help"][..], &["-h"], &["--guest", "g", "-h", "--nonsense"]] {
        let error = load(list).unwrap_err();
        assert!(matches!(error, VmmError::Help));
        assert_eq!(error.kind(), ErrorKind::Interrupted);
        assert_eq!(error.message(), usage());
    }
    assert!(matches!(load(&["--nonsense", "-h"]), Err(VmmError::UnknownArgument { .. })));
}

#[test]
fn numbers_are_decimal_or_hexadecimal() {
    assert_eq!(parse_u64("4096").unwrap(), 4096);
    assert_eq!(parse_u64("0x1000").unwrap(), 4096);
    assert_eq!(parse_u64("0xFfFf").unwrap(), 65535);
    assert_eq!(parse_u64("+5").unwrap(), 5);
    assert_eq!(parse_u64("0x+5").unwrap(), 5);
    assert_eq!(parse_u64("18446744073709551615").unwrap(), u64::MAX);
    assert_eq!(parse_u64("0xffffffffffffffff").unwrap(), u64::MAX);
    for (value, message) in [
        ("", "cannot parse integer from empty string"),
        ("0x", "cannot parse integer from empty string"),
        ("0X10", "invalid digit found in string"),
        ("ff", "invalid digit found in string"),
        ("-1", "invalid digit found in string"),
        ("18446744073709551616", "number too large to fit in target type"),
        ("0x10000000000000000", "number too large to fit in target type"),
    ] {
        let error = parse_u64(value).unwrap_err();
        assert_eq!(error.kind(), ErrorKind::InvalidInput);
        assert_eq!(error.message(), message);
    }
    let error = load(&["--mem-size", "lots"]).unwrap_err();
    assert_eq!(error.message(), "invalid digit found in string");
}

#[test]
fn environment_numbers_are_decimal() {
    assert_eq!(env_u64("X", None).unwrap(), None);
    assert_eq!(env_u64("X", Some("12")).unwrap(), Some(12));
    let error = env_u64("RUSTSHYPER_TRACE_UART_END", Some("0x10")).unwrap_err();
    assert_eq!(error.kind(), ErrorKind::InvalidInput);
    assert_eq!(
        error.message(),
        "invalid RUSTSHYPER_TRACE_UART_END value: invalid digit found in string"
    );
}

#[test]
fn trace_settings_come_from_the_environment() {
    let trace = TraceSettings::from_env(true, false, None, None, None).unwrap();
    assert!(trace.trace_timers);
    assert!(!trace.trace_uart);
    assert_eq!(trace.uart_trace_start, 1);
    assert_eq!(trace.uart_trace_end, None);
    assert_eq!(trace.diagnose_after_secs, None);
    let trace =
        TraceSettings::from_env(false, true, Some("10"), Some("20"), Some("30")).unwrap();
    assert_eq!(trace.uart_trace_start, 10);
    assert_eq!(trace.uart_trace_end, Some(20));
    assert_eq!(trace.diagnose_after_secs, Some(30));
    let message = |start, end, diag| {
        TraceSettings::from_env(true, true, start, end, diag).unwrap_err().message()
    };
    assert!(message(Some("x"), Some("y"), Some("z")).starts_with("invalid RUSTSHYPER_TRACE_UART_START"));
    assert!(message(None, Some("y"), Some("z")).starts_with("invalid RUSTSHYPER_TRACE_UART_END"));
    assert!(message(None, None, Some("z")).starts_with("invalid RUSTSHYPER_DIAG_AFTER_SECS"));
}
