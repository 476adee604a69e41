use rustshyper_vmm::error::{usage, ErrorKind, VmmError};
use rustshyper_vmm::text::NumberError;

#[test]
fn every_error_has_its_kind_and_its_words() {
    let cases: Vec<(VmmError, ErrorKind, String)> = vec![
        (
            VmmError::ImageTooSmall,
            ErrorKind::InvalidData,
            "image is too small to contain a Linux setup header".to_string(),
        ),
        (
            VmmError::InvalidBootFlag,
            ErrorKind::InvalidData,
            "invalid Linux boot flag".to_string(),
        ),
        (
            VmmError::InvalidHeaderMagic,
            ErrorKind::InvalidData,
            "invalid Linux setup header magic".to_string(),
        ),
        (
            VmmError::UnhandledExit { reason: 48, rip: 0xfff0 },
            ErrorKind::Other,
            "unhandled VM exit reason at rip 0xfff0".to_string(),
        ),
        (
            VmmError::UartAccessWidth { width: 4 },
            ErrorKind::Other,
            "unsupported UART access width 4".to_string(),
        ),
        (
            VmmError::GuestAddressOverflow { gpa: 0x1_0000_0000 },
            ErrorKind::Other,
            "guest address 0x100000000 overflows usize".to_string(),
        ),
        (
            VmmError::InvalidNumber { error: NumberError::Empty },
            ErrorKind::InvalidInput,
            "cannot parse integer from empty string".to_string(),
        ),
        (
            VmmError::InvalidEnvValue { name: "N".to_string(), error: NumberError::Overflow },
            ErrorKind::InvalidInput,
            "invalid N value: number too large to fit in target type".to_string(),
        ),
        (
            VmmError::MissingValue { flag: "--stack".to_string() },
            ErrorKind::InvalidInput,
            "missing value for --stack".to_string(),
        ),
        (VmmError::Help, ErrorKind::Interrupted, usage().to_string()),
    ];
    for (error, kind, message) in cases {
        assert_eq!(error.kind(), kind);
        assert_eq!(error.message(), message);
    }
}

#[test]
fn usage_names_the_flags() {
    assert_eq!(
        usage(),
        "Usage: rustshyper-vmm --guest <path> [--device /dev/rustshyper] [--initrd <path>] \
         [--cmdline <args>] [--mem-size bytes] [--load-addr addr] [--entry addr] [--stack addr]"
    );
}
