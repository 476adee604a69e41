//! Errors, with the kind and the message of each.
use crate::ioctl;
use crate::text;
use crate::text::NumberError;
use vstd::prelude::*;
use vstd::string::*;

verus! {

/// The class an error falls in.
#[derive(Debug, Clone, Copy, PartialEq, Eq, Structural)]
pub enum ErrorKind {
    /// Data that was read is malformed.
    InvalidData,
    /// A parameter is not acceptable.
    InvalidInput,
    /// The operation was ended on purpose.
    Interrupted,
    /// Anything else.
    Other,
}

/// Everything that can go wrong in the library.
#[derive(Debug)]
pub enum VmmError {
    /// The image ends before the setup header does.
    ImageTooSmall,
    /// The boot sector signature is missing.
    InvalidBootFlag,
    /// The setup header signature is missing.
    InvalidHeaderMagic,
    /// The image speaks a boot protocol that is too old.
    BootProtocolTooOld { version: u16 },
    /// The image holds nothing behind its setup sectors.
    SetupExceedsImage,
    /// There is no room for the initrd.
    InitrdDoesNotFit,
    /// A write does not fit in guest memory.
    GuestDataDoesNotFit { guest_addr: u64, size: usize },
    /// A raw guest image does not fit in guest memory.
    GuestImageDoesNotFit,
    /// The time set for a diagnostic dump has come.
    DiagnosticDeadline,
    /// The guest left for a reason that is not handled.
    UnhandledExit { reason: u32, rip: u64 },
    /// The guest used string or repeated port I/O.
    StringIo,
    /// The guest accessed the UART with an unsupported width.
    UartAccessWidth { width: u8 },
    /// A guest physical address is beyond the host's address range.
    GuestAddressOverflow { gpa: u64 },
    /// A guest read ends beyond the host's address range.
    GuestReadOverflow,
    /// A guest read is outside guest memory.
    GuestReadOutOfRange { gpa: u64 },
    /// The walk met an absent level-4 entry.
    Pml4EntryNotPresent,
    /// The walk met an absent level-3 entry.
    PdptEntryNotPresent,
    /// The walk met an absent level-2 entry.
    PdEntryNotPresent,
    /// The walk met an absent level-1 entry.
    PtEntryNotPresent,
    /// An argument is not a number.
    InvalidNumber { error: NumberError },
    /// An environment variable is not a number.
    InvalidEnvValue { name: String, error: NumberError },
    /// A flag is the last argument but needs a value.
    MissingValue { flag: String },
    /// An argument is not understood.
    UnknownArgument { argument: String },
    /// No guest image was named.
    MissingGuestPath,
    /// The number of vCPUs is zero or too large.
    VcpuCountOutOfRange,
    /// Help was asked for.
    Help,
}

/// The command line's synopsis.
pub open spec fn usage_text() -> Seq<char> {
    "Usage: rustshyper-vmm --guest <path> [--device /dev/rustshyper] [--initrd <path>] [--cmdline <args>] [--mem-size bytes] [--load-addr addr] [--entry addr] [--stack addr]"@
}

/// The command line's synopsis.
pub fn usage() -> (text: &'static str)
    ensures
        text@ == usage_text(),
{
    "Usage: rustshyper-vmm --guest <path> [--device /dev/rustshyper] [--initrd <path>] [--cmdline <args>] [--mem-size bytes] [--load-addr addr] [--entry addr] [--stack addr]"
}

impl VmmError {
    /// The class of the error.
    pub open spec fn spec_kind(&self) -> ErrorKind {
        match self {
            VmmError::ImageTooSmall => ErrorKind::InvalidData,
            VmmError::InvalidBootFlag => ErrorKind::InvalidData,
            VmmError::InvalidHeaderMagic => ErrorKind::InvalidData,
            VmmError::BootProtocolTooOld { .. } => ErrorKind::InvalidData,
            VmmError::SetupExceedsImage => ErrorKind::InvalidData,
            VmmError::InitrdDoesNotFit => ErrorKind::InvalidInput,
            VmmError::GuestDataDoesNotFit { .. } => ErrorKind::InvalidInput,
            VmmError::GuestImageDoesNotFit => ErrorKind::InvalidInput,
            VmmError::DiagnosticDeadline => ErrorKind::Interrupted,
            VmmError::InvalidNumber { .. } => ErrorKind::InvalidInput,
            VmmError::InvalidEnvValue { .. } => ErrorKind::InvalidInput,
            VmmError::MissingValue { .. } => ErrorKind::InvalidInput,
            VmmError::UnknownArgument { .. } => ErrorKind::InvalidInput,
            VmmError::MissingGuestPath => ErrorKind::InvalidInput,
            VmmError::VcpuCountOutOfRange => ErrorKind::InvalidInput,
            VmmError::Help => ErrorKind::Interrupted,
            _ => ErrorKind::Other,
        }
    }

    /// The class of the error.
    pub fn kind(&self) -> (kind: ErrorKind)
        ensures
            kind == self.spec_kind(),
    {
        match self {
            VmmError::ImageTooSmall => ErrorKind::InvalidData,
            VmmError::InvalidBootFlag => ErrorKind::InvalidData,
            VmmError::InvalidHeaderMagic => ErrorKind::InvalidData,
            VmmError::BootProtocolTooOld { .. } => ErrorKind::InvalidData,
            VmmError::SetupExceedsImage => ErrorKind::InvalidData,
            VmmError::InitrdDoesNotFit => ErrorKind::InvalidInput,
            VmmError::GuestDataDoesNotFit { .. } => ErrorKind::InvalidInput,
            VmmError::GuestImageDoesNotFit => ErrorKind::InvalidInput,
            VmmError::DiagnosticDeadline => ErrorKind::Interrupted,
            VmmError::InvalidNumber { .. } => ErrorKind::InvalidInput,
            VmmError::InvalidEnvValue { .. } => ErrorKind::InvalidInput,
            VmmError::MissingValue { .. } => ErrorKind::InvalidInput,
            VmmError::UnknownArgument { .. } => ErrorKind::InvalidInput,
            VmmError::MissingGuestPath => ErrorKind::InvalidInput,
            VmmError::VcpuCountOutOfRange => ErrorKind::InvalidInput,
            VmmError::Help => ErrorKind::Interrupted,
            _ => ErrorKind::Other,
        }
    }

    /// What is said of the error.
    pub open spec fn text(&self) -> Seq<char> {
        match self {
            VmmError::ImageTooSmall => "image is too small to contain a Linux setup header"@,
            VmmError::InvalidBootFlag => "invalid Linux boot flag"@,
            VmmError::InvalidHeaderMagic => "invalid Linux setup header magic"@,
            VmmError::BootProtocolTooOld { version } => "Linux boot protocol "@ + text::hex_text(
                *version as nat,
            ) + " is too old, need at least "@ + text::hex_text(0x020f),
            VmmError::SetupExceedsImage => "bzImage setup sectors exceed image size"@,
            VmmError::InitrdDoesNotFit =>
                "guest memory is too small to place the initrd below initrd_addr_max"@,
            VmmError::GuestDataDoesNotFit { guest_addr, size } => "guest data at "@ + text::hex_text(
                *guest_addr as nat,
            ) + " with size "@ + text::hex_text(*size as nat) + " does not fit in guest memory"@,
            VmmError::GuestImageDoesNotFit => "guest image does not fit in guest memory"@,
            VmmError::DiagnosticDeadline => "rustshyper-vmm diagnostic deadline reached"@,
            VmmError::UnhandledExit { reason, rip } => ioctl::exit_reason_text(*reason) + " at rip "@
                + text::hex_text(*rip as nat),
            VmmError::StringIo => "string or REP-prefixed port I/O exits are not supported yet"@,
            VmmError::UartAccessWidth { width } => "unsupported UART access width "@ + text::dec_text(
                *width as nat,
            ),
            VmmError::GuestAddressOverflow { gpa } => "guest address "@ + text::hex_text(*gpa as nat)
                + " overflows usize"@,
            VmmError::GuestReadOverflow => "guest memory read overflows usize"@,
            VmmError::GuestReadOutOfRange { gpa } => "guest read out of range gpa="@ + text::hex_text(
                *gpa as nat,
            ),
            VmmError::Pml4EntryNotPresent => "guest PML4 entry is not present"@,
            VmmError::PdptEntryNotPresent => "guest PDPT entry is not present"@,
            VmmError::PdEntryNotPresent => "guest PD entry is not present"@,
            VmmError::PtEntryNotPresent => "guest PT entry is not present"@,
            VmmError::InvalidNumber { error } => text::number_error_text(*error),
            VmmError::InvalidEnvValue { name, error } => "invalid "@ + name@ + " value: "@
                + text::number_error_text(*error),
            VmmError::MissingValue { flag } => "missing value for "@ + flag@,
            VmmError::UnknownArgument { argument } => "unknown argument: "@ + argument@ + "\n\n"@
                + usage_text(),
            VmmError::MissingGuestPath => "missing guest image path\n\n"@ + usage_text(),
            VmmError::VcpuCountOutOfRange => "vCPU count must be between 1 and 4294967295"@,
            VmmError::Help => usage_text(),
        }
    }

    /// What is said of the error.
    pub fn message(&self) -> (message: String)
        ensures
            message@ == self.text(),
    {
        match self {
            VmmError::ImageTooSmall => "image is too small to contain a Linux setup header".to_owned(),
            VmmError::InvalidBootFlag => "invalid Linux boot flag".to_owned(),
            VmmError::InvalidHeaderMagic => "invalid Linux setup header magic".to_owned(),
            VmmError::BootProtocolTooOld { version } => {
                let mut out = "Linux boot protocol ".to_owned();
                text::push_hex(&mut out, *version as u64);
                out.append(" is too old, need at least ");
                text::push_hex(&mut out, 0x020f);
                out
            },
            VmmError::SetupExceedsImage => "bzImage setup sectors exceed image size".to_owned(),
            VmmError::InitrdDoesNotFit =>
                "guest memory is too small to place the initrd below initrd_addr_max".to_owned(),
            VmmError::GuestDataDoesNotFit { guest_addr, size } => {
                let mut out = "guest data at ".to_owned();
                text::push_hex(&mut out, *guest_addr);
                out.append(" with size ");
                text::push_hex(&mut out, *size as u64);
                out.append(" does not fit in guest memory");
                out
            },
            VmmError::GuestImageDoesNotFit => "guest image does not fit in guest memory".to_owned(),
            VmmError::DiagnosticDeadline => "rustshyper-vmm diagnostic deadline reached".to_owned(),
            VmmError::UnhandledExit { reason, rip } => {
                let mut out = ioctl::exit_reason_name(*reason).to_owned();
                out.append(" at rip ");
                text::push_hex(&mut out, *rip);
                out
            },
            VmmError::StringIo =>
                "string or REP-prefixed port I/O exits are not supported yet".to_owned(),
            VmmError::UartAccessWidth { width } => {
                let mut out = "unsupported UART access width ".to_owned();
                text::push_dec(&mut out, *width as u64);
                out
            },
            VmmError::GuestAddressOverflow { gpa } => {
                let mut out = "guest address ".to_owned();
                text::push_hex(&mut out, *gpa);
                out.append(" overflows usize");
                out
            },
            VmmError::GuestReadOverflow => "guest memory read overflows usize".to_owned(),
            VmmError::GuestReadOutOfRange { gpa } => {
                let mut out = "guest read out of range gpa=".to_owned();
                text::push_hex(&mut out, *gpa);
                out
            },
            VmmError::Pml4EntryNotPresent => "guest PML4 entry is not present".to_owned(),
            VmmError::PdptEntryNotPresent => "guest PDPT entry is not present".to_owned(),
            VmmError::PdEntryNotPresent => "guest PD entry is not present".to_owned(),
            VmmError::PtEntryNotPresent => "guest PT entry is not present".to_owned(),
            VmmError::InvalidNumber { error } => error.message().to_owned(),
            VmmError::InvalidEnvValue { name, error } => {
                let mut out = "invalid ".to_owned();
                out.append(name.as_str());
                out.append(" value: ");
                out.append(error.message());
                out
            },
            VmmError::MissingValue { flag } => {
                let mut out = "missing value for ".to_owned();
                out.append(flag.as_str());
                out
            },
            VmmError::UnknownArgument { argument } => {
                let mut out = "unknown argument: ".to_owned();
                out.append(argument.as_str());
                out.append("\n\n");
                out.append(usage());
                out
            },
            VmmError::MissingGuestPath => {
                let mut out = "missing guest image path\n\n".to_owned();
                out.append(usage());
                out
            },
            VmmError::VcpuCountOutOfRange => "vCPU count must be between 1 and 4294967295".to_owned(),
            VmmError::Help => usage().to_owned(),
        }
    }
}

/// The last words on an error, and whether the program ends well all the same: it does where it was
/// ended on purpose.
pub fn last_words(interrupted: bool, message: &str) -> (words: (String, bool))
    ensures
        words.1 == interrupted,
        words.0@ == (if interrupted {
            message@
        } else {
            "rustshyper-vmm: "@ + message@
        }),
{
    if interrupted {
        (message.to_owned(), true)
    } else {
        let mut out = "rustshyper-vmm: ".to_owned();
        out.append(message);
        (out, false)
    }
}

} // verus!
