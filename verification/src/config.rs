//! Settings: the command line, and what the environment asks to trace.
use crate::error::VmmError;
use crate::text;
use crate::text::NumberError;
use vstd::prelude::*;
use vstd::string::*;

verus! {

/// What a virtual machine is to be made of.
#[derive(Debug, Clone)]
pub struct VmmConfig {
    /// The hypervisor device.
    pub device_path: String,
    /// The guest image.
    pub guest_path: String,
    /// The initial RAM disk.
    pub initrd_path: Option<String>,
    /// The kernel's command line, if it is not the usual one.
    pub cmdline: Option<String>,
    /// How much memory the guest has.
    pub guest_mem_size: usize,
    /// Where the image goes.
    pub load_addr: u64,
    /// Where a raw image starts.
    pub entry_point: u64,
    /// Where the stack starts.
    pub stack_pointer: u64,
    /// How many vCPUs the guest has.
    pub vcpu_count: u32,
}

/// What was set so far.
pub struct Settings {
    /// The hypervisor device.
    pub device: Seq<char>,
    /// The guest image, once it was named.
    pub guest: Option<Seq<char>>,
    /// The initial RAM disk.
    pub initrd: Option<Seq<char>>,
    /// The kernel's command line.
    pub cmdline: Option<Seq<char>>,
    /// How much memory the guest has.
    pub mem_size: u64,
    /// Where the image goes.
    pub load_addr: u64,
    /// Where a raw image starts.
    pub entry_point: u64,
    /// Where the stack starts.
    pub stack_pointer: u64,
    /// How many vCPUs the guest has.
    pub vcpu_count: u32,
}

/// Why a command line is refused.
pub enum ArgumentError {
    /// The flag is last but needs a value.
    MissingValue(Seq<char>),
    /// The value is not a number.
    InvalidNumber(NumberError),
    /// The number of vCPUs is zero or does not fit in 32 bits.
    VcpuCountOutOfRange,
    /// The argument is not understood.
    UnknownArgument(Seq<char>),
    /// No guest image was named.
    MissingGuestPath,
    /// Help was asked for.
    Help,
}

impl ArgumentError {
    /// `error` is this error.
    pub open spec fn is(self, error: VmmError) -> bool {
        match self {
            ArgumentError::MissingValue(flag) => error matches VmmError::MissingValue { flag: f }
                && f@ == flag,
            ArgumentError::InvalidNumber(e) => error == (VmmError::InvalidNumber { error: e }),
            ArgumentError::VcpuCountOutOfRange => error == VmmError::VcpuCountOutOfRange,
            ArgumentError::UnknownArgument(argument) => error matches VmmError::UnknownArgument {
                argument: a,
            } && a@ == argument,
            ArgumentError::MissingGuestPath => error == VmmError::MissingGuestPath,
            ArgumentError::Help => error == VmmError::Help,
        }
    }
}

impl Settings {
    /// What holds before the first argument.
    pub open spec fn initial() -> Settings {
        Settings {
            device: "/dev/rustshyper"@,
            guest: None,
            initrd: None,
            cmdline: None,
            mem_size: 0x20_0000,
            load_addr: 0x10_0000,
            entry_point: 0x10_0000,
            stack_pointer: 0x1f_f000,
            vcpu_count: 1,
        }
    }
}

impl VmmConfig {
    /// The configuration holds exactly what `settings` says.
    pub open spec fn holds(self, settings: Settings) -> bool {
        &&& self.device_path@ == settings.device
        &&& settings.guest == Some(self.guest_path@)
        &&& text::text_of(self.initrd_path) == settings.initrd
        &&& text::text_of(self.cmdline) == settings.cmdline
        &&& self.guest_mem_size == settings.mem_size as usize
        &&& self.load_addr == settings.load_addr
        &&& self.entry_point == settings.entry_point
        &&& self.stack_pointer == settings.stack_pointer
        &&& self.vcpu_count == settings.vcpu_count
    }

    /// The usual configuration for a guest image.
    pub fn new(guest_path: String) -> (config: Self)
        ensures
            config.holds(Settings { guest: Some(guest_path@), ..Settings::initial() }),
    {
        VmmConfig {
            device_path: "/dev/rustshyper".to_owned(),
            guest_path,
            initrd_path: None,
            cmdline: None,
            guest_mem_size: 0x20_0000,
            load_addr: 0x10_0000,
            entry_point: 0x10_0000,
            stack_pointer: 0x1f_f000,
            vcpu_count: 1,
        }
    }
}

/// A number is hexadecimal after `0x`, and decimal otherwise.
pub open spec fn number(chars: Seq<char>) -> Result<nat, NumberError> {
    if chars.len() >= 2 && chars[0] == '0' && chars[1] == 'x' {
        text::parse_radix_spec(chars.skip(2), 16)
    } else {
        text::parse_radix_spec(chars, 10)
    }
}

/// Parses a number.
pub fn parse_u64(value: &str) -> (res: Result<u64, VmmError>)
    ensures
        match res {
            Ok(n) => number(value@) == Ok::<nat, NumberError>(n as nat),
            Err(e) => number(value@) is Err && e == (VmmError::InvalidNumber {
                error: number(value@)->Err_0,
            }),
        },
{
    let hex = value.unicode_len() >= 2 && value.get_char(0) == '0' && value.get_char(1) == 'x';
    assert(value@.skip(0) =~= value@);
    let parsed = if hex {
        text::parse_radix(value, 2, 16)
    } else {
        text::parse_radix(value, 0, 10)
    };
    match parsed {
        Ok(n) => Ok(n),
        Err(error) => Err(VmmError::InvalidNumber { error }),
    }
}

/// The flag needs a value, and is refused without one.
pub open spec fn takes_value(flag: Seq<char>) -> bool {
    ||| flag == "--device"@
    ||| flag == "--initrd"@
    ||| flag == "--cmdline"@
    ||| flag == "--mem-size"@
    ||| flag == "--load-addr"@
    ||| flag == "--entry"@
    ||| flag == "--stack"@
    ||| flag == "--vcpus"@
    ||| flag == "--idle-cpus"@
}

/// The number of vCPUs, if `n` is one.
pub open spec fn checked_vcpu_count(n: nat) -> Result<u32, ArgumentError> {
    if 1 <= n <= u32::MAX {
        Ok(n as u32)
    } else {
        Err(ArgumentError::VcpuCountOutOfRange)
    }
}

/// The settings after `flag` was given `value`.
pub open spec fn set_flag(s: Settings, flag: Seq<char>, value: Seq<char>) -> Result<
    Settings,
    ArgumentError,
> {
    if flag == "--device"@ {
        Ok(Settings { device: value, ..s })
    } else if flag == "--initrd"@ {
        Ok(Settings { initrd: Some(value), ..s })
    } else if flag == "--cmdline"@ {
        Ok(Settings { cmdline: Some(value), ..s })
    } else {
        match number(value) {
            Err(e) => Err(ArgumentError::InvalidNumber(e)),
            Ok(n) => if flag == "--mem-size"@ {
                Ok(Settings { mem_size: n as u64, ..s })
            } else if flag == "--load-addr"@ {
                Ok(Settings { load_addr: n as u64, ..s })
            } else if flag == "--entry"@ {
                Ok(Settings { entry_point: n as u64, ..s })
            } else if flag == "--stack"@ {
                Ok(Settings { stack_pointer: n as u64, ..s })
            } else {
                match checked_vcpu_count(
                    if flag == "--vcpus"@ {
                        n
                    } else {
                        n + 1
                    },
                ) {
                    Err(e) => Err(e),
                    Ok(count) => Ok(Settings { vcpu_count: count, ..s }),
                }
            },
        }
    }
}

/// The settings after the arguments from index `i` on. An argument that is no flag names the guest
/// image where none was named before and the argument is the path of an existing file, which
/// `existing` tells of each argument.
pub open spec fn read_args(args: Seq<Seq<char>>, existing: Seq<bool>, i: int, s: Settings) -> Result<
    Settings,
    ArgumentError,
>
    decreases args.len() + 1 - i,
{
    if i < 0 || i >= args.len() {
        Ok(s)
    } else if args[i] == "--guest"@ {
        let guest = if i + 1 < args.len() {
            Some(args[i + 1])
        } else {
            None
        };
        read_args(args, existing, i + 2, Settings { guest, ..s })
    } else if takes_value(args[i]) {
        if i + 1 >= args.len() {
            Err(ArgumentError::MissingValue(args[i]))
        } else {
            match set_flag(s, args[i], args[i + 1]) {
                Err(e) => Err(e),
                Ok(next) => read_args(args, existing, i + 2, next),
            }
        }
    } else if args[i] == "--help"@ || args[i] == "-h"@ {
        Err(ArgumentError::Help)
    } else if s.guest is None && i < existing.len() && existing[i] {
        read_args(args, existing, i + 1, Settings { guest: Some(args[i]), ..s })
    } else {
        Err(ArgumentError::UnknownArgument(args[i]))
    }
}

/// What a command line asks for. A guest image must be named.
pub open spec fn read_command_line(args: Seq<Seq<char>>, existing: Seq<bool>) -> Result<
    Settings,
    ArgumentError,
> {
    match read_args(args, existing, 0, Settings::initial()) {
        Err(e) => Err(e),
        Ok(s) => if s.guest is None {
            Err(ArgumentError::MissingGuestPath)
        } else {
            Ok(s)
        },
    }
}

fn is_flag(arg: &String, flag: &str) -> (yes: bool)
    ensures
        yes == (arg@ == flag@),
{
    *arg == flag.to_owned()
}

/// The value of the flag before index `index`.
pub fn required_arg<'a>(args: &'a [String], index: usize, flag: &str) -> (res: Result<
    &'a str,
    VmmError,
>)
    ensures
        match res {
            Ok(value) => index < args@.len() && value@ == args@[index as int]@,
            Err(e) => index >= args@.len() && ArgumentError::MissingValue(flag@).is(e),
        },
{
    if index < args.len() {
        Ok(args[index].as_str())
    } else {
        Err(VmmError::MissingValue { flag: flag.to_owned() })
    }
}

/// The number that is the value of the flag before index `index`.
fn required_number(args: &[String], index: usize, flag: &str) -> (res: Result<u64, VmmError>)
    ensures
        match res {
            Ok(n) => index < args@.len() && number(args@[index as int]@) == Ok::<nat, NumberError>(
                n as nat,
            ),
            Err(e) => if index >= args@.len() {
                ArgumentError::MissingValue(flag@).is(e)
            } else {
                number(args@[index as int]@) is Err && ArgumentError::InvalidNumber(
                    number(args@[index as int]@)->Err_0,
                ).is(e)
            },
        },
{
    match required_arg(args, index, flag) {
        Ok(value) => parse_u64(value),
        Err(e) => Err(e),
    }
}

/// The settings while the command line is being read.
struct Partial {
    device: String,
    guest: Option<String>,
    initrd: Option<String>,
    cmdline: Option<String>,
    mem_size: u64,
    load_addr: u64,
    entry_point: u64,
    stack_pointer: u64,
    vcpu_count: u32,
}

impl Partial {
    spec fn view(&self) -> Settings {
        Settings {
            device: self.device@,
            guest: text::text_of(self.guest),
            initrd: text::text_of(self.initrd),
            cmdline: text::text_of(self.cmdline),
            mem_size: self.mem_size,
            load_addr: self.load_addr,
            entry_point: self.entry_point,
            stack_pointer: self.stack_pointer,
            vcpu_count: self.vcpu_count,
        }
    }

    fn initial() -> (s: Self)
        ensures
            s@ == Settings::initial(),
    {
        Partial {
            device: "/dev/rustshyper".to_owned(),
            guest: None,
            initrd: None,
            cmdline: None,
            mem_size: 0x20_0000,
            load_addr: 0x10_0000,
            entry_point: 0x10_0000,
            stack_pointer: 0x1f_f000,
            vcpu_count: 1,
        }
    }

    /// Gives the flag at `index` the value that follows it.
    fn set_flag(&mut self, args: &[String], index: usize) -> (res: Result<(), VmmError>)
        requires
            index < args@.len(),
            takes_value(args@[index as int]@),
        ensures
            ({
                let flag = args@[index as int]@;
                if index + 1 >= args@.len() {
                    res is Err && ArgumentError::MissingValue(flag).is(res->Err_0)
                } else {
                    match set_flag(old(self)@, flag, args@[index + 1]@) {
                        Ok(next) => res is Ok && final(self)@ == next,
                        Err(e) => res is Err && e.is(res->Err_0),
                    }
                }
            }),
    {
        let flag = &args[index];
        let next: usize = index + 1;
        if is_flag(flag, "--device") {
            match required_arg(args, next, "--device") {
                Ok(value) => {
                    self.device = value.to_owned();
                },
                Err(e) => {
                    return Err(e);
                },
            }
        } else if is_flag(flag, "--initrd") {
            match required_arg(args, next, "--initrd") {
                Ok(value) => {
                    self.initrd = Some(value.to_owned());
                },
                Err(e) => {
                    return Err(e);
                },
            }
        } else if is_flag(flag, "--cmdline") {
            match required_arg(args, next, "--cmdline") {
                Ok(value) => {
                    self.cmdline = Some(value.to_owned());
                },
                Err(e) => {
                    return Err(e);
                },
            }
        } else if is_flag(flag, "--mem-size") {
            match required_number(args, next, "--mem-size") {
                Ok(n) => {
                    self.mem_size = n;
                },
                Err(e) => {
                    return Err(e);
                },
            }
        } else if is_flag(flag, "--load-addr") {
            match required_number(args, next, "--load-addr") {
                Ok(n) => {
                    self.load_addr = n;
                },
                Err(e) => {
                    return Err(e);
                },
            }
        } else if is_flag(flag, "--entry") {
            match required_number(args, next, "--entry") {
                Ok(n) => {
                    self.entry_point = n;
                },
                Err(e) => {
                    return Err(e);
                },
            }
        } else if is_flag(flag, "--stack") {
            match required_number(args, next, "--stack") {
                Ok(n) => {
                    self.stack_pointer = n;
                },
                Err(e) => {
                    return Err(e);
                },
            }
        } else if is_flag(flag, "--vcpus") {
            match required_number(args, next, "--vcpus") {
                Ok(n) => {
                    if n < 1 || n > u32::MAX as u64 {
                        return Err(VmmError::VcpuCountOutOfRange);
                    }
                    self.vcpu_count = n as u32;
                },
                Err(e) => {
                    return Err(e);
                },
            }
        } else {
            match required_number(args, next, "--idle-cpus") {
                Ok(n) => {
                    if n >= u32::MAX as u64 {
                        return Err(VmmError::VcpuCountOutOfRange);
                    }
                    self.vcpu_count = (n + 1) as u32;
                },
                Err(e) => {
                    return Err(e);
                },
            }
        }
        Ok(())
    }
}

fn flag_takes_value(arg: &String) -> (yes: bool)
    ensures
        yes == takes_value(arg@),
{
    is_flag(arg, "--device") || is_flag(arg, "--initrd") || is_flag(arg, "--cmdline") || is_flag(
        arg,
        "--mem-size",
    ) || is_flag(arg, "--load-addr") || is_flag(arg, "--entry") || is_flag(arg, "--stack")
        || is_flag(arg, "--vcpus") || is_flag(arg, "--idle-cpus")
}

/// Reads a command line, without the program's name. `existing` tells of each argument whether it is
/// the path of an existing file.
pub fn load_config_from_args(args: &[String], existing: &[bool]) -> (res: Result<
    VmmConfig,
    VmmError,
>)
    ensures
        match read_command_line(text::texts(args@), existing@) {
            Ok(s) => res is Ok && res->Ok_0.holds(s),
            Err(e) => res is Err && e.is(res->Err_0),
        },
{
    let mut s = Partial::initial();
    let mut i: usize = 0;
    let ghost t = text::texts(args@);
    assert(args@.len() == args.len());
    while i < args.len()
        invariant
            t == text::texts(args@),
            args@.len() <= usize::MAX,
            read_args(t, existing@, 0, Settings::initial()) == read_args(
                t,
                existing@,
                i as int,
                s@,
            ),
        decreases args@.len() - i,
    {
        let arg = &args[i];
        if is_flag(arg, "--guest") {
            if i + 1 < args.len() {
                s.guest = Some(args[i + 1].as_str().to_owned());
                i = i + 2;
            } else {
                s.guest = None;
                assert(read_args(t, existing@, i + 2, s@) == Ok::<Settings, ArgumentError>(s@));
                i = i + 1;
            }
        } else if flag_takes_value(arg) {
            match s.set_flag(args, i) {
                Ok(()) => {},
                Err(e) => {
                    return Err(e);
                },
            }
            i = i + 2;
        } else if is_flag(arg, "--help") || is_flag(arg, "-h") {
            return Err(VmmError::Help);
        } else if s.guest.is_none() && i < existing.len() && existing[i] {
            s.guest = Some(arg.as_str().to_owned());
            i = i + 1;
        } else {
            return Err(VmmError::UnknownArgument { argument: arg.as_str().to_owned() });
        }
    }
    match s.guest {
        None => Err(VmmError::MissingGuestPath),
        Some(guest_path) => Ok(
            VmmConfig {
                device_path: s.device,
                guest_path,
                initrd_path: s.initrd,
                cmdline: s.cmdline,
                guest_mem_size: s.mem_size as usize,
                load_addr: s.load_addr,
                entry_point: s.entry_point,
                stack_pointer: s.stack_pointer,
                vcpu_count: s.vcpu_count,
            },
        ),
    }
}

/// What an environment variable says: nothing where it is not set, and a decimal number otherwise.
pub open spec fn env_number(value: Option<&str>) -> Result<Option<nat>, NumberError> {
    match value {
        None => Ok(None),
        Some(v) => match text::parse_radix_spec(v@, 10) {
            Ok(n) => Ok(Some(n)),
            Err(e) => Err(e),
        },
    }
}

/// `error` says that the variable `name` holds no number, and why.
pub open spec fn is_env_error(error: VmmError, name: Seq<char>, reason: NumberError) -> bool {
    error matches VmmError::InvalidEnvValue { name: n, error: e } && n@ == name && e == reason
}

/// Reads the environment variable `name`, whose value is `value` where it is set.
pub fn env_u64(name: &str, value: Option<&str>) -> (res: Result<Option<u64>, VmmError>)
    ensures
        match env_number(value) {
            Ok(None) => res == Ok::<Option<u64>, VmmError>(None),
            Ok(Some(n)) => res matches Ok(Some(v)) && v == n,
            Err(e) => res is Err && is_env_error(res->Err_0, name@, e),
        },
{
    match value {
        None => Ok(None),
        Some(v) => {
            assert(v@.skip(0) =~= v@);
            match text::parse_radix(v, 0, 10) {
                Ok(n) => Ok(Some(n)),
                Err(error) => Err(VmmError::InvalidEnvValue { name: name.to_owned(), error }),
            }
        },
    }
}

/// What is to be traced, and when to stop for a diagnostic dump.
#[derive(Debug, Clone, Copy)]
pub struct TraceSettings {
    /// Trace exits that only pass the time.
    pub trace_timers: bool,
    /// Trace accesses to the UART.
    pub trace_uart: bool,
    /// The first UART access to trace.
    pub uart_trace_start: u64,
    /// The last UART access to trace, if there is a last.
    pub uart_trace_end: Option<u64>,
    /// Stop after so many seconds, if ever.
    pub diagnose_after_secs: Option<u64>,
}

impl TraceSettings {
    /// Reads the settings out of the environment: whether each of the two switches is set, and the
    /// values of the three numbers.
    pub fn from_env(
        trace_timers: bool,
        trace_uart: bool,
        start: Option<&str>,
        end: Option<&str>,
        diagnose_after: Option<&str>,
    ) -> (res: Result<Self, VmmError>)
        ensures
            match (env_number(start), env_number(end), env_number(diagnose_after)) {
                (Err(e), _, _) => res is Err && is_env_error(
                    res->Err_0,
                    "RUSTSHYPER_TRACE_UART_START"@,
                    e,
                ),
                (Ok(_), Err(e), _) => res is Err && is_env_error(
                    res->Err_0,
                    "RUSTSHYPER_TRACE_UART_END"@,
                    e,
                ),
                (Ok(_), Ok(_), Err(e)) => res is Err && is_env_error(
                    res->Err_0,
                    "RUSTSHYPER_DIAG_AFTER_SECS"@,
                    e,
                ),
                (Ok(first), Ok(last), Ok(secs)) => res is Ok && res->Ok_0 == (TraceSettings {
                    trace_timers,
                    trace_uart,
                    uart_trace_start: match first {
                        Some(n) => n as u64,
                        None => 1,
                    },
                    uart_trace_end: match last {
                        Some(n) => Some(n as u64),
                        None => None,
                    },
                    diagnose_after_secs: match secs {
                        Some(n) => Some(n as u64),
                        None => None,
                    },
                }),
            },
    {
        let uart_trace_start: u64 = match env_u64("RUSTSHYPER_TRACE_UART_START", start) {
            Ok(Some(n)) => n,
            Ok(None) => 1,
            Err(e) => {
                return Err(e);
            },
        };
        let uart_trace_end = match env_u64("RUSTSHYPER_TRACE_UART_END", end) {
            Ok(n) => n,
            Err(e) => {
                return Err(e);
            },
        };
        let diagnose_after_secs = match env_u64("RUSTSHYPER_DIAG_AFTER_SECS", diagnose_after) {
            Ok(n) => n,
            Err(e) => {
                return Err(e);
            },
        };
        Ok(
            TraceSettings {
                trace_timers,
                trace_uart,
                uart_trace_start,
                uart_trace_end,
                diagnose_after_secs,
            },
        )
    }
}

proof fn lemma_decimal_digits(n: nat)
    ensures
        digits_are_decimal(text::digits(n, 10)),
    decreases n,
{
    if n >= 10 {
        lemma_decimal_digits(n / 10);
    }
}

spec fn digits_are_decimal(chars: Seq<char>) -> bool {
    forall|i: int| 0 <= i < chars.len() ==> '0' <= #[trigger] chars[i] <= '9'
}

/// A number that was formatted, in decimal or in hexadecimal, is parsed to itself.
pub proof fn law_number_round_trip(n: u64)
    ensures
        number(text::dec_text(n as nat)) == Ok::<nat, NumberError>(n as nat),
        number(text::hex_text(n as nat)) == Ok::<nat, NumberError>(n as nat),
{
    reveal_strlit("0x");
    text::law_parse_of_digits(n, 10);
    text::law_parse_of_digits(n, 16);
    lemma_decimal_digits(n as nat);
    assert(text::hex_text(n as nat).skip(2) =~= text::digits(n as nat, 16));
}

/// What is read depends only on the arguments from where reading starts.
proof fn lemma_suffix(
    args: Seq<Seq<char>>,
    others: Seq<Seq<char>>,
    existing: Seq<bool>,
    i: int,
    s: Settings,
)
    requires
        0 <= i,
        args.len() == others.len(),
        forall|j: int| i <= j < args.len() ==> args[j] == others[j],
    ensures
        read_args(args, existing, i, s) == read_args(others, existing, i, s),
    decreases args.len() + 1 - i,
{
    if i < args.len() {
        if args[i] == "--guest"@ {
            let guest = if i + 1 < args.len() {
                Some(args[i + 1])
            } else {
                None
            };
            lemma_suffix(args, others, existing, i + 2, Settings { guest, ..s });
        } else if takes_value(args[i]) {
            if i + 1 < args.len() {
                if let Ok(next) = set_flag(s, args[i], args[i + 1]) {
                    lemma_suffix(args, others, existing, i + 2, next);
                }
            }
        } else if s.guest is None && i < existing.len() && existing[i] {
            lemma_suffix(
                args,
                others,
                existing,
                i + 1,
                Settings { guest: Some(args[i]), ..s },
            );
        }
    }
}

proof fn lemma_vcpu_flags()
    ensures
        takes_value("--vcpus"@),
        takes_value("--idle-cpus"@),
        !takes_value("--guest"@),
        forall|s: Settings, value: Seq<char>| #[trigger]
            set_flag(s, "--vcpus"@, value) == (match number(value) {
                Err(e) => Err(ArgumentError::InvalidNumber(e)),
                Ok(n) => match checked_vcpu_count(n) {
                    Err(e) => Err(e),
                    Ok(count) => Ok(Settings { vcpu_count: count, ..s }),
                },
            }),
        forall|s: Settings, value: Seq<char>| #[trigger]
            set_flag(s, "--idle-cpus"@, value) == (match number(value) {
                Err(e) => Err(ArgumentError::InvalidNumber(e)),
                Ok(n) => match checked_vcpu_count(n + 1) {
                    Err(e) => Err(e),
                    Ok(count) => Ok(Settings { vcpu_count: count, ..s }),
                },
            }),
{
    reveal_strlit("--device");
    reveal_strlit("--initrd");
    reveal_strlit("--cmdline");
    reveal_strlit("--mem-size");
    reveal_strlit("--load-addr");
    reveal_strlit("--entry");
    reveal_strlit("--stack");
    reveal_strlit("--vcpus");
    reveal_strlit("--idle-cpus");
    reveal_strlit("--guest");
    assert("--vcpus"@[2] == 'v');
    assert("--idle-cpus"@[2] == 'i');
    assert("--idle-cpus"@.len() == 11);
    assert("--guest"@[2] == 'g');
}

/// Asking for some number of idle processors asks for one vCPU more, whatever was set before and
/// whatever follows.
pub proof fn law_idle_cpus_is_an_alias(
    args: Seq<Seq<char>>,
    existing: Seq<bool>,
    i: int,
    s: Settings,
    count: Seq<char>,
)
    requires
        0 <= i < args.len() - 1,
        args[i] == "--idle-cpus"@,
        number(args[i + 1]) is Ok,
        number(count) == Ok::<nat, NumberError>(number(args[i + 1])->Ok_0 + 1),
    ensures
        read_args(args, existing, i, s) == read_args(
            args.update(i, "--vcpus"@).update(i + 1, count),
            existing,
            i,
            s,
        ),
{
    let others = args.update(i, "--vcpus"@).update(i + 1, count);
    lemma_vcpu_flags();
    if let Ok(next) = set_flag(s, args[i], args[i + 1]) {
        lemma_suffix(args, others, existing, i + 2, next);
    }
}

/// Where a flag is given twice in a row, the second value counts.
pub proof fn law_last_value_counts(
    args: Seq<Seq<char>>,
    existing: Seq<bool>,
    i: int,
    s: Settings,
)
    requires
        0 <= i < args.len() - 3,
        takes_value(args[i]),
        args[i + 2] == args[i],
        set_flag(s, args[i], args[i + 1]) is Ok,
    ensures
        read_args(args, existing, i, s) == read_args(args, existing, i + 2, s),
{
    reveal_with_fuel(read_args, 2);
    lemma_vcpu_flags();
    assert(set_flag(set_flag(s, args[i], args[i + 1])->Ok_0, args[i], args[i + 3]) == set_flag(
        s,
        args[i],
        args[i + 3],
    ));
}

/// A command line that is accepted names a guest image and asks for at least one vCPU.
pub proof fn law_accepted_command_line(args: Seq<Seq<char>>, existing: Seq<bool>)
    requires
        read_command_line(args, existing) is Ok,
    ensures
        read_command_line(args, existing)->Ok_0.guest is Some,
        read_command_line(args, existing)->Ok_0.vcpu_count >= 1,
{
    lemma_vcpu_count_stays(args, existing, 0, Settings::initial());
}

proof fn lemma_vcpu_count_stays(args: Seq<Seq<char>>, existing: Seq<bool>, i: int, s: Settings)
    requires
        s.vcpu_count >= 1,
    ensures
        read_args(args, existing, i, s) matches Ok(r) ==> r.vcpu_count >= 1,
    decreases args.len() + 1 - i,
{
    if 0 <= i < args.len() {
        if args[i] == "--guest"@ {
            let guest = if i + 1 < args.len() {
                Some(args[i + 1])
            } else {
                None
            };
            lemma_vcpu_count_stays(args, existing, i + 2, Settings { guest, ..s });
        } else if takes_value(args[i]) {
            if i + 1 < args.len() {
                if let Ok(next) = set_flag(s, args[i], args[i + 1]) {
                    lemma_vcpu_count_stays(args, existing, i + 2, next);
                }
            }
        } else if s.guest is None && i < existing.len() && existing[i] {
            lemma_vcpu_count_stays(
                args,
                existing,
                i + 1,
                Settings { guest: Some(args[i]), ..s },
            );
        }
    }
}

} // verus!
