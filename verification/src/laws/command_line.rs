//! The command line, flag by flag.
use crate::config;
use crate::config::ArgumentError;
use crate::config::Settings;
use crate::config::VmmConfig;
use crate::error::VmmError;
use crate::text;
use crate::text::NumberError;
use vstd::prelude::*;
use vstd::string::*;

verus! {

/// No two flags are the same.
proof fn lemma_flags_differ()
    ensures
        "--device"@ != "--initrd"@,
        "--device"@ != "--cmdline"@,
        "--device"@ != "--mem-size"@,
        "--device"@ != "--load-addr"@,
        "--device"@ != "--entry"@,
        "--device"@ != "--stack"@,
        "--device"@ != "--vcpus"@,
        "--device"@ != "--idle-cpus"@,
        "--device"@ != "--guest"@,
        "--device"@ != "--help"@,
        "--device"@ != "-h"@,
        "--initrd"@ != "--cmdline"@,
        "--initrd"@ != "--mem-size"@,
        "--initrd"@ != "--load-addr"@,
        "--initrd"@ != "--entry"@,
        "--initrd"@ != "--stack"@,
        "--initrd"@ != "--vcpus"@,
        "--initrd"@ != "--idle-cpus"@,
        "--initrd"@ != "--guest"@,
        "--initrd"@ != "--help"@,
        "--initrd"@ != "-h"@,
        "--cmdline"@ != "--mem-size"@,
        "--cmdline"@ != "--load-addr"@,
        "--cmdline"@ != "--entry"@,
        "--cmdline"@ != "--stack"@,
        "--cmdline"@ != "--vcpus"@,
        "--cmdline"@ != "--idle-cpus"@,
        "--cmdline"@ != "--guest"@,
        "--cmdline"@ != "--help"@,
        "--cmdline"@ != "-h"@,
        "--mem-size"@ != "--load-addr"@,
        "--mem-size"@ != "--entry"@,
        "--mem-size"@ != "--stack"@,
        "--mem-size"@ != "--vcpus"@,
        "--mem-size"@ != "--idle-cpus"@,
        "--mem-size"@ != "--guest"@,
        "--mem-size"@ != "--help"@,
        "--mem-size"@ != "-h"@,
        "--load-addr"@ != "--entry"@,
        "--load-addr"@ != "--stack"@,
        "--load-addr"@ != "--vcpus"@,
        "--load-addr"@ != "--idle-cpus"@,
        "--load-addr"@ != "--guest"@,
        "--load-addr"@ != "--help"@,
        "--load-addr"@ != "-h"@,
        "--entry"@ != "--stack"@,
        "--entry"@ != "--vcpus"@,
        "--entry"@ != "--idle-cpus"@,
        "--entry"@ != "--guest"@,
        "--entry"@ != "--help"@,
        "--entry"@ != "-h"@,
        "--stack"@ != "--vcpus"@,
        "--stack"@ != "--idle-cpus"@,
        "--stack"@ != "--guest"@,
        "--stack"@ != "--help"@,
        "--stack"@ != "-h"@,
        "--vcpus"@ != "--idle-cpus"@,
        "--vcpus"@ != "--guest"@,
        "--vcpus"@ != "--help"@,
        "--vcpus"@ != "-h"@,
        "--idle-cpus"@ != "--guest"@,
        "--idle-cpus"@ != "--help"@,
        "--idle-cpus"@ != "-h"@,
        "--guest"@ != "--help"@,
        "--guest"@ != "-h"@,
        "--help"@ != "-h"@,
{
    reveal_strlit("--device");
    reveal_strlit("--initrd");
    reveal_strlit("--cmdline");
    reveal_strlit("--mem-size");
    reveal_strlit("--load-addr");
    reveal_strlit("--entry");
    reveal_strlit("--stack");
    reveal_strlit("--vcpus");
    reveal_strlit("--idle-cpus");
    reveal_strlit("--guest");
    reveal_strlit("--help");
    reveal_strlit("-h");
    assert("--device"@.len() == 8 && "--device"@[2] == 'd');
    assert("--initrd"@.len() == 8 && "--initrd"@[2] == 'i');
    assert("--cmdline"@.len() == 9 && "--cmdline"@[2] == 'c');
    assert("--mem-size"@.len() == 10 && "--mem-size"@[2] == 'm');
    assert("--load-addr"@.len() == 11 && "--load-addr"@[2] == 'l');
    assert("--entry"@.len() == 7 && "--entry"@[2] == 'e');
    assert("--stack"@.len() == 7 && "--stack"@[2] == 's');
    assert("--vcpus"@.len() == 7 && "--vcpus"@[2] == 'v');
    assert("--idle-cpus"@.len() == 11 && "--idle-cpus"@[2] == 'i');
    assert("--guest"@.len() == 7 && "--guest"@[2] == 'g');
    assert("--help"@.len() == 6 && "--help"@[2] == 'h');
    assert("-h"@.len() == 2);
}

/// A number after `0x` is hexadecimal, and any other is decimal.
pub proof fn law_number_prefix(chars: Seq<char>)
    ensures
        config::number(seq!['0', 'x'] + chars) == text::parse_radix_spec(chars, 16),
        chars.len() < 2 || chars[0] != '0' || chars[1] != 'x' ==> config::number(chars)
            == text::parse_radix_spec(chars, 10),
{
    assert((seq!['0', 'x'] + chars).skip(2) =~= chars);
}

/// What is set before the first argument.
pub proof fn law_usual_settings()
    ensures
        ({
            let s = Settings::initial();
            &&& s.device == "/dev/rustshyper"@
            &&& s.guest is None && s.initrd is None && s.cmdline is None
            &&& s.mem_size == 0x20_0000
            &&& s.load_addr == 0x10_0000
            &&& s.entry_point == 0x10_0000
            &&& s.stack_pointer == 0x1f_f000
            &&& s.vcpu_count == 1
        }),
{
}

/// Each flag sets one thing to the value that follows it, and leaves the rest: texts as they are, and numbers in
/// all 64 bits. A value that is no number is refused where a number is needed.
pub proof fn law_flags(s: Settings, value: Seq<char>)
    ensures
        config::set_flag(s, "--device"@, value) == Ok::<Settings, ArgumentError>(
            Settings { device: value, ..s },
        ),
        config::set_flag(s, "--initrd"@, value) == Ok::<Settings, ArgumentError>(
            Settings { initrd: Some(value), ..s },
        ),
        config::set_flag(s, "--cmdline"@, value) == Ok::<Settings, ArgumentError>(
            Settings { cmdline: Some(value), ..s },
        ),
        ({
            let number = config::number(value);
            &&& number matches Ok(n) ==> config::set_flag(s, "--mem-size"@, value) == Ok::<
                Settings,
                ArgumentError,
            >(Settings { mem_size: n as u64, ..s })
            &&& number matches Err(e) ==> config::set_flag(s, "--mem-size"@, value) == Err::<
                Settings,
                ArgumentError,
            >(ArgumentError::InvalidNumber(e))
            &&& number matches Ok(n) ==> config::set_flag(s, "--load-addr"@, value) == Ok::<
                Settings,
                ArgumentError,
            >(Settings { load_addr: n as u64, ..s })
            &&& number matches Err(e) ==> config::set_flag(s, "--load-addr"@, value) == Err::<
                Settings,
                ArgumentError,
            >(ArgumentError::InvalidNumber(e))
            &&& number matches Ok(n) ==> config::set_flag(s, "--entry"@, value) == Ok::<
                Settings,
                ArgumentError,
            >(Settings { entry_point: n as u64, ..s })
            &&& number matches Err(e) ==> config::set_flag(s, "--entry"@, value) == Err::<
                Settings,
                ArgumentError,
            >(ArgumentError::InvalidNumber(e))
            &&& number matches Ok(n) ==> config::set_flag(s, "--stack"@, value) == Ok::<
                Settings,
                ArgumentError,
            >(Settings { stack_pointer: n as u64, ..s })
            &&& number matches Err(e) ==> config::set_flag(s, "--stack"@, value) == Err::<
                Settings,
                ArgumentError,
            >(ArgumentError::InvalidNumber(e))
            &&& number matches Err(e) ==> config::set_flag(s, "--vcpus"@, value) == Err::<
                Settings,
                ArgumentError,
            >(ArgumentError::InvalidNumber(e))
            &&& number matches Err(e) ==> config::set_flag(s, "--idle-cpus"@, value) == Err::<
                Settings,
                ArgumentError,
            >(ArgumentError::InvalidNumber(e))
        }),
{
    lemma_flags_differ();
}

/// A count of vCPUs is taken as it is, and a count of idle ones as one more, as long as the outcome is between 1
/// and 4294967295.
pub proof fn law_vcpu_flags(s: Settings, value: Seq<char>, n: nat)
    requires
        config::number(value) == Ok::<nat, NumberError>(n),
    ensures
        config::set_flag(s, "--vcpus"@, value) == (if 1 <= n <= 0xffff_ffff {
            Ok::<Settings, ArgumentError>(Settings { vcpu_count: n as u32, ..s })
        } else {
            Err(ArgumentError::VcpuCountOutOfRange)
        }),
        config::set_flag(s, "--idle-cpus"@, value) == (if n <= 0xffff_fffe {
            Ok::<Settings, ArgumentError>(Settings { vcpu_count: (n + 1) as u32, ..s })
        } else {
            Err(ArgumentError::VcpuCountOutOfRange)
        }),
{
    lemma_flags_differ();
}

/// How arguments are read, from the first to the last: a flag takes the argument behind it and reading goes on
/// behind that; a path takes only itself.
pub proof fn law_reading(args: Seq<Seq<char>>, existing: Seq<bool>, i: int, s: Settings)
    requires
        0 <= i < args.len(),
    ensures
        ({
            let arg = args[i];
            let last = i + 1 == args.len();
            let outcome = config::read_args(args, existing, i, s);
            let valued = arg == "--device"@ || arg == "--initrd"@ || arg == "--cmdline"@ || arg
                == "--mem-size"@ || arg == "--load-addr"@ || arg == "--entry"@ || arg == "--stack"@
                || arg == "--vcpus"@ || arg == "--idle-cpus"@;
            let help = arg == "--help"@ || arg == "-h"@;
            let other = !valued && !help && arg != "--guest"@;
            &&& arg == "--guest"@ && last ==> outcome == Ok::<Settings, ArgumentError>(
                Settings { guest: None, ..s },
            )
            &&& arg == "--guest"@ && !last ==> outcome == config::read_args(
                args,
                existing,
                i + 2,
                Settings { guest: Some(args[i + 1]), ..s },
            )
            &&& valued && last ==> outcome == Err::<Settings, ArgumentError>(
                ArgumentError::MissingValue(arg),
            )
            &&& valued && !last ==> outcome == (match config::set_flag(s, arg, args[i + 1]) {
                Ok(next) => config::read_args(args, existing, i + 2, next),
                Err(e) => Err(e),
            })
            &&& help ==> outcome == Err::<Settings, ArgumentError>(ArgumentError::Help)
            &&& other && s.guest is None && i < existing.len() && existing[i] ==> outcome
                == config::read_args(
                args,
                existing,
                i + 1,
                Settings { guest: Some(arg), ..s },
            )
            &&& other && !(s.guest is None && i < existing.len() && existing[i]) ==> outcome
                == Err::<Settings, ArgumentError>(ArgumentError::UnknownArgument(arg))
        }),
        config::read_args(args, existing, args.len() as int, s) == Ok::<Settings, ArgumentError>(s),
{
    lemma_flags_differ();
    if args[i] == "--guest"@ && i + 1 == args.len() {
        let t = Settings { guest: None, ..s };
        assert(config::read_args(args, existing, i + 2, t) == Ok::<Settings, ArgumentError>(t));
    }
}

/// A command line is read from its first argument on, with the usual settings, and must name a guest.
pub proof fn law_command_line(args: Seq<Seq<char>>, existing: Seq<bool>)
    ensures
        config::read_command_line(args, existing) == (match config::read_args(
            args,
            existing,
            0,
            Settings::initial(),
        ) {
            Ok(s) => if s.guest is Some {
                Ok(s)
            } else {
                Err(ArgumentError::MissingGuestPath)
            },
            Err(e) => Err(e),
        }),
{
}

/// A configuration that holds some settings has each of them.
pub proof fn law_configuration(config: VmmConfig, s: Settings)
    requires
        config.holds(s),
    ensures
        config.device_path@ == s.device,
        s.guest matches Some(guest) && config.guest_path@ == guest,
        s.initrd is None <==> config.initrd_path is None,
        s.initrd matches Some(initrd) ==> config.initrd_path->Some_0@ == initrd,
        s.cmdline is None <==> config.cmdline is None,
        s.cmdline matches Some(cmdline) ==> config.cmdline->Some_0@ == cmdline,
        s.mem_size <= usize::MAX ==> config.guest_mem_size == s.mem_size,
        config.load_addr == s.load_addr,
        config.entry_point == s.entry_point,
        config.stack_pointer == s.stack_pointer,
        config.vcpu_count == s.vcpu_count,
{
}

/// An error on the command line is of one sort only, and names what it is about.
pub proof fn law_argument_errors(e: ArgumentError, error: VmmError)
    requires
        e.is(error),
    ensures
        e matches ArgumentError::MissingValue(flag) ==> (error matches VmmError::MissingValue {
            flag: f,
        } && f@ == flag),
        e matches ArgumentError::UnknownArgument(arg) ==> (error matches VmmError::UnknownArgument {
            argument: a,
        } && a@ == arg),
        e matches ArgumentError::InvalidNumber(n) ==> error == (VmmError::InvalidNumber {
            error: n,
        }),
        e is VcpuCountOutOfRange ==> error is VcpuCountOutOfRange,
        e is MissingGuestPath ==> error is MissingGuestPath,
        e is Help ==> error is Help,
{
}

/// An environment variable that is not set says nothing; one that is set holds a decimal number.
pub proof fn law_environment(value: &str, error: VmmError, name: Seq<char>, reason: NumberError)
    ensures
        config::env_number(None) == Ok::<Option<nat>, NumberError>(None),
        text::parse_radix_spec(value@, 10) matches Ok(n) ==> config::env_number(Some(value)) == Ok::<
            Option<nat>,
            NumberError,
        >(Some(n)),
        text::parse_radix_spec(value@, 10) matches Err(e) ==> config::env_number(Some(value))
            == Err::<Option<nat>, NumberError>(e),
        config::is_env_error(error, name, reason) ==> (error matches VmmError::InvalidEnvValue {
            name: n,
            error: e,
        } && n@ == name && e == reason),
{
}

} // verus!
