//! The program's surroundings: its keyboard, its environment, and its last words.
use crate::config::TraceSettings;
use crate::error;
use crate::error::VmmError;
use crate::terminal;
use crate::terminal::KeyboardRead;
use crate::terminal::KeyboardStep;
use crate::terminal::TerminalFlags;
use crate::terminal::TerminalMode;
use crate::text;
use vstd::prelude::*;
use vstd::string::*;

verus! {

/// Every byte that is typed is handed on as it is, a signal only delays the next read, and anything else ends
/// the reading.
pub proof fn law_keyboard_steps(read: KeyboardRead, step: KeyboardStep)
    requires
        call_ensures(terminal::keyboard_step, (read,), step),
    ensures
        read matches KeyboardRead::Byte { value } ==> step == (KeyboardStep::Forward { value }),
        step matches KeyboardStep::Forward { value } ==> read == (KeyboardRead::Byte { value }),
        step is Retry <==> read is Interrupted,
        step is Finish <==> read is End || read is Failed,
{
}

/// Raw mode clears the flags that it is about and keeps every other one; and a read waits for one byte, for as
/// long as it takes.
pub proof fn law_raw_mode(mode: TerminalMode, flags: &TerminalFlags, raw: TerminalMode, other: u32)
    requires
        call_ensures(terminal::raw_mode, (mode, flags), raw),
    ensures
        raw.local & flags.canonical == 0,
        raw.local & flags.echo == 0,
        raw.local & flags.signals == 0,
        raw.input & flags.cr_to_nl == 0,
        other & flags.canonical == 0 && other & flags.echo == 0 && other & flags.signals == 0
            ==> raw.local & other == mode.local & other,
        other & flags.cr_to_nl == 0 ==> raw.input & other == mode.input & other,
        raw.min == 1,
        raw.time == 0,
{
    let (l, a, b, c) = (mode.local, flags.canonical, flags.echo, flags.signals);
    assert((l & !(a | b | c)) & a == 0 && (l & !(a | b | c)) & b == 0 && (l & !(a | b | c)) & c == 0
        && (other & a == 0 && other & b == 0 && other & c == 0 ==> (l & !(a | b | c)) & other == l
        & other)) by (bit_vector);
    terminal::law_cleared_flags(mode.input, flags.cr_to_nl, other);
}

/// Where no number is set, tracing starts with the first access, has no end, and no dump is due; the switches
/// are taken as they are.
pub proof fn law_unset_environment(
    timers: bool,
    uart: bool,
    end: Option<&str>,
    secs: Option<&str>,
    res: Result<TraceSettings, VmmError>,
)
    requires
        call_ensures(TraceSettings::from_env, (timers, uart, None::<&str>, end, secs), res),
    ensures
        res matches Ok(t) ==> t.trace_timers == timers && t.trace_uart == uart
            && t.uart_trace_start == 1 && (t.uart_trace_end is None <==> end is None) && (
        t.diagnose_after_secs is None <==> secs is None),
        end is None && secs is None ==> res is Ok,
{
}

/// Where numbers are set in decimal, they are taken in all 64 bits.
pub proof fn law_set_environment(
    timers: bool,
    uart: bool,
    values: (&str, &str, &str),
    numbers: (u64, u64, u64),
    res: Result<TraceSettings, VmmError>,
)
    requires
        call_ensures(
            TraceSettings::from_env,
            (timers, uart, Some(values.0), Some(values.1), Some(values.2)),
            res,
        ),
        values.0@ == text::digits(numbers.0 as nat, 10),
        values.1@ == text::digits(numbers.1 as nat, 10),
        values.2@ == text::digits(numbers.2 as nat, 10),
    ensures
        res == Ok::<TraceSettings, VmmError>(
            TraceSettings {
                trace_timers: timers,
                trace_uart: uart,
                uart_trace_start: numbers.0,
                uart_trace_end: Some(numbers.1),
                diagnose_after_secs: Some(numbers.2),
            },
        ),
{
    text::law_parse_of_digits(numbers.0, 10);
    text::law_parse_of_digits(numbers.1, 10);
    text::law_parse_of_digits(numbers.2, 10);
}

/// The last words on an error are its message, behind the program's name unless it was ended on purpose; and
/// only then does the program end well.
pub proof fn law_last_words(interrupted: bool, message: &str, words: (String, bool))
    requires
        call_ensures(error::last_words, (interrupted, message), words),
    ensures
        words.1 <==> interrupted,
        interrupted ==> words.0@ == message@,
        !interrupted ==> words.0@ == "rustshyper-vmm: "@ + message@,
{
}

} // verus!
