//! The terminal: what raw mode is, and what to do about each read of the keyboard.
use vstd::prelude::*;

verus! {

/// The bits by which the operating system knows what raw mode switches off.
#[derive(Debug, Clone, Copy)]
pub struct TerminalFlags {
    /// Input is handed out line by line.
    pub canonical: u32,
    /// Input is shown.
    pub echo: u32,
    /// Some keys send signals.
    pub signals: u32,
    /// Carriage returns become newlines on input.
    pub cr_to_nl: u32,
}

/// The part of a terminal's mode that raw mode is about.
#[derive(Debug, Clone, Copy)]
pub struct TerminalMode {
    /// The local flags.
    pub local: u32,
    /// The input flags.
    pub input: u32,
    /// How many bytes a read waits for.
    pub min: u8,
    /// How long a read waits for them.
    pub time: u8,
}

/// Raw mode: keys arrive one by one, unshown and as they are.
pub fn raw_mode(mode: TerminalMode, flags: &TerminalFlags) -> (raw: TerminalMode)
    ensures
        raw.local == mode.local & !(flags.canonical | flags.echo | flags.signals),
        raw.input == mode.input & !flags.cr_to_nl,
        raw.min == 1,
        raw.time == 0,
{
    TerminalMode {
        local: mode.local & !(flags.canonical | flags.echo | flags.signals),
        input: mode.input & !flags.cr_to_nl,
        min: 1,
        time: 0,
    }
}

/// Clearing flags clears exactly them, and clearing them again changes nothing.
pub proof fn law_cleared_flags(word: u32, flags: u32, other: u32)
    by (bit_vector)
    ensures
        (word & !flags) & flags == 0,
        other & flags == 0 ==> (word & !flags) & other == word & other,
        (word & !flags) & !flags == word & !flags,
{
}

/// What a read of the keyboard gave.
#[derive(Debug, Clone, Copy)]
pub enum KeyboardRead {
    /// Nothing: the input has ended.
    End,
    /// A byte.
    Byte {
        /// Which.
        value: u8,
    },
    /// Nothing, because a signal came in between.
    Interrupted,
    /// An error.
    Failed,
}

/// What to do after a read of the keyboard.
#[derive(Debug, Clone, Copy, PartialEq, Eq, Structural)]
pub enum KeyboardStep {
    /// Hand the byte on, and read again if someone still takes it.
    Forward {
        /// The byte.
        value: u8,
    },
    /// Read again.
    Retry,
    /// Read no more.
    Finish,
}

/// What to do after a read of the keyboard: a signal is no reason to stop, but an error and the end of
/// the input are.
pub fn keyboard_step(read: KeyboardRead) -> (step: KeyboardStep)
    ensures
        step == (match read {
            KeyboardRead::Byte { value } => KeyboardStep::Forward { value },
            KeyboardRead::Interrupted => KeyboardStep::Retry,
            KeyboardRead::End => KeyboardStep::Finish,
            KeyboardRead::Failed => KeyboardStep::Finish,
        }),
{
    match read {
        KeyboardRead::Byte { value } => KeyboardStep::Forward { value },
        KeyboardRead::Interrupted => KeyboardStep::Retry,
        KeyboardRead::End => KeyboardStep::Finish,
        KeyboardRead::Failed => KeyboardStep::Finish,
    }
}

} // verus!
