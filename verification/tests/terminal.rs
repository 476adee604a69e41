use rustshyper_vmm::error::last_words;
use rustshyper_vmm::terminal::{
    keyboard_step, raw_mode, KeyboardRead, KeyboardStep, TerminalFlags, TerminalMode,
};

const FLAGS: TerminalFlags =
    TerminalFlags { canonical: 0x2, echo: 0x8, signals: 0x1, cr_to_nl: 0x100 };

#[test]
fn raw_mode_clears_exactly_its_flags() {
    let mode = TerminalMode { local: 0x8a3b, input: 0x4500, min: 4, time: 9 };
    let raw = raw_mode(mode, &FLAGS);
    assert_eq!(raw.local, 0x8a30);
    assert_eq!(raw.input, 0x4400);
    assert_eq!((raw.min, raw.time), (1, 0));
    let again = raw_mode(raw, &FLAGS);
    assert_eq!((again.local, again.input), (raw.local, raw.input));
}

#[test]
fn keyboard_reads_go_on_until_the_end() {
    assert_eq!(
        keyboard_step(KeyboardRead::Byte { value: 3 }),
        KeyboardStep::Forward { value: 3 }
    );
    assert_eq!(keyboard_step(KeyboardRead::Interrupted), KeyboardStep::Retry);
    assert_eq!(keyboard_step(KeyboardRead::End), KeyboardStep::Finish);
    assert_eq!(keyboard_step(KeyboardRead::Failed), KeyboardStep::Finish);
}

#[test]
fn last_words_depend_on_the_purpose() {
    assert_eq!(last_words(true, "Usage: x"), ("Usage: x".to_string(), true));
    assert_eq!(
        last_words(false, "RSH_RUN failed: gone"),
        ("rustshyper-vmm: RSH_RUN failed: gone".to_string(), false)
    );
}
