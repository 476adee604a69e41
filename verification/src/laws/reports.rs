//! What is printed: registers, memory, exits and errors.
use crate::bytes;
use crate::diagnostics;
use crate::error;
use crate::error::ErrorKind;
use crate::error::VmmError;
use crate::ioctl;
use crate::ioctl::RunState;
use crate::ioctl::VcpuDtable;
use crate::ioctl::VcpuRegs;
use crate::ioctl::VcpuSegment;
use crate::ioctl::VcpuSregs;
use crate::paging;
use crate::text;
use crate::text::NumberError;
use vstd::prelude::*;
use vstd::string::*;

verus! {

/// The general registers are listed by name, in hexadecimal.
pub proof fn law_regs_line(regs: VcpuRegs)
    ensures
        diagnostics::regs_text(regs) == "rip="@
            + text::hex_text(regs.rip as nat)
            + " rsp="@
            + text::hex_text(regs.rsp as nat)
            + " rbp="@
            + text::hex_text(regs.rbp as nat)
            + " rflags="@
            + text::hex_text(regs.rflags as nat)
            + " rax="@
            + text::hex_text(regs.rax as nat)
            + " rbx="@
            + text::hex_text(regs.rbx as nat)
            + " rcx="@
            + text::hex_text(regs.rcx as nat)
            + " rdx="@
            + text::hex_text(regs.rdx as nat)
            + " rsi="@
            + text::hex_text(regs.rsi as nat)
            + " rdi="@
            + text::hex_text(regs.rdi as nat)
            + " r8="@
            + text::hex_text(regs.r8 as nat)
            + " r9="@
            + text::hex_text(regs.r9 as nat)
            + " r10="@
            + text::hex_text(regs.r10 as nat)
            + " r11="@
            + text::hex_text(regs.r11 as nat)
            + " r12="@
            + text::hex_text(regs.r12 as nat)
            + " r13="@
            + text::hex_text(regs.r13 as nat)
            + " r14="@
            + text::hex_text(regs.r14 as nat)
            + " r15="@
            + text::hex_text(regs.r15 as nat),
{
    reveal(diagnostics::regs_text);
}

/// A segment register is described by its selector, its extent, its type and its flags.
pub proof fn law_segment_line(segment: VcpuSegment)
    ensures
        diagnostics::segment_text(segment) == "sel="@
            + text::hex_text(segment.selector as nat)
            + " base="@
            + text::hex_text(segment.base as nat)
            + " limit="@
            + text::hex_text(segment.limit as nat)
            + " type="@
            + text::hex_text(segment.type_ as nat)
            + " p="@
            + text::dec_text(segment.present as nat)
            + " dpl="@
            + text::dec_text(segment.dpl as nat)
            + " db="@
            + text::dec_text(segment.db as nat)
            + " s="@
            + text::dec_text(segment.s as nat)
            + " l="@
            + text::dec_text(segment.l as nat)
            + " g="@
            + text::dec_text(segment.g as nat)
            + " avl="@
            + text::dec_text(segment.avl as nat)
            + " unusable="@
            + text::dec_text(segment.unusable as nat),
{
    reveal(diagnostics::segment_text);
}

/// A descriptor table register is described by its extent.
pub proof fn law_table_line(table: VcpuDtable)
    ensures
        diagnostics::dtable_text(table) == "base="@
            + text::hex_text(table.base as nat)
            + " limit="@
            + text::hex_text(table.limit as nat),
{
    reveal(diagnostics::dtable_text);
}

/// The special registers take three lines: control registers, tables, segments.
pub proof fn law_sregs_lines(sregs: VcpuSregs)
    ensures
        diagnostics::sregs_lines(sregs).len() == 3,
        diagnostics::sregs_lines(sregs)[0] == "rustshyper-vmm: control cr0="@
            + text::hex_text(sregs.cr0 as nat)
            + " cr2="@
            + text::hex_text(sregs.cr2 as nat)
            + " cr3="@
            + text::hex_text(sregs.cr3 as nat)
            + " cr4="@
            + text::hex_text(sregs.cr4 as nat)
            + " efer="@
            + text::hex_text(sregs.efer as nat)
            + " apic_base="@
            + text::hex_text(sregs.apic_base as nat),
        diagnostics::sregs_lines(sregs)[1] == "rustshyper-vmm: tables gdt="@
            + diagnostics::dtable_text(sregs.gdt)
            + " idt="@
            + diagnostics::dtable_text(sregs.idt),
        diagnostics::sregs_lines(sregs)[2] == "rustshyper-vmm: segments cs="@
            + diagnostics::segment_text(sregs.cs)
            + " ss="@
            + diagnostics::segment_text(sregs.ss)
            + " ds="@
            + diagnostics::segment_text(sregs.ds)
            + " es="@
            + diagnostics::segment_text(sregs.es)
            + " fs="@
            + diagnostics::segment_text(sregs.fs)
            + " gs="@
            + diagnostics::segment_text(sregs.gs)
            + " tr="@
            + diagnostics::segment_text(sregs.tr)
            + " ldt="@
            + diagnostics::segment_text(sregs.ldt),
{
    reveal(diagnostics::control_text);
    reveal(diagnostics::tables_text);
    reveal(diagnostics::segments_text);
}

/// An exit is described by its name, where the guest was, and its details.
pub proof fn law_exit_lines(run_state: RunState)
    ensures
        diagnostics::returned_text(run_state) == "rustshyper-vmm: vcpu.run() returned exit="@
            + ioctl::exit_reason_text(run_state.exit_reason)
            + " rip="@
            + text::hex_text(run_state.guest_rip as nat)
            + " len="@
            + text::dec_text(run_state.instruction_len as nat)
            + " qual="@
            + text::hex_text(run_state.exit_qualification as nat),
        diagnostics::exit_text(run_state) == "rustshyper-vmm: VM exit "@
            + ioctl::exit_reason_text(run_state.exit_reason)
            + " rip="@
            + text::hex_text(run_state.guest_rip as nat)
            + " instruction_len="@
            + text::dec_text(run_state.instruction_len as nat)
            + " qualification="@
            + text::hex_text(run_state.exit_qualification as nat)
            + " guest_phys_addr="@
            + text::hex_text(run_state.guest_phys_addr as nat),
{
    reveal(diagnostics::returned_text);
    reveal(diagnostics::exit_text);
}

/// A list of bytes or words grows by one item at a time: bytes between commas on one line, words on a line each.
pub proof fn law_lists(data: Seq<u8>, words: Seq<u64>, b: u8, w: u64)
    ensures
        diagnostics::byte_list(Seq::empty()) == "[]"@,
        diagnostics::byte_list(data) == "["@ + diagnostics::byte_items(data, data.len()) + "]"@,
        diagnostics::byte_items(seq![b], 1) == text::byte_text(b),
        data.len() > 0 ==> diagnostics::byte_items(data.push(b), data.len() + 1)
            == diagnostics::byte_items(data, data.len()) + ", "@ + text::byte_text(b),
        diagnostics::word_list(Seq::empty()) == "[]"@,
        words.len() > 0 ==> diagnostics::word_list(words) == "[\n"@ + diagnostics::word_items(
            words,
            words.len(),
        ) + "]"@,
        diagnostics::word_items(words.push(w), words.len() + 1) == diagnostics::word_items(
            words,
            words.len(),
        ) + "    "@ + text::hex_text(w as nat) + ",\n"@,
{
    reveal_strlit("");
    reveal_strlit("[");
    reveal_strlit("]");
    reveal_strlit("[]");
    reveal_with_fuel(diagnostics::byte_items, 2);
    assert(diagnostics::byte_list(Seq::empty()) =~= "[]"@);
    assert(diagnostics::byte_items(seq![b], 1) =~= text::byte_text(b));
    lemma_byte_items(data, b, data.len());
    lemma_word_items(words, w, words.len());
}

proof fn lemma_byte_items(data: Seq<u8>, b: u8, n: nat)
    requires
        n <= data.len(),
    ensures
        diagnostics::byte_items(data.push(b), n) == diagnostics::byte_items(data, n),
    decreases n,
{
    if n > 0 {
        lemma_byte_items(data, b, (n - 1) as nat);
        lemma_byte_items(data, b, 0);
    }
}

proof fn lemma_word_items(words: Seq<u64>, w: u64, n: nat)
    requires
        n <= words.len(),
    ensures
        diagnostics::word_items(words.push(w), n) == diagnostics::word_items(words, n),
    decreases n,
{
    if n > 0 {
        lemma_word_items(words, w, (n - 1) as nat);
    }
}

/// What is shown of memory starts at the address asked for and has the size asked for, but ends with memory.
pub proof fn law_window(memory: Seq<u8>, gpa: u64, size: int, i: int)
    requires
        size >= 0,
    ensures
        ({
            let part = diagnostics::window(memory, gpa, size);
            let rest = memory.len() - gpa;
            &&& part is None <==> rest < 0
            &&& rest >= 0 ==> part->Some_0.len() == (if rest < size {
                rest
            } else {
                size
            })
            &&& 0 <= i < size && i < rest ==> part->Some_0[i] == memory[gpa + i]
        }),
{
}

/// Memory is shown in words of eight bytes each; what is left over is dropped.
pub proof fn law_words(data: Seq<u8>, i: int)
    ensures
        8 * diagnostics::words_of(data).len() <= data.len() < 8 * diagnostics::words_of(data).len()
            + 8,
        0 <= i < diagnostics::words_of(data).len() ==> diagnostics::words_of(data)[i]
            == bytes::u64_at(data, 8 * i),
{
}

/// Code and words are shown where their address can be translated to one within memory: sixteen bytes of code,
/// and as many words as are asked for.
pub proof fn law_memory_lines(
    memory: Seq<u8>,
    sregs: VcpuSregs,
    label: Seq<char>,
    gva: u64,
    count: int,
)
    ensures
        match paging::translated(memory, sregs, gva) {
            Err(_) => diagnostics::code_text(memory, sregs, gva) is None
                && diagnostics::words_text(memory, sregs, label, gva, count) is None,
            Ok(gpa) => {
                &&& diagnostics::code_text(memory, sregs, gva) == (match diagnostics::window(
                    memory,
                    gpa,
                    16,
                ) {
                    Some(data) => Some(
                        "rustshyper-vmm: current code gpa="@ + text::hex_text(gpa as nat)
                            + " bytes="@ + diagnostics::byte_list(data),
                    ),
                    None => None,
                })
                &&& diagnostics::words_text(memory, sregs, label, gva, count) == (
                match diagnostics::window(memory, gpa, 8 * count) {
                    Some(data) => Some(
                        "rustshyper-vmm: "@ + label + " gva="@ + text::hex_text(gva as nat)
                            + " gpa="@ + text::hex_text(gpa as nat) + " qwords="@
                            + diagnostics::word_list(diagnostics::words_of(data)),
                    ),
                    None => None,
                })
            },
        },
{
}

/// The frame of an early exception is six words from 0x70 beyond `rbx` on, counted in 64 bits; it is shown where
/// all of them can be read.
pub proof fn law_exception_line(
    memory: Seq<u8>,
    sregs: VcpuSregs,
    regs: VcpuRegs,
    words: Seq<u64>,
    k: int,
)
    requires
        words.len() == 6,
        0 <= k < 6,
    ensures
        ({
            let sum = regs.rbx + 0x70 + 8 * k;
            let at = if sum < 0x1_0000_0000_0000_0000 {
                sum
            } else {
                sum - 0x1_0000_0000_0000_0000
            };
            &&& diagnostics::frame_word(memory, sregs, regs.rbx, k) == paging::virt_u64(
                memory,
                sregs,
                at as u64,
            )
            &&& paging::virt_u64(memory, sregs, at as u64) is Err ==> diagnostics::exception_text(
                memory,
                sregs,
                regs,
            ) is None
        }),
        (forall|j: int|
            0 <= j < 6 ==> #[trigger] diagnostics::frame_word(memory, sregs, regs.rbx, j) == Ok::<
                u64,
                VmmError,
            >(words[j])) ==> diagnostics::exception_text(memory, sregs, regs) == Some(
            "rustshyper-vmm: early-exception frame gva="@
            + text::hex_text(regs.rbx as nat)
            + " vector="@
            + text::hex_text(regs.rbp as nat)
            + " qword70="@
            + text::hex_text(words[0] as nat)
            + " qword78="@
            + text::hex_text(words[1] as nat)
            + " qword80="@
            + text::hex_text(words[2] as nat)
            + " qword88="@
            + text::hex_text(words[3] as nat)
            + " qword90="@
            + text::hex_text(words[4] as nat)
            + " qword98="@
            + text::hex_text(words[5] as nat),
        ),
{
    reveal(diagnostics::frame_text);
    if forall|j: int|
        0 <= j < 6 ==> #[trigger] diagnostics::frame_word(memory, sregs, regs.rbx, j) == Ok::<
            u64,
            VmmError,
        >(words[j]) {
        assert(Seq::new(
            6,
            |j: int| diagnostics::frame_word(memory, sregs, regs.rbx, j)->Ok_0,
        ) =~= words);
    }
}

/// What is told of the registers after an exit: the general registers or why they could not be read, then the frame
/// of an early exception if the guest halted; and the special registers or why they could not be read.
pub proof fn law_exit_report(
    memory: Seq<u8>,
    run_state: RunState,
    regs: Result<VcpuRegs, String>,
    sregs: Result<VcpuSregs, String>,
)
    ensures
        regs matches Ok(r) ==> diagnostics::exit_regs_report(memory, run_state, regs, sregs)[0]
            == "rustshyper-vmm: regs "@ + diagnostics::regs_text(r),
        regs is Ok && (sregs is Err || run_state.exit_reason != 12)
            ==> diagnostics::exit_regs_report(memory, run_state, regs, sregs).len() == 1,
        regs is Ok && sregs is Ok && run_state.exit_reason == 12 ==> diagnostics::exit_regs_report(
            memory,
            run_state,
            regs,
            sregs,
        ).skip(1) == diagnostics::optional(
            diagnostics::exception_text(memory, sregs->Ok_0, regs->Ok_0),
        ),
        regs matches Err(e) ==> diagnostics::exit_regs_report(memory, run_state, regs, sregs)
            == seq!["rustshyper-vmm: failed to read regs after VM exit: "@ + e@],
        sregs matches Ok(s) ==> diagnostics::exit_sregs_report(sregs) == diagnostics::sregs_lines(s),
        sregs matches Err(e) ==> diagnostics::exit_sregs_report(sregs)
            == seq!["rustshyper-vmm: failed to read sregs after VM exit: "@ + e@],
{
    if let Ok(r) = regs {
        if let Ok(s) = sregs {
            if run_state.exit_reason == 12 {
                assert(diagnostics::exit_regs_report(memory, run_state, regs, sregs).skip(1)
                    =~= diagnostics::optional(diagnostics::exception_text(memory, s, r)));
            }
        }
    }
}

/// What is told of a guest that is stopped for a look at it, in order: its registers, sixteen bytes of code, sixteen
/// words of stack, thirty-two words from where `r14` points, and its special registers.
pub proof fn law_current_report(
    memory: Seq<u8>,
    regs: Result<VcpuRegs, String>,
    sregs: Result<VcpuSregs, String>,
    line: Seq<char>,
)
    ensures
        diagnostics::optional(Some(line)) == seq![line],
        diagnostics::optional(None).len() == 0,
        regs matches Ok(r) ==> sregs matches Ok(s) ==> diagnostics::current_report(
            memory,
            regs,
            sregs,
        ) == seq!["rustshyper-vmm: current regs "@ + diagnostics::regs_text(r)]
            + diagnostics::optional(diagnostics::code_text(memory, s, r.rip))
            + diagnostics::optional(
            diagnostics::words_text(memory, s, "current stack"@, r.rsp, 16),
        ) + diagnostics::optional(diagnostics::words_text(memory, s, "current r14"@, r.r14, 32))
            + diagnostics::sregs_lines(s),
        regs matches Ok(r) ==> sregs is Err ==> diagnostics::current_report(memory, regs, sregs)
            == seq!["rustshyper-vmm: current regs "@ + diagnostics::regs_text(r)],
        regs matches Err(e) ==> diagnostics::current_report(memory, regs, sregs)
            == seq!["rustshyper-vmm: failed to read current regs: "@ + e@],
{
    if let Ok(r) = regs {
        if let Ok(s) = sregs {
            let first = seq!["rustshyper-vmm: current regs "@ + diagnostics::regs_text(r)];
            let code = diagnostics::optional(diagnostics::code_text(memory, s, r.rip));
            let stack = diagnostics::optional(
                diagnostics::words_text(memory, s, "current stack"@, r.rsp, 16),
            );
            let r14 = diagnostics::optional(
                diagnostics::words_text(memory, s, "current r14"@, r.r14, 32),
            );
            let last = diagnostics::sregs_lines(s);
            assert(first + (code + stack + r14 + last) =~= first + code + stack + r14 + last);
        }
    }
}

/// The sort of each error: malformed data, a parameter that is not acceptable, an end on purpose, or anything else.
pub proof fn law_error_kinds(error: VmmError)
    ensures
        error.spec_kind() == ErrorKind::InvalidData <==> error is ImageTooSmall
            || error is InvalidBootFlag || error is InvalidHeaderMagic || error is BootProtocolTooOld
            || error is SetupExceedsImage,
        error.spec_kind() == ErrorKind::Interrupted <==> error is DiagnosticDeadline || error is Help,
        error.spec_kind() == ErrorKind::InvalidInput <==> error is InitrdDoesNotFit
            || error is GuestDataDoesNotFit || error is GuestImageDoesNotFit
            || error is InvalidNumber || error is InvalidEnvValue || error is MissingValue
            || error is UnknownArgument || error is MissingGuestPath || error is VcpuCountOutOfRange,
{
}

/// What is said of each error that carries something.
pub proof fn law_error_texts(error: VmmError)
    ensures
        error matches VmmError::BootProtocolTooOld { version } ==> error.text()
            == "Linux boot protocol "@ + text::hex_text(version as nat)
            + " is too old, need at least "@ + text::hex_text(0x20f),
        error matches VmmError::GuestDataDoesNotFit { guest_addr, size } ==> error.text()
            == "guest data at "@ + text::hex_text(guest_addr as nat) + " with size "@
            + text::hex_text(size as nat) + " does not fit in guest memory"@,
        error matches VmmError::UnhandledExit { reason, rip } ==> error.text()
            == ioctl::exit_reason_text(reason) + " at rip "@ + text::hex_text(rip as nat),
        error matches VmmError::UartAccessWidth { width } ==> error.text()
            == "unsupported UART access width "@ + text::dec_text(width as nat),
        error matches VmmError::GuestAddressOverflow { gpa } ==> error.text()
            == "guest address "@ + text::hex_text(gpa as nat) + " overflows usize"@,
        error matches VmmError::GuestReadOutOfRange { gpa } ==> error.text()
            == "guest read out of range gpa="@ + text::hex_text(gpa as nat),
        error matches VmmError::InvalidNumber { error: e } ==> error.text()
            == text::number_error_text(e),
        error matches VmmError::InvalidEnvValue { name, error: e } ==> error.text()
            == "invalid "@ + name@ + " value: "@ + text::number_error_text(e),
        error matches VmmError::MissingValue { flag } ==> error.text() == "missing value for "@
            + flag@,
        error matches VmmError::UnknownArgument { argument } ==> error.text()
            == "unknown argument: "@ + argument@ + "\n\n"@ + error::usage_text(),
        error is MissingGuestPath ==> error.text() == "missing guest image path\n\n"@
            + error::usage_text(),
        error is Help ==> error.text() == error::usage_text(),
        text::number_error_text(NumberError::Empty) == "cannot parse integer from empty string"@,
        text::number_error_text(NumberError::InvalidDigit) == "invalid digit found in string"@,
        text::number_error_text(NumberError::Overflow)
            == "number too large to fit in target type"@,
{
}

/// What is said of each error that carries nothing.
pub proof fn law_plain_error_texts(error: VmmError)
    ensures
        error is ImageTooSmall ==> error.text()
            == "image is too small to contain a Linux setup header"@,
        error is InvalidBootFlag ==> error.text() == "invalid Linux boot flag"@,
        error is InvalidHeaderMagic ==> error.text() == "invalid Linux setup header magic"@,
        error is SetupExceedsImage ==> error.text() == "bzImage setup sectors exceed image size"@,
        error is InitrdDoesNotFit ==> error.text()
            == "guest memory is too small to place the initrd below initrd_addr_max"@,
        error is GuestImageDoesNotFit ==> error.text()
            == "guest image does not fit in guest memory"@,
        error is DiagnosticDeadline ==> error.text()
            == "rustshyper-vmm diagnostic deadline reached"@,
        error is StringIo ==> error.text()
            == "string or REP-prefixed port I/O exits are not supported yet"@,
        error is GuestReadOverflow ==> error.text() == "guest memory read overflows usize"@,
        error is Pml4EntryNotPresent ==> error.text() == "guest PML4 entry is not present"@,
        error is PdptEntryNotPresent ==> error.text() == "guest PDPT entry is not present"@,
        error is PdEntryNotPresent ==> error.text() == "guest PD entry is not present"@,
        error is PtEntryNotPresent ==> error.text() == "guest PT entry is not present"@,
        error is VcpuCountOutOfRange ==> error.text()
            == "vCPU count must be between 1 and 4294967295"@,
        error is Help ==> error.text()
            == "Usage: rustshyper-vmm --guest <path> [--device /dev/rustshyper] [--initrd <path>] [--cmdline <args>] [--mem-size bytes] [--load-addr addr] [--entry addr] [--stack addr]"@,
{
}

} // verus!
