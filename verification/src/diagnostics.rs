//! What is said of a guest that stopped: its registers, its code, its stack.
use crate::bytes;
use crate::error::VmmError;
use crate::ioctl;
use crate::ioctl::RunState;
use crate::ioctl::VcpuDtable;
use crate::ioctl::VcpuRegs;
use crate::ioctl::VcpuSegment;
use crate::ioctl::VcpuSregs;
use crate::paging;
use crate::text;
use vstd::prelude::*;
use vstd::string::*;

verus! {

/// The general registers, in hexadecimal.
#[verifier::opaque]
pub open spec fn regs_text(regs: VcpuRegs) -> Seq<char> {
    "rip="@
        + text::hex_text(regs.rip as nat)
        + " rsp="@
        + text::hex_text(regs.rsp as nat)
        + " rbp="@
        + text::hex_text(regs.rbp as nat)
        + " rflags="@
        + text::hex_text(regs.rflags as nat)
        + " rax="@
        + text::hex_text(regs.rax as nat)
        + " rbx="@
        + text::hex_text(regs.rbx as nat)
        + " rcx="@
        + text::hex_text(regs.rcx as nat)
        + " rdx="@
        + text::hex_text(regs.rdx as nat)
        + " rsi="@
        + text::hex_text(regs.rsi as nat)
        + " rdi="@
        + text::hex_text(regs.rdi as nat)
        + " r8="@
        + text::hex_text(regs.r8 as nat)
        + " r9="@
        + text::hex_text(regs.r9 as nat)
        + " r10="@
        + text::hex_text(regs.r10 as nat)
        + " r11="@
        + text::hex_text(regs.r11 as nat)
        + " r12="@
        + text::hex_text(regs.r12 as nat)
        + " r13="@
        + text::hex_text(regs.r13 as nat)
        + " r14="@
        + text::hex_text(regs.r14 as nat)
        + " r15="@
        + text::hex_text(regs.r15 as nat)
}

/// The general registers, in hexadecimal.
pub fn format_regs(regs: &VcpuRegs) -> (out: String)
    ensures
        out@ == regs_text(*regs),
{
    proof {
        reveal(regs_text);
    }
    let mut out = "rip=".to_owned();
    text::push_hex(&mut out, regs.rip);
    out.append(" rsp=");
    text::push_hex(&mut out, regs.rsp);
    out.append(" rbp=");
    text::push_hex(&mut out, regs.rbp);
    out.append(" rflags=");
    text::push_hex(&mut out, regs.rflags);
    out.append(" rax=");
    text::push_hex(&mut out, regs.rax);
    out.append(" rbx=");
    text::push_hex(&mut out, regs.rbx);
    out.append(" rcx=");
    text::push_hex(&mut out, regs.rcx);
    out.append(" rdx=");
    text::push_hex(&mut out, regs.rdx);
    out.append(" rsi=");
    text::push_hex(&mut out, regs.rsi);
    out.append(" rdi=");
    text::push_hex(&mut out, regs.rdi);
    out.append(" r8=");
    text::push_hex(&mut out, regs.r8);
    out.append(" r9=");
    text::push_hex(&mut out, regs.r9);
    out.append(" r10=");
    text::push_hex(&mut out, regs.r10);
    out.append(" r11=");
    text::push_hex(&mut out, regs.r11);
    out.append(" r12=");
    text::push_hex(&mut out, regs.r12);
    out.append(" r13=");
    text::push_hex(&mut out, regs.r13);
    out.append(" r14=");
    text::push_hex(&mut out, regs.r14);
    out.append(" r15=");
    text::push_hex(&mut out, regs.r15);
    out
}

/// A segment register.
#[verifier::opaque]
pub open spec fn segment_text(segment: VcpuSegment) -> Seq<char> {
    "sel="@
        + text::hex_text(segment.selector as nat)
        + " base="@
        + text::hex_text(segment.base as nat)
        + " limit="@
        + text::hex_text(segment.limit as nat)
        + " type="@
        + text::hex_text(segment.type_ as nat)
        + " p="@
        + text::dec_text(segment.present as nat)
        + " dpl="@
        + text::dec_text(segment.dpl as nat)
        + " db="@
        + text::dec_text(segment.db as nat)
        + " s="@
        + text::dec_text(segment.s as nat)
        + " l="@
        + text::dec_text(segment.l as nat)
        + " g="@
        + text::dec_text(segment.g as nat)
        + " avl="@
        + text::dec_text(segment.avl as nat)
        + " unusable="@
        + text::dec_text(segment.unusable as nat)
}

/// A segment register.
pub fn format_segment(segment: &VcpuSegment) -> (out: String)
    ensures
        out@ == segment_text(*segment),
{
    proof {
        reveal(segment_text);
    }
    let mut out = "sel=".to_owned();
    text::push_hex(&mut out, segment.selector as u64);
    out.append(" base=");
    text::push_hex(&mut out, segment.base);
    out.append(" limit=");
    text::push_hex(&mut out, segment.limit as u64);
    out.append(" type=");
    text::push_hex(&mut out, segment.type_ as u64);
    out.append(" p=");
    text::push_dec(&mut out, segment.present as u64);
    out.append(" dpl=");
    text::push_dec(&mut out, segment.dpl as u64);
    out.append(" db=");
    text::push_dec(&mut out, segment.db as u64);
    out.append(" s=");
    text::push_dec(&mut out, segment.s as u64);
    out.append(" l=");
    text::push_dec(&mut out, segment.l as u64);
    out.append(" g=");
    text::push_dec(&mut out, segment.g as u64);
    out.append(" avl=");
    text::push_dec(&mut out, segment.avl as u64);
    out.append(" unusable=");
    text::push_dec(&mut out, segment.unusable as u64);
    out
}

/// A descriptor table register.
#[verifier::opaque]
pub open spec fn dtable_text(table: VcpuDtable) -> Seq<char> {
    "base="@
        + text::hex_text(table.base as nat)
        + " limit="@
        + text::hex_text(table.limit as nat)
}

/// A descriptor table register.
pub fn format_dtable(table: &VcpuDtable) -> (out: String)
    ensures
        out@ == dtable_text(*table),
{
    proof {
        reveal(dtable_text);
    }
    let mut out = "base=".to_owned();
    text::push_hex(&mut out, table.base);
    out.append(" limit=");
    text::push_hex(&mut out, table.limit as u64);
    out
}

/// The control registers.
#[verifier::opaque]
pub open spec fn control_text(sregs: VcpuSregs) -> Seq<char> {
    "rustshyper-vmm: control cr0="@
        + text::hex_text(sregs.cr0 as nat)
        + " cr2="@
        + text::hex_text(sregs.cr2 as nat)
        + " cr3="@
        + text::hex_text(sregs.cr3 as nat)
        + " cr4="@
        + text::hex_text(sregs.cr4 as nat)
        + " efer="@
        + text::hex_text(sregs.efer as nat)
        + " apic_base="@
        + text::hex_text(sregs.apic_base as nat)
}

/// The control registers.
pub fn control_line(sregs: &VcpuSregs) -> (out: String)
    ensures
        out@ == control_text(*sregs),
{
    proof {
        reveal(control_text);
    }
    let mut out = "rustshyper-vmm: control cr0=".to_owned();
    text::push_hex(&mut out, sregs.cr0);
    out.append(" cr2=");
    text::push_hex(&mut out, sregs.cr2);
    out.append(" cr3=");
    text::push_hex(&mut out, sregs.cr3);
    out.append(" cr4=");
    text::push_hex(&mut out, sregs.cr4);
    out.append(" efer=");
    text::push_hex(&mut out, sregs.efer);
    out.append(" apic_base=");
    text::push_hex(&mut out, sregs.apic_base);
    out
}

/// The descriptor table registers.
#[verifier::opaque]
pub open spec fn tables_text(sregs: VcpuSregs) -> Seq<char> {
    "rustshyper-vmm: tables gdt="@
        + dtable_text(sregs.gdt)
        + " idt="@
        + dtable_text(sregs.idt)
}

/// The descriptor table registers.
pub fn tables_line(sregs: &VcpuSregs) -> (out: String)
    ensures
        out@ == tables_text(*sregs),
{
    proof {
        reveal(tables_text);
    }
    let mut out = "rustshyper-vmm: tables gdt=".to_owned();
    out.append(format_dtable(&sregs.gdt).as_str());
    out.append(" idt=");
    out.append(format_dtable(&sregs.idt).as_str());
    out
}

/// The segment registers.
#[verifier::opaque]
pub open spec fn segments_text(sregs: VcpuSregs) -> Seq<char> {
    "rustshyper-vmm: segments cs="@
        + segment_text(sregs.cs)
        + " ss="@
        + segment_text(sregs.ss)
        + " ds="@
        + segment_text(sregs.ds)
        + " es="@
        + segment_text(sregs.es)
        + " fs="@
        + segment_text(sregs.fs)
        + " gs="@
        + segment_text(sregs.gs)
        + " tr="@
        + segment_text(sregs.tr)
        + " ldt="@
        + segment_text(sregs.ldt)
}

/// The segment registers.
pub fn segments_line(sregs: &VcpuSregs) -> (out: String)
    ensures
        out@ == segments_text(*sregs),
{
    proof {
        reveal(segments_text);
    }
    let mut out = "rustshyper-vmm: segments cs=".to_owned();
    out.append(format_segment(&sregs.cs).as_str());
    out.append(" ss=");
    out.append(format_segment(&sregs.ss).as_str());
    out.append(" ds=");
    out.append(format_segment(&sregs.ds).as_str());
    out.append(" es=");
    out.append(format_segment(&sregs.es).as_str());
    out.append(" fs=");
    out.append(format_segment(&sregs.fs).as_str());
    out.append(" gs=");
    out.append(format_segment(&sregs.gs).as_str());
    out.append(" tr=");
    out.append(format_segment(&sregs.tr).as_str());
    out.append(" ldt=");
    out.append(format_segment(&sregs.ldt).as_str());
    out
}

/// The special registers: control, tables and segments, a line each.
pub open spec fn sregs_lines(sregs: VcpuSregs) -> Seq<Seq<char>> {
    seq![control_text(sregs), tables_text(sregs), segments_text(sregs)]
}

/// The special registers: control, tables and segments, a line each.
pub fn dump_sregs(sregs: &VcpuSregs) -> (lines: Vec<String>)
    ensures
        text::texts(lines@) == sregs_lines(*sregs),
{
    let mut lines: Vec<String> = Vec::new();
    lines.push(control_line(sregs));
    lines.push(tables_line(sregs));
    lines.push(segments_line(sregs));
    assert(text::texts(lines@) =~= sregs_lines(*sregs));
    lines
}

/// An exit that ends the run.
#[verifier::opaque]
pub open spec fn returned_text(run_state: RunState) -> Seq<char> {
    "rustshyper-vmm: vcpu.run() returned exit="@
        + ioctl::exit_reason_text(run_state.exit_reason)
        + " rip="@
        + text::hex_text(run_state.guest_rip as nat)
        + " len="@
        + text::dec_text(run_state.instruction_len as nat)
        + " qual="@
        + text::hex_text(run_state.exit_qualification as nat)
}

/// An exit that ends the run.
pub fn returned_line(run_state: &RunState) -> (out: String)
    ensures
        out@ == returned_text(*run_state),
{
    proof {
        reveal(returned_text);
    }
    let mut out = "rustshyper-vmm: vcpu.run() returned exit=".to_owned();
    out.append(ioctl::exit_reason_name(run_state.exit_reason));
    out.append(" rip=");
    text::push_hex(&mut out, run_state.guest_rip);
    out.append(" len=");
    text::push_dec(&mut out, run_state.instruction_len as u64);
    out.append(" qual=");
    text::push_hex(&mut out, run_state.exit_qualification);
    out
}

/// An exit in detail.
#[verifier::opaque]
pub open spec fn exit_text(run_state: RunState) -> Seq<char> {
    "rustshyper-vmm: VM exit "@
        + ioctl::exit_reason_text(run_state.exit_reason)
        + " rip="@
        + text::hex_text(run_state.guest_rip as nat)
        + " instruction_len="@
        + text::dec_text(run_state.instruction_len as nat)
        + " qualification="@
        + text::hex_text(run_state.exit_qualification as nat)
        + " guest_phys_addr="@
        + text::hex_text(run_state.guest_phys_addr as nat)
}

/// An exit in detail.
pub fn exit_line(run_state: &RunState) -> (out: String)
    ensures
        out@ == exit_text(*run_state),
{
    proof {
        reveal(exit_text);
    }
    let mut out = "rustshyper-vmm: VM exit ".to_owned();
    out.append(ioctl::exit_reason_name(run_state.exit_reason));
    out.append(" rip=");
    text::push_hex(&mut out, run_state.guest_rip);
    out.append(" instruction_len=");
    text::push_dec(&mut out, run_state.instruction_len as u64);
    out.append(" qualification=");
    text::push_hex(&mut out, run_state.exit_qualification);
    out.append(" guest_phys_addr=");
    text::push_hex(&mut out, run_state.guest_phys_addr);
    out
}

/// The frame of an exception taken early in the boot: its address, its vector, and six words of it.
#[verifier::opaque]
pub open spec fn frame_text(gva: u64, vector: u64, words: Seq<u64>) -> Seq<char> {
    "rustshyper-vmm: early-exception frame gva="@
        + text::hex_text(gva as nat)
        + " vector="@
        + text::hex_text(vector as nat)
        + " qword70="@
        + text::hex_text(words[0] as nat)
        + " qword78="@
        + text::hex_text(words[1] as nat)
        + " qword80="@
        + text::hex_text(words[2] as nat)
        + " qword88="@
        + text::hex_text(words[3] as nat)
        + " qword90="@
        + text::hex_text(words[4] as nat)
        + " qword98="@
        + text::hex_text(words[5] as nat)
}

/// The frame of an exception taken early in the boot: its address, its vector, and six words of it.
pub fn frame_line(gva: u64, vector: u64, words: &[u64; 6]) -> (out: String)
    ensures
        out@ == frame_text(gva, vector, words@),
{
    proof {
        reveal(frame_text);
    }
    let mut out = "rustshyper-vmm: early-exception frame gva=".to_owned();
    text::push_hex(&mut out, gva);
    out.append(" vector=");
    text::push_hex(&mut out, vector);
    out.append(" qword70=");
    text::push_hex(&mut out, words[0]);
    out.append(" qword78=");
    text::push_hex(&mut out, words[1]);
    out.append(" qword80=");
    text::push_hex(&mut out, words[2]);
    out.append(" qword88=");
    text::push_hex(&mut out, words[3]);
    out.append(" qword90=");
    text::push_hex(&mut out, words[4]);
    out.append(" qword98=");
    text::push_hex(&mut out, words[5]);
    out
}

/// The first `n` of `data` as they stand in a list: two hexadecimal digits each.
pub open spec fn byte_items(data: Seq<u8>, n: nat) -> Seq<char>
    decreases n,
{
    if n == 0 {
        ""@
    } else if n == 1 {
        byte_items(data, 0) + text::byte_text(data[0])
    } else {
        byte_items(data, (n - 1) as nat) + ", "@ + text::byte_text(data[n - 1])
    }
}

/// A list of bytes, on one line.
pub open spec fn byte_list(data: Seq<u8>) -> Seq<char> {
    "["@ + byte_items(data, data.len()) + "]"@
}

/// The first `n` of `words` as they stand in a list: a line each, in hexadecimal.
pub open spec fn word_items(words: Seq<u64>, n: nat) -> Seq<char>
    decreases n,
{
    if n == 0 {
        ""@
    } else {
        word_items(words, (n - 1) as nat) + "    "@ + text::hex_text(words[n - 1] as nat) + ",\n"@
    }
}

/// A list of words, on a line each.
pub open spec fn word_list(words: Seq<u64>) -> Seq<char> {
    if words.len() == 0 {
        "[]"@
    } else {
        "[\n"@ + word_items(words, words.len()) + "]"@
    }
}

fn push_byte_list(out: &mut String, data: &[u8])
    ensures
        final(out)@ == old(out)@ + byte_list(data@),
{
    let mut items = "".to_owned();
    let mut i: usize = 0;
    while i < data.len()
        invariant
            i <= data@.len(),
            items@ == byte_items(data@, i as nat),
        decreases data@.len() - i,
    {
        if i > 0 {
            items.append(", ");
        }
        text::push_byte(&mut items, data[i]);
        i = i + 1;
    }
    out.append("[");
    out.append(items.as_str());
    out.append("]");
    assert(out@ =~= old(out)@ + byte_list(data@));
}

fn push_word_list(out: &mut String, words: &[u64])
    ensures
        final(out)@ == old(out)@ + word_list(words@),
{
    if words.len() == 0 {
        out.append("[]");
        return ;
    }
    let mut items = "".to_owned();
    let mut i: usize = 0;
    while i < words.len()
        invariant
            i <= words@.len(),
            items@ == word_items(words@, i as nat),
        decreases words@.len() - i,
    {
        items.append("    ");
        text::push_hex(&mut items, words[i]);
        items.append(",\n");
        i = i + 1;
    }
    out.append("[\n");
    out.append(items.as_str());
    out.append("]");
    assert(out@ =~= old(out)@ + word_list(words@));
}

/// At most `size` bytes of `memory` from `gpa` on, if that is not beyond its end.
pub open spec fn window(memory: Seq<u8>, gpa: u64, size: int) -> Option<Seq<u8>> {
    if gpa > memory.len() {
        None
    } else if gpa + size < memory.len() {
        Some(memory.subrange(gpa as int, gpa + size))
    } else {
        Some(memory.skip(gpa as int))
    }
}

/// The eight-byte numbers that `data` is made of; what is left over at the end is dropped.
pub open spec fn words_of(data: Seq<u8>) -> Seq<u64> {
    Seq::new(data.len() / 8, |i: int| bytes::u64_at(data, 8 * i))
}

fn guest_window<'a>(memory: &'a [u8], gpa: u64, size: usize) -> (part: Option<&'a [u8]>)
    ensures
        match part {
            Some(data) => window(memory@, gpa, size as int) == Some(data@),
            None => window(memory@, gpa, size as int) is None,
        },
{
    let len: usize = memory.len();
    if gpa > len as u64 {
        return None;
    }
    let start: usize = gpa as usize;
    let end: usize = if size < len - start {
        start + size
    } else {
        len
    };
    let part = &memory[start..end];
    proof {
        if start + size >= len {
            assert(part@ =~= memory@.skip(start as int));
        }
    }
    Some(part)
}

fn read_words(data: &[u8]) -> (words: Vec<u64>)
    ensures
        words@ == words_of(data@),
{
    let mut words: Vec<u64> = Vec::new();
    let count: usize = data.len() / 8;
    let mut i: usize = 0;
    assert(data@.len() == data.len());
    while i < count
        invariant
            i <= count,
            count == data@.len() / 8,
            data@.len() <= usize::MAX,
            words@ == words_of(data@).take(i as int),
        decreases count - i,
    {
        words.push(bytes::read_u64(data, i * 8));
        i = i + 1;
        assert(words@ =~= words_of(data@).take(i as int));
    }
    assert(words@ =~= words_of(data@));
    words
}

/// The code at `rip`, if it can be read.
pub open spec fn code_text(memory: Seq<u8>, sregs: VcpuSregs, rip: u64) -> Option<Seq<char>> {
    match paging::translated(memory, sregs, rip) {
        Err(_) => None,
        Ok(gpa) => match window(memory, gpa, 16) {
            None => None,
            Some(data) => Some(
                "rustshyper-vmm: current code gpa="@ + text::hex_text(gpa as nat) + " bytes="@
                    + byte_list(data),
            ),
        },
    }
}

/// The code at `rip`, if it can be read.
pub fn dump_guest_code_bytes(memory: &[u8], sregs: &VcpuSregs, rip: u64) -> (line: Option<String>)
    ensures
        text::text_of(line) == code_text(memory@, *sregs, rip),
{
    let gpa: u64 = match paging::translate_guest_addr(memory, sregs, rip) {
        Ok(gpa) => gpa,
        Err(_) => {
            return None;
        },
    };
    match guest_window(memory, gpa, 16) {
        None => None,
        Some(data) => {
            let mut out = "rustshyper-vmm: current code gpa=".to_owned();
            text::push_hex(&mut out, gpa);
            out.append(" bytes=");
            push_byte_list(&mut out, data);
            Some(out)
        },
    }
}

/// At most `count` words at `gva`, if they can be read.
pub open spec fn words_text(
    memory: Seq<u8>,
    sregs: VcpuSregs,
    label: Seq<char>,
    gva: u64,
    count: int,
) -> Option<Seq<char>> {
    match paging::translated(memory, sregs, gva) {
        Err(_) => None,
        Ok(gpa) => match window(memory, gpa, 8 * count) {
            None => None,
            Some(data) => Some(
                "rustshyper-vmm: "@ + label + " gva="@ + text::hex_text(gva as nat) + " gpa="@
                    + text::hex_text(gpa as nat) + " qwords="@ + word_list(words_of(data)),
            ),
        },
    }
}

/// At most `count` words at `gva`, if they can be read.
pub fn dump_guest_qwords(
    memory: &[u8],
    sregs: &VcpuSregs,
    label: &str,
    gva: u64,
    count: usize,
) -> (line: Option<String>)
    requires
        8 * count <= usize::MAX,
    ensures
        text::text_of(line) == words_text(memory@, *sregs, label@, gva, count as int),
{
    let gpa: u64 = match paging::translate_guest_addr(memory, sregs, gva) {
        Ok(gpa) => gpa,
        Err(_) => {
            return None;
        },
    };
    match guest_window(memory, gpa, count * 8) {
        None => None,
        Some(data) => {
            let words = read_words(data);
            let mut out = "rustshyper-vmm: ".to_owned();
            out.append(label);
            out.append(" gva=");
            text::push_hex(&mut out, gva);
            out.append(" gpa=");
            text::push_hex(&mut out, gpa);
            out.append(" qwords=");
            push_word_list(&mut out, &words);
            Some(out)
        },
    }
}

/// Word `k` of the part of an early exception's frame at `gva` that is of interest.
pub open spec fn frame_word(memory: Seq<u8>, sregs: VcpuSregs, gva: u64, k: int) -> Result<
    u64,
    VmmError,
> {
    paging::virt_u64(
        memory,
        sregs,
        ((gva + 0x70 + 8 * k) % 0x1_0000_0000_0000_0000) as u64,
    )
}

/// The frame of an early exception, whose address is in `rbx` and whose vector is in `rbp`, if all
/// of it can be read.
pub open spec fn exception_text(memory: Seq<u8>, sregs: VcpuSregs, regs: VcpuRegs) -> Option<
    Seq<char>,
> {
    if forall|k: int| 0 <= k < 6 ==> #[trigger] frame_word(memory, sregs, regs.rbx, k) is Ok {
        Some(
            frame_text(
                regs.rbx,
                regs.rbp,
                Seq::new(6, |k: int| frame_word(memory, sregs, regs.rbx, k)->Ok_0),
            ),
        )
    } else {
        None
    }
}

/// The frame of an early exception, if all of it can be read.
pub fn dump_early_exception_frame(memory: &[u8], sregs: &VcpuSregs, regs: &VcpuRegs) -> (line:
    Option<String>)
    ensures
        text::text_of(line) == exception_text(memory@, *sregs, *regs),
{
    let frame_gva: u64 = regs.rbx;
    let mut words: [u64; 6] = [0;6];
    let mut offset: u64 = 0x70;
    let mut k: usize = 0;
    while k < 6
        invariant
            k <= 6,
            offset == 0x70 + 8 * k,
            frame_gva == regs.rbx,
            forall|j: int|
                0 <= j < k ==> #[trigger] frame_word(memory@, *sregs, frame_gva, j) == Ok::<
                    u64,
                    VmmError,
                >(words@[j]),
        decreases 6 - k,
    {
        match paging::read_guest_u64(memory, sregs, frame_gva.wrapping_add(offset)) {
            Ok(value) => {
                words[k] = value;
            },
            Err(_) => {
                assert(frame_word(memory@, *sregs, frame_gva, k as int) is Err);
                return None;
            },
        }
        offset = offset + 8;
        k = k + 1;
    }
    assert(words@ =~= Seq::new(6, |k: int| frame_word(memory@, *sregs, regs.rbx, k)->Ok_0));
    Some(frame_line(frame_gva, regs.rbp, &words))
}

/// A line, if there is one.
pub open spec fn optional(line: Option<Seq<char>>) -> Seq<Seq<char>> {
    match line {
        Some(line) => seq![line],
        None => Seq::empty(),
    }
}

fn push_optional(lines: &mut Vec<String>, line: Option<String>)
    ensures
        text::texts(final(lines)@) == text::texts(old(lines)@) + optional(text::text_of(line)),
{
    match line {
        Some(line) => {
            lines.push(line);
        },
        None => {},
    }
    assert(text::texts(lines@) =~= text::texts(old(lines)@) + optional(text::text_of(line)));
}

fn push_line(lines: &mut Vec<String>, line: String)
    ensures
        text::texts(final(lines)@) == text::texts(old(lines)@) + seq![line@],
{
    lines.push(line);
    assert(text::texts(lines@) =~= text::texts(old(lines)@) + seq![line@]);
}

fn push_lines(lines: &mut Vec<String>, more: Vec<String>)
    ensures
        text::texts(final(lines)@) == text::texts(old(lines)@) + text::texts(more@),
{
    let mut more = more;
    let ghost added = more@;
    lines.append(&mut more);
    assert(text::texts(lines@) =~= text::texts(old(lines)@) + text::texts(added));
}

fn labelled(label: &str, rest: &str) -> (line: String)
    ensures
        line@ == label@ + rest@,
{
    let mut line = label.to_owned();
    line.append(rest);
    line
}

/// What is said of the general registers after an exit. The frame of an early exception is shown
/// where the guest halted.
pub open spec fn exit_regs_report(
    memory: Seq<u8>,
    run_state: RunState,
    regs: Result<VcpuRegs, String>,
    sregs: Result<VcpuSregs, String>,
) -> Seq<Seq<char>> {
    match regs {
        Ok(regs) => seq!["rustshyper-vmm: regs "@ + regs_text(regs)] + optional(
            if run_state.exit_reason == ioctl::VMX_EXIT_REASON_HLT && sregs is Ok {
                exception_text(memory, sregs->Ok_0, regs)
            } else {
                None
            },
        ),
        Err(e) => seq!["rustshyper-vmm: failed to read regs after VM exit: "@ + e@],
    }
}

/// What is said of the special registers after an exit.
pub open spec fn exit_sregs_report(sregs: Result<VcpuSregs, String>) -> Seq<Seq<char>> {
    match sregs {
        Ok(sregs) => sregs_lines(sregs),
        Err(e) => seq!["rustshyper-vmm: failed to read sregs after VM exit: "@ + e@],
    }
}

/// What is said of an exit that ends the run. Registers that could not be read are given by the
/// reason.
pub fn dump_exit_diagnostics(
    memory: &[u8],
    run_state: &RunState,
    regs: &Result<VcpuRegs, String>,
    sregs: &Result<VcpuSregs, String>,
) -> (lines: Vec<String>)
    ensures
        text::texts(lines@) == seq![exit_text(*run_state)] + exit_regs_report(
            memory@,
            *run_state,
            *regs,
            *sregs,
        ) + exit_sregs_report(*sregs),
{
    let mut lines: Vec<String> = Vec::new();
    push_line(&mut lines, exit_line(run_state));
    assert(text::texts(lines@) =~= seq![exit_text(*run_state)]);
    let ghost before = text::texts(lines@);
    match regs {
        Ok(regs) => {
            push_line(&mut lines, labelled("rustshyper-vmm: regs ", format_regs(regs).as_str()));
            if run_state.exit_reason == ioctl::VMX_EXIT_REASON_HLT {
                match sregs {
                    Ok(sregs) => {
                        push_optional(&mut lines, dump_early_exception_frame(memory, sregs, regs));
                    },
                    Err(_) => {},
                }
            }
        },
        Err(e) => {
            push_line(
                &mut lines,
                labelled("rustshyper-vmm: failed to read regs after VM exit: ", e.as_str()),
            );
        },
    }
    assert(text::texts(lines@) =~= before + exit_regs_report(memory@, *run_state, *regs, *sregs));
    match sregs {
        Ok(sregs) => {
            push_lines(&mut lines, dump_sregs(sregs));
        },
        Err(e) => {
            push_line(
                &mut lines,
                labelled("rustshyper-vmm: failed to read sregs after VM exit: ", e.as_str()),
            );
        },
    }
    lines
}

/// What is said of a guest that is stopped for a look at it: its registers, its code, its stack, and
/// what `r14` points to.
pub open spec fn current_report(
    memory: Seq<u8>,
    regs: Result<VcpuRegs, String>,
    sregs: Result<VcpuSregs, String>,
) -> Seq<Seq<char>> {
    match regs {
        Ok(regs) => seq!["rustshyper-vmm: current regs "@ + regs_text(regs)] + (match sregs {
            Ok(sregs) => optional(code_text(memory, sregs, regs.rip)) + optional(
                words_text(memory, sregs, "current stack"@, regs.rsp, 16),
            ) + optional(words_text(memory, sregs, "current r14"@, regs.r14, 32)) + sregs_lines(
                sregs,
            ),
            Err(_) => Seq::empty(),
        }),
        Err(e) => seq!["rustshyper-vmm: failed to read current regs: "@ + e@],
    }
}

/// What is said of a guest that is stopped for a look at it.
pub fn dump_current_diagnostics(
    memory: &[u8],
    regs: &Result<VcpuRegs, String>,
    sregs: &Result<VcpuSregs, String>,
) -> (lines: Vec<String>)
    ensures
        text::texts(lines@) == current_report(memory@, *regs, *sregs),
{
    let mut lines: Vec<String> = Vec::new();
    match regs {
        Ok(regs) => {
            push_line(
                &mut lines,
                labelled("rustshyper-vmm: current regs ", format_regs(regs).as_str()),
            );
            match sregs {
                Ok(sregs) => {
                    push_optional(&mut lines, dump_guest_code_bytes(memory, sregs, regs.rip));
                    push_optional(
                        &mut lines,
                        dump_guest_qwords(memory, sregs, "current stack", regs.rsp, 16),
                    );
                    push_optional(
                        &mut lines,
                        dump_guest_qwords(memory, sregs, "current r14", regs.r14, 32),
                    );
                    push_lines(&mut lines, dump_sregs(sregs));
                },
                Err(_) => {},
            }
        },
        Err(e) => {
            push_line(
                &mut lines,
                labelled("rustshyper-vmm: failed to read current regs: ", e.as_str()),
            );
        },
    }
    assert(text::texts(lines@) =~= current_report(memory@, *regs, *sregs));
    lines
}

} // verus!
