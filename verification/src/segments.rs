//! The descriptor table and the segment registers that a guest starts with.
use crate::bytes;
use crate::ioctl::VcpuDtable;
use crate::ioctl::VcpuSegment;
use crate::ioctl::VcpuSregs;
use vstd::prelude::*;

verus! {

/// Where the descriptor table goes.
pub const GDT_GPA: u64 = 0x0000_5000;

/// Protected mode is on.
pub const X86_CR0_PE: u64 = 0x01;

/// The coprocessor is a 387.
pub const X86_CR0_ET: u64 = 0x10;

/// Coprocessor errors are reported natively.
pub const X86_CR0_NE: u64 = 0x20;

/// A descriptor of a flat 32-bit segment with a 16-bit limit in pages.
pub fn gdt_descriptor(type_bits: u8) -> (descriptor: u64)
    ensures
        descriptor == 0x00c0_9000_0000_ffffu64 | ((type_bits as u64) << 40u64),
        type_bits < 16 ==> descriptor == 0x00c0_9000_0000_ffff + type_bits * 0x100_0000_0000,
{
    let t: u64 = type_bits as u64;
    let limit: u64 = 0xffff;
    let base: u64 = 0;
    proof {
        assert(limit | ((base & 0x00ff_ffff) << 16) | (t << 40) | (1u64 << 44) | (1u64 << 47) | (((
        limit >> 16) & 0xf) << 48) | (1u64 << 54) | (1u64 << 55) | (((base >> 24) & 0xff) << 56)
            == 0x00c0_9000_0000_ffffu64 | (t << 40)) by (bit_vector)
            requires
                limit == 0xffff,
                base == 0,
        ;
        assert(t < 16 ==> 0x00c0_9000_0000_ffffu64 | (t << 40) == 0x00c0_9000_0000_ffffu64 + t
            * 0x100_0000_0000) by (bit_vector);
    }
    limit | ((base & 0x00ff_ffff) << 16) | (t << 40) | (1u64 << 44) | (1u64 << 47) | (((limit >> 16)
        & 0xf) << 48) | (1u64 << 54) | (1u64 << 55) | (((base >> 24) & 0xff) << 56)
}

/// A descriptor of a system segment with a 16-bit limit in bytes.
pub fn gdt_system_descriptor(type_bits: u8) -> (descriptor: u64)
    ensures
        descriptor == 0x0000_8000_0000_ffffu64 | ((type_bits as u64) << 40u64),
        type_bits < 16 ==> descriptor == 0x0000_8000_0000_ffff + type_bits * 0x100_0000_0000,
{
    let t: u64 = type_bits as u64;
    let limit: u64 = 0xffff;
    let base: u64 = 0;
    proof {
        assert(limit | ((base & 0x00ff_ffff) << 16) | (t << 40) | (1u64 << 47) | (((limit >> 16)
            & 0xf) << 48) | (((base >> 24) & 0xff) << 56) == 0x0000_8000_0000_ffffu64 | (t << 40))
            by (bit_vector)
            requires
                limit == 0xffff,
                base == 0,
        ;
        assert(t < 16 ==> 0x0000_8000_0000_ffffu64 | (t << 40) == 0x0000_8000_0000_ffffu64 + t
            * 0x100_0000_0000) by (bit_vector);
    }
    limit | ((base & 0x00ff_ffff) << 16) | (t << 40) | (1u64 << 47) | (((limit >> 16) & 0xf) << 48)
        | (((base >> 24) & 0xff) << 56)
}

/// The descriptor table that the guest starts with: code at selector 0x10, data at 0x18, and a task
/// at 0x20.
pub open spec fn boot_gdt() -> Seq<u64> {
    seq![
        0u64,
        0u64,
        0x00c0_9b00_0000_ffffu64,
        0x00c0_9300_0000_ffffu64,
        0x0000_8b00_0000_ffffu64,
    ]
}

/// The descriptor table that the guest starts with, as it lies in memory.
pub open spec fn gdt_bytes() -> Seq<u8> {
    bytes::le_bytes(boot_gdt()[0] as nat, 8) + bytes::le_bytes(boot_gdt()[1] as nat, 8)
        + bytes::le_bytes(boot_gdt()[2] as nat, 8) + bytes::le_bytes(boot_gdt()[3] as nat, 8)
        + bytes::le_bytes(boot_gdt()[4] as nat, 8)
}

/// The descriptor table that the guest starts with.
pub fn build_linux_boot_gdt() -> (table: [u64; 5])
    ensures
        table@ == boot_gdt(),
{
    let table = [
        0,
        0,
        gdt_descriptor(0x0b),
        gdt_descriptor(0x03),
        gdt_system_descriptor(0x0b),
    ];
    assert(table@ =~= boot_gdt());
    table
}

/// A segment register that covers all 32-bit addresses.
pub open spec fn flat(selector: u16, type_: u8) -> VcpuSegment {
    VcpuSegment {
        base: 0,
        limit: 0xffff_ffff,
        selector,
        type_,
        present: 1,
        dpl: 0,
        db: 1,
        s: 1,
        l: 0,
        g: 1,
        avl: 0,
        unusable: 0,
        padding: 0,
    }
}

/// A system segment register.
pub open spec fn system(selector: u16, type_: u8) -> VcpuSegment {
    VcpuSegment {
        base: 0,
        limit: 0xffff,
        selector,
        type_,
        present: 1,
        dpl: 0,
        db: 0,
        s: 0,
        l: 0,
        g: 0,
        avl: 0,
        unusable: 0,
        padding: 0,
    }
}

/// A segment register that covers all 32-bit addresses.
pub fn flat_segment(selector: u16, type_: u8) -> (segment: VcpuSegment)
    ensures
        segment == flat(selector, type_),
{
    VcpuSegment {
        base: 0,
        limit: 0xffff_ffff,
        selector,
        type_,
        present: 1,
        dpl: 0,
        db: 1,
        s: 1,
        l: 0,
        g: 1,
        avl: 0,
        unusable: 0,
        padding: 0,
    }
}

/// A system segment register.
pub fn system_segment(selector: u16, type_: u8) -> (segment: VcpuSegment)
    ensures
        segment == system(selector, type_),
{
    VcpuSegment {
        base: 0,
        limit: 0xffff,
        selector,
        type_,
        present: 1,
        dpl: 0,
        db: 0,
        s: 0,
        l: 0,
        g: 0,
        avl: 0,
        unusable: 0,
        padding: 0,
    }
}

/// The special registers of a guest that starts in 32-bit protected mode without paging, with flat
/// segments out of the table at `GDT_GPA`.
pub open spec fn boot_sregs() -> VcpuSregs {
    VcpuSregs {
        cs: flat(0x10, 0x0b),
        ds: flat(0x18, 0x03),
        es: flat(0x18, 0x03),
        fs: flat(0x18, 0x03),
        gs: flat(0x18, 0x03),
        ss: flat(0x18, 0x03),
        tr: system(0x20, 0x0b),
        ldt: VcpuSegment { unusable: 1, ..VcpuSegment::zero() },
        gdt: VcpuDtable { base: GDT_GPA, limit: 39, padding: [0, 0, 0] },
        idt: VcpuDtable::zero(),
        cr0: 0x31,
        cr2: 0,
        cr3: 0,
        cr4: 0,
        efer: 0,
        apic_base: 0,
        interrupt_bitmap: [0, 0, 0, 0],
    }
}

/// The special registers of a guest that starts in 32-bit protected mode.
pub fn linux32_boot_sregs() -> (sregs: VcpuSregs)
    ensures
        sregs == boot_sregs(),
{
    let code = flat_segment(0x10, 0x0b);
    let data = flat_segment(0x18, 0x03);
    let sregs = VcpuSregs {
        cs: code,
        ds: data,
        es: data,
        fs: data,
        gs: data,
        ss: data,
        tr: system_segment(0x20, 0x0b),
        ldt: VcpuSegment { unusable: 1, ..VcpuSegment::default() },
        gdt: VcpuDtable { base: GDT_GPA, limit: 8 * 5 - 1, ..VcpuDtable::default() },
        idt: VcpuDtable::default(),
        cr0: X86_CR0_PE | X86_CR0_ET | X86_CR0_NE,
        cr2: 0,
        cr3: 0,
        cr4: 0,
        efer: 0,
        apic_base: 0,
        interrupt_bitmap: [0;4],
    };
    proof {
        assert(0x01u64 | 0x10u64 | 0x20u64 == 0x31u64) by (bit_vector);
        assert(sregs.interrupt_bitmap =~= boot_sregs().interrupt_bitmap);
    }
    sregs
}

/// The descriptor that a selector names.
pub open spec fn descriptor_of(selector: u16) -> u64 {
    boot_gdt()[selector as int / 8]
}

/// Segment register `segment` agrees with descriptor `descriptor` on type, presence, privilege,
/// granularity and default size.
pub open spec fn describes(descriptor: u64, segment: VcpuSegment) -> bool {
    &&& (descriptor / 0x100_0000_0000) % 16 == segment.type_
    &&& (descriptor / 0x1000_0000_0000) % 2 == segment.s
    &&& (descriptor / 0x2000_0000_0000) % 4 == segment.dpl
    &&& (descriptor / 0x8000_0000_0000) % 2 == segment.present
    &&& (descriptor / 0x40_0000_0000_0000) % 2 == segment.db
    &&& (descriptor / 0x80_0000_0000_0000) % 2 == segment.g
}

/// The guest starts in protected mode without paging, and every segment register that it may use
/// agrees with the descriptor that its selector names in the table that the guest finds.
pub proof fn law_boot_segments_match_descriptors()
    ensures
        boot_sregs().cr0 % 2 == 1,
        boot_sregs().cr0 / 0x8000_0000 == 0,
        boot_sregs().gdt.limit + 1 == gdt_bytes().len(),
        describes(descriptor_of(boot_sregs().cs.selector), boot_sregs().cs),
        describes(descriptor_of(boot_sregs().ds.selector), boot_sregs().ds),
        describes(descriptor_of(boot_sregs().es.selector), boot_sregs().es),
        describes(descriptor_of(boot_sregs().fs.selector), boot_sregs().fs),
        describes(descriptor_of(boot_sregs().gs.selector), boot_sregs().gs),
        describes(descriptor_of(boot_sregs().ss.selector), boot_sregs().ss),
        describes(descriptor_of(boot_sregs().tr.selector), boot_sregs().tr),
{
    broadcast use bytes::lemma_le_bytes_len;

}

} // verus!
