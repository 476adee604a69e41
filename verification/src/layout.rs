//! The bytes of the structures that device requests carry: fields in order, little-endian, at the
//! offsets that the C layout gives them.
use crate::bytes;
use crate::bytes::Writer;
use crate::ioctl::AbiSized;
use crate::ioctl::IoExit;
use crate::ioctl::MmioInfo;
use crate::ioctl::RunState;
use crate::ioctl::UserMemoryRegion;
use crate::ioctl::VcpuDtable;
use crate::ioctl::VcpuRegs;
use crate::ioctl::VcpuSegment;
use crate::ioctl::VcpuSregs;
use vstd::prelude::*;

verus! {

impl VcpuRegs {
    /// The fields in order, each as its bytes.
    pub open spec fn pieces(self) -> Seq<Seq<u8>> {
        seq![
            bytes::le_bytes(self.rax as nat, 8),
            bytes::le_bytes(self.rbx as nat, 8),
            bytes::le_bytes(self.rcx as nat, 8),
            bytes::le_bytes(self.rdx as nat, 8),
            bytes::le_bytes(self.rsi as nat, 8),
            bytes::le_bytes(self.rdi as nat, 8),
            bytes::le_bytes(self.rbp as nat, 8),
            bytes::le_bytes(self.rsp as nat, 8),
            bytes::le_bytes(self.r8 as nat, 8),
            bytes::le_bytes(self.r9 as nat, 8),
            bytes::le_bytes(self.r10 as nat, 8),
            bytes::le_bytes(self.r11 as nat, 8),
            bytes::le_bytes(self.r12 as nat, 8),
            bytes::le_bytes(self.r13 as nat, 8),
            bytes::le_bytes(self.r14 as nat, 8),
            bytes::le_bytes(self.r15 as nat, 8),
            bytes::le_bytes(self.rip as nat, 8),
            bytes::le_bytes(self.rflags as nat, 8),
        ]
    }

    /// The 144 bytes of the structure.
    pub open spec fn layout(self) -> Seq<u8> {
        bytes::join(self.pieces())
    }

    /// The 144 bytes of the structure.
    pub fn to_bytes(&self) -> (data: Vec<u8>)
        ensures
            data@ == self.layout(),
            data@.len() == 144,
    {
        let mut w = Writer::new();
        w.u64(self.rax);
        w.u64(self.rbx);
        w.u64(self.rcx);
        w.u64(self.rdx);
        w.u64(self.rsi);
        w.u64(self.rdi);
        w.u64(self.rbp);
        w.u64(self.rsp);
        assert(w.pieces() =~= self.pieces().take(8));
        w.u64(self.r8);
        w.u64(self.r9);
        w.u64(self.r10);
        w.u64(self.r11);
        w.u64(self.r12);
        w.u64(self.r13);
        w.u64(self.r14);
        w.u64(self.r15);
        assert(w.pieces() =~= self.pieces().take(16));
        w.u64(self.rip);
        w.u64(self.rflags);
        proof {
            assert(w.pieces() =~= self.pieces());
            self.lemma_layout();
        }
        w.finish()
    }
}

/// The general registers whose bytes are `data`.
pub open spec fn regs_at(data: Seq<u8>) -> VcpuRegs {
    VcpuRegs {
        rax: bytes::u64_at(data, 0),
        rbx: bytes::u64_at(data, 8),
        rcx: bytes::u64_at(data, 16),
        rdx: bytes::u64_at(data, 24),
        rsi: bytes::u64_at(data, 32),
        rdi: bytes::u64_at(data, 40),
        rbp: bytes::u64_at(data, 48),
        rsp: bytes::u64_at(data, 56),
        r8: bytes::u64_at(data, 64),
        r9: bytes::u64_at(data, 72),
        r10: bytes::u64_at(data, 80),
        r11: bytes::u64_at(data, 88),
        r12: bytes::u64_at(data, 96),
        r13: bytes::u64_at(data, 104),
        r14: bytes::u64_at(data, 112),
        r15: bytes::u64_at(data, 120),
        rip: bytes::u64_at(data, 128),
        rflags: bytes::u64_at(data, 136),
    }
}

impl VcpuRegs {
    /// Every field lies at its offset, and the whole has its size.
    pub proof fn lemma_layout(self)
        ensures
            self.layout().len() == 144,
            bytes::u64_at(self.layout(), 0) == self.rax,
            bytes::u64_at(self.layout(), 8) == self.rbx,
            bytes::u64_at(self.layout(), 16) == self.rcx,
            bytes::u64_at(self.layout(), 24) == self.rdx,
            bytes::u64_at(self.layout(), 32) == self.rsi,
            bytes::u64_at(self.layout(), 40) == self.rdi,
            bytes::u64_at(self.layout(), 48) == self.rbp,
            bytes::u64_at(self.layout(), 56) == self.rsp,
            bytes::u64_at(self.layout(), 64) == self.r8,
            bytes::u64_at(self.layout(), 72) == self.r9,
            bytes::u64_at(self.layout(), 80) == self.r10,
            bytes::u64_at(self.layout(), 88) == self.r11,
            bytes::u64_at(self.layout(), 96) == self.r12,
            bytes::u64_at(self.layout(), 104) == self.r13,
            bytes::u64_at(self.layout(), 112) == self.r14,
            bytes::u64_at(self.layout(), 120) == self.r15,
            bytes::u64_at(self.layout(), 128) == self.rip,
            bytes::u64_at(self.layout(), 136) == self.rflags,
    {
        broadcast use bytes::lemma_le_bytes_len;

        let p = self.pieces();
        assert(bytes::join(p.take(0)).len() == 0);
        bytes::lemma_piece(p, 0, 0);
        bytes::lemma_piece(p, 1, 8);
        bytes::lemma_piece(p, 2, 16);
        bytes::lemma_piece(p, 3, 24);
        bytes::lemma_piece(p, 4, 32);
        bytes::lemma_piece(p, 5, 40);
        bytes::lemma_piece(p, 6, 48);
        bytes::lemma_piece(p, 7, 56);
        bytes::lemma_piece(p, 8, 64);
        bytes::lemma_piece(p, 9, 72);
        bytes::lemma_piece(p, 10, 80);
        bytes::lemma_piece(p, 11, 88);
        bytes::lemma_piece(p, 12, 96);
        bytes::lemma_piece(p, 13, 104);
        bytes::lemma_piece(p, 14, 112);
        bytes::lemma_piece(p, 15, 120);
        bytes::lemma_piece(p, 16, 128);
        bytes::lemma_piece(p, 17, 136);
        assert(p.take(18) =~= p);
        let l = self.layout();
        bytes::lemma_u64_at(l, 0, self.rax);
        bytes::lemma_u64_at(l, 8, self.rbx);
        bytes::lemma_u64_at(l, 16, self.rcx);
        bytes::lemma_u64_at(l, 24, self.rdx);
        bytes::lemma_u64_at(l, 32, self.rsi);
        bytes::lemma_u64_at(l, 40, self.rdi);
        bytes::lemma_u64_at(l, 48, self.rbp);
        bytes::lemma_u64_at(l, 56, self.rsp);
        bytes::lemma_u64_at(l, 64, self.r8);
        bytes::lemma_u64_at(l, 72, self.r9);
        bytes::lemma_u64_at(l, 80, self.r10);
        bytes::lemma_u64_at(l, 88, self.r11);
        bytes::lemma_u64_at(l, 96, self.r12);
        bytes::lemma_u64_at(l, 104, self.r13);
        bytes::lemma_u64_at(l, 112, self.r14);
        bytes::lemma_u64_at(l, 120, self.r15);
        bytes::lemma_u64_at(l, 128, self.rip);
        bytes::lemma_u64_at(l, 136, self.rflags);
    }
}

impl VcpuRegs {
    /// The registers whose bytes are `data`.
    pub fn from_bytes(data: &[u8]) -> (regs: VcpuRegs)
        requires
            data@.len() == 144,
        ensures
            regs == regs_at(data@),
    {
        VcpuRegs {
            rax: bytes::read_u64(data, 0),
            rbx: bytes::read_u64(data, 8),
            rcx: bytes::read_u64(data, 16),
            rdx: bytes::read_u64(data, 24),
            rsi: bytes::read_u64(data, 32),
            rdi: bytes::read_u64(data, 40),
            rbp: bytes::read_u64(data, 48),
            rsp: bytes::read_u64(data, 56),
            r8: bytes::read_u64(data, 64),
            r9: bytes::read_u64(data, 72),
            r10: bytes::read_u64(data, 80),
            r11: bytes::read_u64(data, 88),
            r12: bytes::read_u64(data, 96),
            r13: bytes::read_u64(data, 104),
            r14: bytes::read_u64(data, 112),
            r15: bytes::read_u64(data, 120),
            rip: bytes::read_u64(data, 128),
            rflags: bytes::read_u64(data, 136),
        }
    }
}

/// Reading general registers back from their bytes gives the same registers.
pub proof fn law_regs_round_trip(regs: VcpuRegs)
    ensures
        regs_at(regs.layout()) == regs,
        regs.layout().len() == VcpuRegs::abi_size(),
{
    regs.lemma_layout();
}

impl UserMemoryRegion {
    /// The fields in order, each as its bytes.
    pub open spec fn pieces(self) -> Seq<Seq<u8>> {
        seq![
            bytes::le_bytes(self.slot as nat, 4),
            bytes::le_bytes(self.flags as nat, 4),
            bytes::le_bytes(self.guest_phys_addr as nat, 8),
            bytes::le_bytes(self.memory_size as nat, 8),
            bytes::le_bytes(self.userspace_addr as nat, 8),
        ]
    }

    /// The 32 bytes of the structure.
    pub open spec fn layout(self) -> Seq<u8> {
        bytes::join(self.pieces())
    }

    /// The 32 bytes of the structure.
    pub fn to_bytes(&self) -> (data: Vec<u8>)
        ensures
            data@ == self.layout(),
            data@.len() == 32,
    {
        let mut w = Writer::new();
        w.u32(self.slot);
        w.u32(self.flags);
        w.u64(self.guest_phys_addr);
        w.u64(self.memory_size);
        w.u64(self.userspace_addr);
        proof {
            assert(w.pieces() =~= self.pieces());
            self.lemma_layout();
        }
        w.finish()
    }
}

impl UserMemoryRegion {
    /// Every field lies at its offset, and the whole has its size.
    pub proof fn lemma_layout(self)
        ensures
            self.layout().len() == 32,
            bytes::u32_at(self.layout(), 0) == self.slot,
            bytes::u32_at(self.layout(), 4) == self.flags,
            bytes::u64_at(self.layout(), 8) == self.guest_phys_addr,
            bytes::u64_at(self.layout(), 16) == self.memory_size,
            bytes::u64_at(self.layout(), 24) == self.userspace_addr,
    {
        broadcast use bytes::lemma_le_bytes_len;

        let p = self.pieces();
        assert(bytes::join(p.take(0)).len() == 0);
        bytes::lemma_piece(p, 0, 0);
        bytes::lemma_piece(p, 1, 4);
        bytes::lemma_piece(p, 2, 8);
        bytes::lemma_piece(p, 3, 16);
        bytes::lemma_piece(p, 4, 24);
        assert(p.take(5) =~= p);
        let l = self.layout();
        bytes::lemma_u32_at(l, 0, self.slot);
        bytes::lemma_u32_at(l, 4, self.flags);
        bytes::lemma_u64_at(l, 8, self.guest_phys_addr);
        bytes::lemma_u64_at(l, 16, self.memory_size);
        bytes::lemma_u64_at(l, 24, self.userspace_addr);
    }
}

impl VcpuSegment {
    /// The fields in order, each as its bytes.
    pub open spec fn pieces(self) -> Seq<Seq<u8>> {
        seq![
            bytes::le_bytes(self.base as nat, 8),
            bytes::le_bytes(self.limit as nat, 4),
            bytes::le_bytes(self.selector as nat, 2),
            seq![self.type_],
            seq![self.present],
            seq![self.dpl],
            seq![self.db],
            seq![self.s],
            seq![self.l],
            seq![self.g],
            seq![self.avl],
            seq![self.unusable],
            seq![self.padding],
        ]
    }

    /// The 24 bytes of the structure.
    pub open spec fn layout(self) -> Seq<u8> {
        bytes::join(self.pieces())
    }

    /// The 24 bytes of the structure.
    pub fn to_bytes(&self) -> (data: Vec<u8>)
        ensures
            data@ == self.layout(),
            data@.len() == 24,
    {
        let mut w = Writer::new();
        w.u64(self.base);
        w.u32(self.limit);
        w.u16(self.selector);
        w.u8(self.type_);
        w.u8(self.present);
        w.u8(self.dpl);
        w.u8(self.db);
        w.u8(self.s);
        assert(w.pieces() =~= self.pieces().take(8));
        w.u8(self.l);
        w.u8(self.g);
        w.u8(self.avl);
        w.u8(self.unusable);
        w.u8(self.padding);
        proof {
            assert(w.pieces() =~= self.pieces());
            self.lemma_layout();
        }
        w.finish()
    }
}

impl VcpuSegment {
    /// Every field lies at its offset, and the whole has its size.
    pub proof fn lemma_layout(self)
        ensures
            self.layout().len() == 24,
            bytes::u64_at(self.layout(), 0) == self.base,
            bytes::u32_at(self.layout(), 8) == self.limit,
            bytes::u16_at(self.layout(), 12) == self.selector,
            self.layout()[14] == self.type_,
            self.layout()[15] == self.present,
            self.layout()[16] == self.dpl,
            self.layout()[17] == self.db,
            self.layout()[18] == self.s,
            self.layout()[19] == self.l,
            self.layout()[20] == self.g,
            self.layout()[21] == self.avl,
            self.layout()[22] == self.unusable,
            self.layout()[23] == self.padding,
    {
        broadcast use bytes::lemma_le_bytes_len;

        let p = self.pieces();
        assert(bytes::join(p.take(0)).len() == 0);
        bytes::lemma_piece(p, 0, 0);
        bytes::lemma_piece(p, 1, 8);
        bytes::lemma_piece(p, 2, 12);
        bytes::lemma_piece(p, 3, 14);
        bytes::lemma_piece(p, 4, 15);
        bytes::lemma_piece(p, 5, 16);
        bytes::lemma_piece(p, 6, 17);
        bytes::lemma_piece(p, 7, 18);
        bytes::lemma_piece(p, 8, 19);
        bytes::lemma_piece(p, 9, 20);
        bytes::lemma_piece(p, 10, 21);
        bytes::lemma_piece(p, 11, 22);
        bytes::lemma_piece(p, 12, 23);
        assert(p.take(13) =~= p);
        let l = self.layout();
        bytes::lemma_u64_at(l, 0, self.base);
        bytes::lemma_u32_at(l, 8, self.limit);
        bytes::lemma_u16_at(l, 12, self.selector);
        assert(l.subrange(14, 15)[0] == l[14]);
        assert(l.subrange(15, 16)[0] == l[15]);
        assert(l.subrange(16, 17)[0] == l[16]);
        assert(l.subrange(17, 18)[0] == l[17]);
        assert(l.subrange(18, 19)[0] == l[18]);
        assert(l.subrange(19, 20)[0] == l[19]);
        assert(l.subrange(20, 21)[0] == l[20]);
        assert(l.subrange(21, 22)[0] == l[21]);
        assert(l.subrange(22, 23)[0] == l[22]);
        assert(l.subrange(23, 24)[0] == l[23]);
    }
}

/// The segment register whose bytes start at `at`.
pub open spec fn segment_at(data: Seq<u8>, at: int) -> VcpuSegment {
    VcpuSegment {
        base: bytes::u64_at(data, at),
        limit: bytes::u32_at(data, at + 8),
        selector: bytes::u16_at(data, at + 12),
        type_: data[at + 14],
        present: data[at + 15],
        dpl: data[at + 16],
        db: data[at + 17],
        s: data[at + 18],
        l: data[at + 19],
        g: data[at + 20],
        avl: data[at + 21],
        unusable: data[at + 22],
        padding: data[at + 23],
    }
}

fn read_segment(data: &[u8], at: usize) -> (segment: VcpuSegment)
    requires
        at + 24 <= data@.len(),
    ensures
        segment == segment_at(data@, at as int),
{
    assert(data@.len() == data.len());
    VcpuSegment {
        base: bytes::read_u64(data, at),
        limit: bytes::read_u32(data, at + 8),
        selector: bytes::read_u16(data, at + 12),
        type_: data[at + 14],
        present: data[at + 15],
        dpl: data[at + 16],
        db: data[at + 17],
        s: data[at + 18],
        l: data[at + 19],
        g: data[at + 20],
        avl: data[at + 21],
        unusable: data[at + 22],
        padding: data[at + 23],
    }
}

impl VcpuDtable {
    /// The fields in order, each as its bytes.
    pub open spec fn pieces(self) -> Seq<Seq<u8>> {
        seq![
            bytes::le_bytes(self.base as nat, 8),
            bytes::le_bytes(self.limit as nat, 2),
            bytes::le_bytes(self.padding[0] as nat, 2),
            bytes::le_bytes(self.padding[1] as nat, 2),
            bytes::le_bytes(self.padding[2] as nat, 2),
        ]
    }

    /// The 16 bytes of the structure.
    pub open spec fn layout(self) -> Seq<u8> {
        bytes::join(self.pieces())
    }

    /// The 16 bytes of the structure.
    pub fn to_bytes(&self) -> (data: Vec<u8>)
        ensures
            data@ == self.layout(),
            data@.len() == 16,
    {
        let mut w = Writer::new();
        w.u64(self.base);
        w.u16(self.limit);
        w.u16(self.padding[0]);
        w.u16(self.padding[1]);
        w.u16(self.padding[2]);
        proof {
            assert(w.pieces() =~= self.pieces());
            self.lemma_layout();
        }
        w.finish()
    }
}

impl VcpuDtable {
    /// Every field lies at its offset, and the whole has its size.
    pub proof fn lemma_layout(self)
        ensures
            self.layout().len() == 16,
            bytes::u64_at(self.layout(), 0) == self.base,
            bytes::u16_at(self.layout(), 8) == self.limit,
            bytes::u16_at(self.layout(), 10) == self.padding[0],
            bytes::u16_at(self.layout(), 12) == self.padding[1],
            bytes::u16_at(self.layout(), 14) == self.padding[2],
    {
        broadcast use bytes::lemma_le_bytes_len;

        let p = self.pieces();
        assert(bytes::join(p.take(0)).len() == 0);
        bytes::lemma_piece(p, 0, 0);
        bytes::lemma_piece(p, 1, 8);
        bytes::lemma_piece(p, 2, 10);
        bytes::lemma_piece(p, 3, 12);
        bytes::lemma_piece(p, 4, 14);
        assert(p.take(5) =~= p);
        let l = self.layout();
        bytes::lemma_u64_at(l, 0, self.base);
        bytes::lemma_u16_at(l, 8, self.limit);
        bytes::lemma_u16_at(l, 10, self.padding[0]);
        bytes::lemma_u16_at(l, 12, self.padding[1]);
        bytes::lemma_u16_at(l, 14, self.padding[2]);
    }
}

/// The descriptor table register whose bytes start at `at`.
pub open spec fn dtable_at(data: Seq<u8>, at: int) -> VcpuDtable {
    VcpuDtable {
        base: bytes::u64_at(data, at),
        limit: bytes::u16_at(data, at + 8),
        padding: [
            bytes::u16_at(data, at + 10),
            bytes::u16_at(data, at + 12),
            bytes::u16_at(data, at + 14),
        ],
    }
}

fn read_dtable(data: &[u8], at: usize) -> (table: VcpuDtable)
    requires
        at + 16 <= data@.len(),
    ensures
        table == dtable_at(data@, at as int),
{
    assert(data@.len() == data.len());
    let table = VcpuDtable {
        base: bytes::read_u64(data, at),
        limit: bytes::read_u16(data, at + 8),
        padding: [
            bytes::read_u16(data, at + 10),
            bytes::read_u16(data, at + 12),
            bytes::read_u16(data, at + 14),
        ],
    };
    assert(table.padding =~= dtable_at(data@, at as int).padding);
    table
}

impl VcpuSregs {
    /// The fields in order, each as its bytes.
    pub open spec fn pieces(self) -> Seq<Seq<u8>> {
        seq![
            self.cs.layout(),
            self.ds.layout(),
            self.es.layout(),
            self.fs.layout(),
            self.gs.layout(),
            self.ss.layout(),
            self.tr.layout(),
            self.ldt.layout(),
            self.gdt.layout(),
            self.idt.layout(),
            bytes::le_bytes(self.cr0 as nat, 8),
            bytes::le_bytes(self.cr2 as nat, 8),
            bytes::le_bytes(self.cr3 as nat, 8),
            bytes::le_bytes(self.cr4 as nat, 8),
            bytes::le_bytes(self.efer as nat, 8),
            bytes::le_bytes(self.apic_base as nat, 8),
            bytes::le_bytes(self.interrupt_bitmap[0] as nat, 8),
            bytes::le_bytes(self.interrupt_bitmap[1] as nat, 8),
            bytes::le_bytes(self.interrupt_bitmap[2] as nat, 8),
            bytes::le_bytes(self.interrupt_bitmap[3] as nat, 8),
        ]
    }

    /// The 304 bytes of the structure.
    pub open spec fn layout(self) -> Seq<u8> {
        bytes::join(self.pieces())
    }

    /// The 304 bytes of the structure.
    pub fn to_bytes(&self) -> (data: Vec<u8>)
        ensures
            data@ == self.layout(),
            data@.len() == 304,
    {
        let mut w = Writer::new();
        w.raw(&self.cs.to_bytes());
        w.raw(&self.ds.to_bytes());
        w.raw(&self.es.to_bytes());
        w.raw(&self.fs.to_bytes());
        w.raw(&self.gs.to_bytes());
        w.raw(&self.ss.to_bytes());
        w.raw(&self.tr.to_bytes());
        w.raw(&self.ldt.to_bytes());
        assert(w.pieces() =~= self.pieces().take(8));
        w.raw(&self.gdt.to_bytes());
        w.raw(&self.idt.to_bytes());
        w.u64(self.cr0);
        w.u64(self.cr2);
        w.u64(self.cr3);
        w.u64(self.cr4);
        w.u64(self.efer);
        w.u64(self.apic_base);
        assert(w.pieces() =~= self.pieces().take(16));
        w.u64(self.interrupt_bitmap[0]);
        w.u64(self.interrupt_bitmap[1]);
        w.u64(self.interrupt_bitmap[2]);
        w.u64(self.interrupt_bitmap[3]);
        proof {
            assert(w.pieces() =~= self.pieces());
            self.lemma_layout();
        }
        w.finish()
    }
}

impl VcpuSregs {
    /// Every field lies at its offset, and the whole has its size.
    pub proof fn lemma_layout(self)
        ensures
            self.layout().len() == 304,
            self.layout().subrange(0, 24) == self.cs.layout(),
            self.layout().subrange(24, 48) == self.ds.layout(),
            self.layout().subrange(48, 72) == self.es.layout(),
            self.layout().subrange(72, 96) == self.fs.layout(),
            self.layout().subrange(96, 120) == self.gs.layout(),
            self.layout().subrange(120, 144) == self.ss.layout(),
            self.layout().subrange(144, 168) == self.tr.layout(),
            self.layout().subrange(168, 192) == self.ldt.layout(),
            self.layout().subrange(192, 208) == self.gdt.layout(),
            self.layout().subrange(208, 224) == self.idt.layout(),
            bytes::u64_at(self.layout(), 224) == self.cr0,
            bytes::u64_at(self.layout(), 232) == self.cr2,
            bytes::u64_at(self.layout(), 240) == self.cr3,
            bytes::u64_at(self.layout(), 248) == self.cr4,
            bytes::u64_at(self.layout(), 256) == self.efer,
            bytes::u64_at(self.layout(), 264) == self.apic_base,
            bytes::u64_at(self.layout(), 272) == self.interrupt_bitmap[0],
            bytes::u64_at(self.layout(), 280) == self.interrupt_bitmap[1],
            bytes::u64_at(self.layout(), 288) == self.interrupt_bitmap[2],
            bytes::u64_at(self.layout(), 296) == self.interrupt_bitmap[3],
    {
        broadcast use bytes::lemma_le_bytes_len;

        assert(self.cs.layout().len() == 24) by {
            self.cs.lemma_layout();
        }
        assert(self.ds.layout().len() == 24) by {
            self.ds.lemma_layout();
        }
        assert(self.es.layout().len() == 24) by {
            self.es.lemma_layout();
        }
        assert(self.fs.layout().len() == 24) by {
            self.fs.lemma_layout();
        }
        assert(self.gs.layout().len() == 24) by {
            self.gs.lemma_layout();
        }
        assert(self.ss.layout().len() == 24) by {
            self.ss.lemma_layout();
        }
        assert(self.tr.layout().len() == 24) by {
            self.tr.lemma_layout();
        }
        assert(self.ldt.layout().len() == 24) by {
            self.ldt.lemma_layout();
        }
        assert(self.gdt.layout().len() == 16) by {
            self.gdt.lemma_layout();
        }
        assert(self.idt.layout().len() == 16) by {
            self.idt.lemma_layout();
        }
        let p = self.pieces();
        assert(bytes::join(p.take(0)).len() == 0);
        bytes::lemma_piece(p, 0, 0);
        bytes::lemma_piece(p, 1, 24);
        bytes::lemma_piece(p, 2, 48);
        bytes::lemma_piece(p, 3, 72);
        bytes::lemma_piece(p, 4, 96);
        bytes::lemma_piece(p, 5, 120);
        bytes::lemma_piece(p, 6, 144);
        bytes::lemma_piece(p, 7, 168);
        bytes::lemma_piece(p, 8, 192);
        bytes::lemma_piece(p, 9, 208);
        bytes::lemma_piece(p, 10, 224);
        bytes::lemma_piece(p, 11, 232);
        bytes::lemma_piece(p, 12, 240);
        bytes::lemma_piece(p, 13, 248);
        bytes::lemma_piece(p, 14, 256);
        bytes::lemma_piece(p, 15, 264);
        bytes::lemma_piece(p, 16, 272);
        bytes::lemma_piece(p, 17, 280);
        bytes::lemma_piece(p, 18, 288);
        bytes::lemma_piece(p, 19, 296);
        assert(p.take(20) =~= p);
        let l = self.layout();
        bytes::lemma_u64_at(l, 224, self.cr0);
        bytes::lemma_u64_at(l, 232, self.cr2);
        bytes::lemma_u64_at(l, 240, self.cr3);
        bytes::lemma_u64_at(l, 248, self.cr4);
        bytes::lemma_u64_at(l, 256, self.efer);
        bytes::lemma_u64_at(l, 264, self.apic_base);
        bytes::lemma_u64_at(l, 272, self.interrupt_bitmap[0]);
        bytes::lemma_u64_at(l, 280, self.interrupt_bitmap[1]);
        bytes::lemma_u64_at(l, 288, self.interrupt_bitmap[2]);
        bytes::lemma_u64_at(l, 296, self.interrupt_bitmap[3]);
    }
}

/// The special registers whose bytes are `data`.
pub open spec fn sregs_at(data: Seq<u8>) -> VcpuSregs {
    VcpuSregs {
        cs: segment_at(data, 0),
        ds: segment_at(data, 24),
        es: segment_at(data, 48),
        fs: segment_at(data, 72),
        gs: segment_at(data, 96),
        ss: segment_at(data, 120),
        tr: segment_at(data, 144),
        ldt: segment_at(data, 168),
        gdt: dtable_at(data, 192),
        idt: dtable_at(data, 208),
        cr0: bytes::u64_at(data, 224),
        cr2: bytes::u64_at(data, 232),
        cr3: bytes::u64_at(data, 240),
        cr4: bytes::u64_at(data, 248),
        efer: bytes::u64_at(data, 256),
        apic_base: bytes::u64_at(data, 264),
        interrupt_bitmap: [
            bytes::u64_at(data, 272),
            bytes::u64_at(data, 280),
            bytes::u64_at(data, 288),
            bytes::u64_at(data, 296),
        ],
    }
}

impl VcpuSregs {
    /// The registers whose bytes are `data`.
    pub fn from_bytes(data: &[u8]) -> (sregs: VcpuSregs)
        requires
            data@.len() == 304,
        ensures
            sregs == sregs_at(data@),
    {
        let sregs = VcpuSregs {
            cs: read_segment(data, 0),
            ds: read_segment(data, 24),
            es: read_segment(data, 48),
            fs: read_segment(data, 72),
            gs: read_segment(data, 96),
            ss: read_segment(data, 120),
            tr: read_segment(data, 144),
            ldt: read_segment(data, 168),
            gdt: read_dtable(data, 192),
            idt: read_dtable(data, 208),
            cr0: bytes::read_u64(data, 224),
            cr2: bytes::read_u64(data, 232),
            cr3: bytes::read_u64(data, 240),
            cr4: bytes::read_u64(data, 248),
            efer: bytes::read_u64(data, 256),
            apic_base: bytes::read_u64(data, 264),
            interrupt_bitmap: [
                bytes::read_u64(data, 272),
                bytes::read_u64(data, 280),
                bytes::read_u64(data, 288),
                bytes::read_u64(data, 296),
            ],
        };
        assert(sregs.interrupt_bitmap =~= sregs_at(data@).interrupt_bitmap);
        sregs
    }
}

proof fn lemma_segment_in(data: Seq<u8>, at: int, segment: VcpuSegment)
    requires
        0 <= at <= data.len() - 24,
        data.subrange(at, at + 24) == segment.layout(),
    ensures
        segment_at(data, at) == segment,
{
    segment.lemma_layout();
    let part = data.subrange(at, at + 24);
    assert(data.subrange(at, at + 8) =~= part.subrange(0, 8));
    assert(data.subrange(at + 8, at + 12) =~= part.subrange(8, 12));
    assert(data.subrange(at + 12, at + 14) =~= part.subrange(12, 14));
    assert(forall|i: int| 0 <= i < 24 ==> data[at + i] == #[trigger] part[i]);
}

proof fn lemma_dtable_in(data: Seq<u8>, at: int, table: VcpuDtable)
    requires
        0 <= at <= data.len() - 16,
        data.subrange(at, at + 16) == table.layout(),
    ensures
        dtable_at(data, at) == table,
{
    table.lemma_layout();
    let part = data.subrange(at, at + 16);
    assert(data.subrange(at, at + 8) =~= part.subrange(0, 8));
    assert(data.subrange(at + 8, at + 10) =~= part.subrange(8, 10));
    assert(data.subrange(at + 10, at + 12) =~= part.subrange(10, 12));
    assert(data.subrange(at + 12, at + 14) =~= part.subrange(12, 14));
    assert(data.subrange(at + 14, at + 16) =~= part.subrange(14, 16));
    assert(dtable_at(data, at).padding =~= table.padding);
}

/// Reading special registers back from their bytes gives the same registers.
pub proof fn law_sregs_round_trip(sregs: VcpuSregs)
    ensures
        sregs_at(sregs.layout()) == sregs,
        sregs.layout().len() == VcpuSregs::abi_size(),
{
    sregs.lemma_layout();
    let data = sregs.layout();
    lemma_segment_in(data, 0, sregs.cs);
    lemma_segment_in(data, 24, sregs.ds);
    lemma_segment_in(data, 48, sregs.es);
    lemma_segment_in(data, 72, sregs.fs);
    lemma_segment_in(data, 96, sregs.gs);
    lemma_segment_in(data, 120, sregs.ss);
    lemma_segment_in(data, 144, sregs.tr);
    lemma_segment_in(data, 168, sregs.ldt);
    lemma_dtable_in(data, 192, sregs.gdt);
    lemma_dtable_in(data, 208, sregs.idt);
    assert(sregs_at(data).interrupt_bitmap =~= sregs.interrupt_bitmap);
}

/// The run state whose bytes are `data`. The port I/O details hold four bytes of padding before
/// their data.
pub open spec fn run_state_at(data: Seq<u8>) -> RunState {
    RunState {
        exit_reason: bytes::u32_at(data, 0),
        instruction_len: bytes::u32_at(data, 4),
        guest_rip: bytes::u64_at(data, 8),
        guest_phys_addr: bytes::u64_at(data, 16),
        exit_qualification: bytes::u64_at(data, 24),
        io: IoExit {
            port: bytes::u16_at(data, 32),
            size: data[34],
            is_in: data[35],
            is_string: data[36],
            is_repeat: data[37],
            reserved: [data[38], data[39]],
            count: bytes::u32_at(data, 40),
            data: bytes::u64_at(data, 48),
        },
        mmio: MmioInfo {
            phys_addr: bytes::u64_at(data, 56),
            data: bytes::u64_at(data, 64),
            len: bytes::u32_at(data, 72),
            is_write: data[76],
            reserved: [data[77], data[78], data[79]],
        },
    }
}

impl RunState {
    /// The run state whose bytes are `data`.
    pub fn from_bytes(data: &[u8]) -> (state: RunState)
        requires
            data@.len() == 80,
        ensures
            state == run_state_at(data@),
    {
        let state = RunState {
            exit_reason: bytes::read_u32(data, 0),
            instruction_len: bytes::read_u32(data, 4),
            guest_rip: bytes::read_u64(data, 8),
            guest_phys_addr: bytes::read_u64(data, 16),
            exit_qualification: bytes::read_u64(data, 24),
            io: IoExit {
                port: bytes::read_u16(data, 32),
                size: data[34],
                is_in: data[35],
                is_string: data[36],
                is_repeat: data[37],
                reserved: [data[38], data[39]],
                count: bytes::read_u32(data, 40),
                data: bytes::read_u64(data, 48),
            },
            mmio: MmioInfo {
                phys_addr: bytes::read_u64(data, 56),
                data: bytes::read_u64(data, 64),
                len: bytes::read_u32(data, 72),
                is_write: data[76],
                reserved: [data[77], data[78], data[79]],
            },
        };
        assert(state.io.reserved =~= run_state_at(data@).io.reserved);
        assert(state.mmio.reserved =~= run_state_at(data@).mmio.reserved);
        state
    }
}

} // verus!
