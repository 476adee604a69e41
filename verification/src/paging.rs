//! Reading guest memory through the guest's own page tables.
use crate::bytes;
use crate::error::VmmError;
use crate::guest;
use crate::guest::GuestWrite;
use crate::ioctl::VcpuSregs;
use vstd::prelude::*;

verus! {

const CR0_PG: u64 = 0x8000_0000;

const PTE_PRESENT: u64 = 0x01;

const PTE_HUGE: u64 = 0x80;

const PTE_ADDR_MASK: u64 = 0x000f_ffff_ffff_f000;

const PAGE_2M_MASK: u64 = 0x1f_ffff;

const PAGE_1G_MASK: u64 = 0x3fff_ffff;

/// What reading eight bytes at guest physical address `gpa` gives.
pub open spec fn phys_u64(memory: Seq<u8>, gpa: u64) -> Result<u64, VmmError> {
    if gpa > usize::MAX {
        Err(VmmError::GuestAddressOverflow { gpa })
    } else if gpa + 8 > usize::MAX {
        Err(VmmError::GuestReadOverflow)
    } else if gpa + 8 > memory.len() {
        Err(VmmError::GuestReadOutOfRange { gpa })
    } else {
        Ok(bytes::u64_at(memory, gpa as int))
    }
}

/// Paging is on.
pub open spec fn paging(cr0: u64) -> bool {
    (cr0 / 0x8000_0000) % 2 == 1
}

/// A page table entry is present.
pub open spec fn present(entry: u64) -> bool {
    entry % 2 == 1
}

/// A page table entry maps a large page.
pub open spec fn huge(entry: u64) -> bool {
    (entry / 0x80) % 2 == 1
}

/// The physical address in a page table entry: 52 bits, with the low twelve clear.
pub open spec fn base(entry: u64) -> u64 {
    (((entry / 0x1000) % 0x100_0000_0000) * 0x1000) as u64
}

/// Where the entry for `gva` lies in the table at `table`, where an entry covers `span` bytes.
pub open spec fn slot(table: u64, gva: u64, span: u64) -> u64 {
    (table + ((gva / span) % 512) * 8) as u64
}

/// Reads the entry for `gva`, which must be present.
pub open spec fn walk_step(
    memory: Seq<u8>,
    table: u64,
    gva: u64,
    span: u64,
    absent: VmmError,
) -> Result<u64, VmmError> {
    match phys_u64(memory, slot(table, gva, span)) {
        Err(e) => Err(e),
        Ok(entry) => if present(entry) {
            Ok(entry)
        } else {
            Err(absent)
        },
    }
}

/// The physical address of `gva` by the four-level tables whose root register is `cr3`.
#[verifier::opaque]
pub open spec fn walk(memory: Seq<u8>, cr3: u64, gva: u64) -> Result<u64, VmmError> {
    let root = (cr3 - cr3 % 0x1000) as u64;
    match walk_step(memory, root, gva, 0x80_0000_0000, VmmError::Pml4EntryNotPresent) {
        Err(e) => Err(e),
        Ok(pml4e) => match walk_step(
            memory,
            base(pml4e),
            gva,
            0x4000_0000,
            VmmError::PdptEntryNotPresent,
        ) {
            Err(e) => Err(e),
            Ok(pdpte) => if huge(pdpte) {
                Ok(base(pdpte) | (gva % 0x4000_0000))
            } else {
                match walk_step(memory, base(pdpte), gva, 0x20_0000, VmmError::PdEntryNotPresent) {
                    Err(e) => Err(e),
                    Ok(pde) => if huge(pde) {
                        Ok(base(pde) | (gva % 0x20_0000))
                    } else {
                        match walk_step(
                            memory,
                            base(pde),
                            gva,
                            0x1000,
                            VmmError::PtEntryNotPresent,
                        ) {
                            Err(e) => Err(e),
                            Ok(pte) => Ok((base(pte) + gva % 0x1000) as u64),
                        }
                    },
                }
            },
        },
    }
}

/// The physical address of `gva`: the address itself while paging is off.
pub open spec fn translated(memory: Seq<u8>, sregs: VcpuSregs, gva: u64) -> Result<u64, VmmError> {
    if paging(sregs.cr0) {
        walk(memory, sregs.cr3, gva)
    } else {
        Ok(gva)
    }
}

/// What reading eight bytes at guest virtual address `gva` gives.
pub open spec fn virt_u64(memory: Seq<u8>, sregs: VcpuSregs, gva: u64) -> Result<u64, VmmError> {
    match translated(memory, sregs, gva) {
        Err(e) => Err(e),
        Ok(gpa) => phys_u64(memory, gpa),
    }
}

proof fn lemma_entry_bits(entry: u64)
    by (bit_vector)
    ensures
        (entry & 0x01 == 0) == (entry % 2 == 0),
        (entry & 0x80 != 0) == ((entry / 0x80) % 2 == 1),
        entry & 0x000f_ffff_ffff_f000 == ((entry / 0x1000) % 0x100_0000_0000) * 0x1000,
        (entry & 0x8000_0000 == 0) == ((entry / 0x8000_0000) % 2 == 0),
        entry & !0xfffu64 == entry - entry % 0x1000,
{
}

proof fn lemma_address_bits(gva: u64)
    by (bit_vector)
    ensures
        (gva >> 39) & 0x1ff == (gva / 0x80_0000_0000) % 512,
        (gva >> 30) & 0x1ff == (gva / 0x4000_0000) % 512,
        (gva >> 21) & 0x1ff == (gva / 0x20_0000) % 512,
        (gva >> 12) & 0x1ff == (gva / 0x1000) % 512,
        gva & 0x3fff_ffff == gva % 0x4000_0000,
        gva & 0x1f_ffff == gva % 0x20_0000,
        gva & 0xfff == gva % 0x1000,
{
}

proof fn lemma_page_or(page: u64, offset: u64)
    by (bit_vector)
    requires
        page % 0x1000 == 0,
    ensures
        offset < 0x1000 ==> page | offset == page + offset,
        page | offset == (page | (offset - offset % 0x1000) as u64) + offset % 0x1000,
        (page | offset) % 0x1000 == offset % 0x1000,
{
}

proof fn lemma_same_page(gva: u64, other: u64)
    by (bit_vector)
    requires
        gva / 0x1000 == other / 0x1000,
    ensures
        gva / 0x20_0000 == other / 0x20_0000,
        gva / 0x4000_0000 == other / 0x4000_0000,
        gva / 0x80_0000_0000 == other / 0x80_0000_0000,
        gva % 0x20_0000 - gva % 0x1000 == other % 0x20_0000 - other % 0x1000,
        gva % 0x4000_0000 - gva % 0x1000 == other % 0x4000_0000 - other % 0x1000,
        (gva % 0x20_0000) % 0x1000 == gva % 0x1000,
        (gva % 0x4000_0000) % 0x1000 == gva % 0x1000,
        (other % 0x20_0000) % 0x1000 == other % 0x1000,
        (other % 0x4000_0000) % 0x1000 == other % 0x1000,
{
}

proof fn lemma_low_address(gva: u64, low: u64)
    by (bit_vector)
    requires
        low == gva % 0x1_0000_0000_0000,
    ensures
        (low / 0x80_0000_0000) % 512 == (gva / 0x80_0000_0000) % 512,
        (low / 0x4000_0000) % 512 == (gva / 0x4000_0000) % 512,
        (low / 0x20_0000) % 512 == (gva / 0x20_0000) % 512,
        (low / 0x1000) % 512 == (gva / 0x1000) % 512,
        low % 0x4000_0000 == gva % 0x4000_0000,
        low % 0x20_0000 == gva % 0x20_0000,
        low % 0x1000 == gva % 0x1000,
{
}

/// Reads eight bytes at guest physical address `gpa`.
pub fn read_guest_phys_u64(memory: &[u8], gpa: u64) -> (res: Result<u64, VmmError>)
    ensures
        res == phys_u64(memory@, gpa),
{
    let len: usize = memory.len();
    if gpa > usize::MAX as u64 {
        return Err(VmmError::GuestAddressOverflow { gpa });
    }
    let start: usize = gpa as usize;
    if start > usize::MAX - 8 {
        return Err(VmmError::GuestReadOverflow);
    }
    if start + 8 > len {
        return Err(VmmError::GuestReadOutOfRange { gpa });
    }
    Ok(bytes::read_u64(memory, start))
}

/// Finds the physical address of `gva`.
pub fn translate_guest_addr(memory: &[u8], sregs: &VcpuSregs, gva: u64) -> (res: Result<
    u64,
    VmmError,
>)
    ensures
        res == translated(memory@, *sregs, gva),
{
    proof {
        reveal(walk);
        lemma_entry_bits(sregs.cr0);
        lemma_entry_bits(sregs.cr3);
        lemma_address_bits(gva);
    }
    if (sregs.cr0 & CR0_PG) == 0 {
        return Ok(gva);
    }
    let cr3: u64 = sregs.cr3 & !0xfffu64;
    let pml4e: u64 = match read_guest_phys_u64(memory, cr3 + ((gva >> 39) & 0x1ff) * 8) {
        Ok(entry) => entry,
        Err(e) => {
            return Err(e);
        },
    };
    proof {
        lemma_entry_bits(pml4e);
    }
    if (pml4e & PTE_PRESENT) == 0 {
        return Err(VmmError::Pml4EntryNotPresent);
    }
    let pdpte: u64 = match read_guest_phys_u64(
        memory,
        (pml4e & PTE_ADDR_MASK) + ((gva >> 30) & 0x1ff) * 8,
    ) {
        Ok(entry) => entry,
        Err(e) => {
            return Err(e);
        },
    };
    proof {
        lemma_entry_bits(pdpte);
    }
    if (pdpte & PTE_PRESENT) == 0 {
        return Err(VmmError::PdptEntryNotPresent);
    }
    if (pdpte & PTE_HUGE) != 0 {
        return Ok((pdpte & PTE_ADDR_MASK) | (gva & PAGE_1G_MASK));
    }
    let pde: u64 = match read_guest_phys_u64(
        memory,
        (pdpte & PTE_ADDR_MASK) + ((gva >> 21) & 0x1ff) * 8,
    ) {
        Ok(entry) => entry,
        Err(e) => {
            return Err(e);
        },
    };
    proof {
        lemma_entry_bits(pde);
    }
    if (pde & PTE_PRESENT) == 0 {
        return Err(VmmError::PdEntryNotPresent);
    }
    if (pde & PTE_HUGE) != 0 {
        return Ok((pde & PTE_ADDR_MASK) | (gva & PAGE_2M_MASK));
    }
    let pte: u64 = match read_guest_phys_u64(
        memory,
        (pde & PTE_ADDR_MASK) + ((gva >> 12) & 0x1ff) * 8,
    ) {
        Ok(entry) => entry,
        Err(e) => {
            return Err(e);
        },
    };
    proof {
        lemma_entry_bits(pte);
        lemma_page_or(base(pte), gva % 0x1000);
    }
    if (pte & PTE_PRESENT) == 0 {
        return Err(VmmError::PtEntryNotPresent);
    }
    Ok((pte & PTE_ADDR_MASK) | (gva & 0xfff))
}

/// Reads eight bytes at guest virtual address `gva`.
pub fn read_guest_u64(memory: &[u8], sregs: &VcpuSregs, gva: u64) -> (res: Result<u64, VmmError>)
    ensures
        res == virt_u64(memory@, *sregs, gva),
{
    match translate_guest_addr(memory, sregs, gva) {
        Ok(gpa) => read_guest_phys_u64(memory, gpa),
        Err(e) => Err(e),
    }
}

/// While paging is off, virtual addresses are physical addresses.
pub proof fn law_no_paging_is_identity(memory: Seq<u8>, sregs: VcpuSregs, gva: u64)
    requires
        !paging(sregs.cr0),
    ensures
        translated(memory, sregs, gva) == Ok::<u64, VmmError>(gva),
        virt_u64(memory, sregs, gva) == phys_u64(memory, gva),
{
}

proof fn lemma_page_of(entry: u64, offset: u64, other: u64)
    requires
        offset - offset % 0x1000 == other - other % 0x1000,
    ensures
        (base(entry) | offset) % 0x1000 == offset % 0x1000,
        base(entry) | other == (base(entry) | offset) - offset % 0x1000 + other % 0x1000,
{
    lemma_page_or(base(entry), offset);
    lemma_page_or(base(entry), other);
}

/// Translation keeps the offset in the page, and addresses in one page are translated together: to
/// one page, or not at all and for the same reason.
pub proof fn law_translation_is_by_page(memory: Seq<u8>, sregs: VcpuSregs, gva: u64, other: u64)
    requires
        gva / 0x1000 == other / 0x1000,
        paging(sregs.cr0),
    ensures
        match translated(memory, sregs, gva) {
            Ok(gpa) => gpa % 0x1000 == gva % 0x1000 && translated(memory, sregs, other) == Ok::<
                u64,
                VmmError,
            >((gpa - gva % 0x1000 + other % 0x1000) as u64),
            Err(e) => translated(memory, sregs, other) == Err::<u64, VmmError>(e),
        },
{
    reveal(walk);
    lemma_same_page(gva, other);
    let root = (sregs.cr3 - sregs.cr3 % 0x1000) as u64;
    if let Ok(pml4e) = walk_step(
        memory,
        root,
        gva,
        0x80_0000_0000,
        VmmError::Pml4EntryNotPresent,
    ) {
        if let Ok(pdpte) = walk_step(
            memory,
            base(pml4e),
            gva,
            0x4000_0000,
            VmmError::PdptEntryNotPresent,
        ) {
            lemma_page_of(pdpte, gva % 0x4000_0000, other % 0x4000_0000);
            if let Ok(pde) = walk_step(
                memory,
                base(pdpte),
                gva,
                0x20_0000,
                VmmError::PdEntryNotPresent,
            ) {
                lemma_page_of(pde, gva % 0x20_0000, other % 0x20_0000);
            }
        }
    }
}

/// The tables see only the low 48 bits of an address.
pub proof fn law_upper_bits_are_ignored(memory: Seq<u8>, sregs: VcpuSregs, gva: u64)
    requires
        paging(sregs.cr0),
    ensures
        translated(memory, sregs, gva) == translated(memory, sregs, gva % 0x1_0000_0000_0000),
{
    reveal(walk);
    lemma_low_address(gva, gva % 0x1_0000_0000_0000);
}

/// What was written to physical memory is what a read there returns.
pub proof fn law_physical_read_back(memory: Seq<u8>, gpa: u64, value: u64)
    requires
        gpa + 8 <= usize::MAX,
        guest::holds(memory, (GuestWrite { addr: gpa, data: bytes::le_bytes(value as nat, 8) })),
    ensures
        phys_u64(memory, gpa) == Ok::<u64, VmmError>(value),
{
    broadcast use bytes::lemma_le_bytes_len;

    bytes::lemma_u64_at(memory, gpa as int, value);
}

} // verus!
