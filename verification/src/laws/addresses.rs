//! Guest addresses, table by table.
use crate::bytes;
use crate::error::VmmError;
use crate::ioctl::VcpuSregs;
use crate::paging;
use vstd::prelude::*;

verus! {

/// A read of eight bytes succeeds exactly where they lie in memory, and gives what is stored there.
pub proof fn law_physical_reads(memory: Seq<u8>, gpa: u64)
    requires
        memory.len() <= usize::MAX,
    ensures
        gpa + 8 <= memory.len() ==> paging::phys_u64(memory, gpa) == Ok::<u64, VmmError>(
            bytes::u64_at(memory, gpa as int),
        ),
        gpa + 8 > memory.len() ==> paging::phys_u64(memory, gpa) == Err::<u64, VmmError>(
            if gpa > usize::MAX {
                VmmError::GuestAddressOverflow { gpa }
            } else if gpa + 8 > usize::MAX {
                VmmError::GuestReadOverflow
            } else {
                VmmError::GuestReadOutOfRange { gpa }
            },
        ),
{
}

/// An address is translated by four tables of 512 entries each, which bits 39 to 47, 30 to 38, 21 to 29 and 12
/// to 20 of it select from. Every entry must be present, by its bit 0. Bit 7 ends the walk at a page of a
/// gigabyte or of two megabytes, where the rest of the address joins the frame; behind the fourth table the
/// last twelve bits are added to it.
pub proof fn law_page_walk(
    memory: Seq<u8>,
    sregs: VcpuSregs,
    gva: u64,
    e4: u64,
    e3: u64,
    e2: u64,
    e1: u64,
)
    requires
        memory.len() <= usize::MAX,
        (sregs.cr0 as int / 0x8000_0000) % 2 == 1,
    ensures
        ({
            let frame = |entry: u64| ((entry as int / 0x1000) % 0x100_0000_0000) * 0x1000;
            let slot = |table: int, span: int| table + 8 * ((gva as int / span) % 512);
            let a4 = slot(sregs.cr3 - sregs.cr3 % 0x1000, 0x80_0000_0000);
            let a3 = slot(frame(e4), 0x4000_0000);
            let a2 = slot(frame(e3), 0x20_0000);
            let a1 = slot(frame(e2), 0x1000);
            let found4 = a4 + 8 <= memory.len() && bytes::u64_at(memory, a4) == e4;
            let found3 = found4 && e4 % 2 == 1 && a3 + 8 <= memory.len() && bytes::u64_at(memory, a3)
                == e3;
            let found2 = found3 && e3 % 2 == 1 && (e3 / 0x80) % 2 == 0 && a2 + 8 <= memory.len()
                && bytes::u64_at(memory, a2) == e2;
            let found1 = found2 && e2 % 2 == 1 && (e2 / 0x80) % 2 == 0 && a1 + 8 <= memory.len()
                && bytes::u64_at(memory, a1) == e1;
            let result = paging::translated(memory, sregs, gva);
            &&& found4 && e4 % 2 == 0 ==> result == Err::<u64, VmmError>(
                VmmError::Pml4EntryNotPresent,
            )
            &&& found3 && e3 % 2 == 0 ==> result == Err::<u64, VmmError>(
                VmmError::PdptEntryNotPresent,
            )
            &&& found3 && e3 % 2 == 1 && (e3 / 0x80) % 2 == 1 ==> result == Ok::<u64, VmmError>(
                (frame(e3) as u64) | (gva % 0x4000_0000),
            )
            &&& found2 && e2 % 2 == 0 ==> result == Err::<u64, VmmError>(
                VmmError::PdEntryNotPresent,
            )
            &&& found2 && e2 % 2 == 1 && (e2 / 0x80) % 2 == 1 ==> result == Ok::<u64, VmmError>(
                (frame(e2) as u64) | (gva % 0x20_0000),
            )
            &&& found1 && e1 % 2 == 0 ==> result == Err::<u64, VmmError>(
                VmmError::PtEntryNotPresent,
            )
            &&& found1 && e1 % 2 == 1 ==> result == Ok::<u64, VmmError>(
                (frame(e1) + gva % 0x1000) as u64,
            )
        }),
{
    reveal(paging::walk);
}

/// A walk that meets an entry outside memory fails as a read of that entry does.
pub proof fn law_page_walk_outside_memory(
    memory: Seq<u8>,
    sregs: VcpuSregs,
    gva: u64,
    e4: u64,
    e3: u64,
    e2: u64,
)
    requires
        memory.len() <= usize::MAX,
        (sregs.cr0 as int / 0x8000_0000) % 2 == 1,
    ensures
        ({
            let frame = |entry: u64| ((entry as int / 0x1000) % 0x100_0000_0000) * 0x1000;
            let slot = |table: int, span: int| table + 8 * ((gva as int / span) % 512);
            let a4 = slot(sregs.cr3 - sregs.cr3 % 0x1000, 0x80_0000_0000);
            let a3 = slot(frame(e4), 0x4000_0000);
            let a2 = slot(frame(e3), 0x20_0000);
            let a1 = slot(frame(e2), 0x1000);
            let found4 = a4 + 8 <= memory.len() && bytes::u64_at(memory, a4) == e4;
            let found3 = found4 && e4 % 2 == 1 && a3 + 8 <= memory.len() && bytes::u64_at(memory, a3)
                == e3;
            let found2 = found3 && e3 % 2 == 1 && (e3 / 0x80) % 2 == 0 && a2 + 8 <= memory.len()
                && bytes::u64_at(memory, a2) == e2;
            let result = paging::translated(memory, sregs, gva);
            &&& a4 + 8 > memory.len() ==> result == paging::phys_u64(memory, a4 as u64)
            &&& found4 && e4 % 2 == 1 && a3 + 8 > memory.len() ==> result == paging::phys_u64(
                memory,
                a3 as u64,
            )
            &&& found3 && e3 % 2 == 1 && (e3 / 0x80) % 2 == 0 && a2 + 8 > memory.len() ==> result
                == paging::phys_u64(memory, a2 as u64)
            &&& found2 && e2 % 2 == 1 && (e2 / 0x80) % 2 == 0 && a1 + 8 > memory.len() ==> result
                == paging::phys_u64(memory, a1 as u64)
        }),
{
    reveal(paging::walk);
}

/// While bit 31 of `cr0` is clear, an address stands for itself.
pub proof fn law_no_page_walk(memory: Seq<u8>, sregs: VcpuSregs, gva: u64)
    requires
        (sregs.cr0 as int / 0x8000_0000) % 2 == 0,
    ensures
        paging::translated(memory, sregs, gva) == Ok::<u64, VmmError>(gva),
{
}

/// A virtual read is a physical read at the address that the virtual one is translated to.
pub proof fn law_virtual_reads(memory: Seq<u8>, sregs: VcpuSregs, gva: u64)
    ensures
        match paging::translated(memory, sregs, gva) {
            Ok(gpa) => paging::virt_u64(memory, sregs, gva) == paging::phys_u64(memory, gpa),
            Err(e) => paging::virt_u64(memory, sregs, gva) == Err::<u64, VmmError>(e),
        },
{
}

} // verus!
