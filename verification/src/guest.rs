//! Writes to guest memory: what they leave there, and how they fail.
use crate::bytes;
use crate::error::VmmError;
use vstd::prelude::*;

verus! {

/// A write to guest memory.
pub struct GuestWrite {
    /// Where it goes.
    pub addr: u64,
    /// What is written.
    pub data: Seq<u8>,
}

impl GuestWrite {
    /// The write lies within `len` bytes of guest memory.
    pub open spec fn fits(self, len: nat) -> bool {
        (self.addr as usize) + self.data.len() <= len
    }
}

/// Guest memory after `writes`, made in order up to the first that does not fit, and the error of
/// that one.
pub open spec fn written(memory: Seq<u8>, writes: Seq<GuestWrite>) -> (Seq<u8>, Option<VmmError>)
    decreases writes.len(),
{
    if writes.len() == 0 {
        (memory, None)
    } else if writes[0].fits(memory.len()) {
        written(
            bytes::overlay(memory, (writes[0].addr as usize) as int, writes[0].data),
            writes.drop_first(),
        )
    } else {
        (
            memory,
            Some(
                VmmError::GuestDataDoesNotFit {
                    guest_addr: writes[0].addr,
                    size: writes[0].data.len() as usize,
                },
            ),
        )
    }
}

/// The error of a result, if it is one.
pub open spec fn error_of<T>(res: Result<T, VmmError>) -> Option<VmmError> {
    match res {
        Ok(_) => None,
        Err(e) => Some(e),
    }
}

/// Writes `data` to `guest_addr`. Nothing is written where it does not fit.
pub fn write_guest(guest_memory: &mut [u8], guest_addr: u64, data: &[u8]) -> (res: Result<
    (),
    VmmError,
>)
    ensures
        written(old(guest_memory)@, seq![GuestWrite { addr: guest_addr, data: data@ }]) == (
            final(guest_memory)@,
            error_of(res),
        ),
        res is Ok <==> (guest_addr as usize) + data@.len() <= old(guest_memory)@.len(),
        res is Ok ==> final(guest_memory)@ == bytes::overlay(
            old(guest_memory)@,
            (guest_addr as usize) as int,
            data@,
        ),
        res is Err ==> final(guest_memory)@ == old(guest_memory)@ && res->Err_0 == (
        VmmError::GuestDataDoesNotFit { guest_addr, size: data@.len() as usize }),
{
    let start: usize = guest_addr as usize;
    let len: usize = guest_memory.len();
    proof {
        reveal_with_fuel(written, 2);
        assert(seq![GuestWrite { addr: guest_addr, data: data@ }].drop_first() =~= Seq::empty());
    }
    if data.len() > len || start > len - data.len() {
        return Err(VmmError::GuestDataDoesNotFit { guest_addr, size: data.len() });
    }
    bytes::copy_into(guest_memory, start, data);
    Ok(())
}

/// Writes keep the size of memory.
pub proof fn lemma_written_len(memory: Seq<u8>, writes: Seq<GuestWrite>)
    ensures
        written(memory, writes).0.len() == memory.len(),
    decreases writes.len(),
{
    if writes.len() > 0 && writes[0].fits(memory.len()) {
        lemma_written_len(
            bytes::overlay(memory, (writes[0].addr as usize) as int, writes[0].data),
            writes.drop_first(),
        );
    }
}

/// Writes made one list after the other are the writes of both lists, unless the first list already
/// fails.
pub proof fn lemma_written_concat(memory: Seq<u8>, first: Seq<GuestWrite>, second: Seq<GuestWrite>)
    ensures
        written(memory, first + second) == (if written(memory, first).1 is Some {
            written(memory, first)
        } else {
            written(written(memory, first).0, second)
        }),
    decreases first.len(),
{
    if first.len() == 0 {
        assert(first + second =~= second);
    } else {
        assert((first + second).drop_first() =~= first.drop_first() + second);
        if first[0].fits(memory.len()) {
            lemma_written_concat(
                bytes::overlay(memory, (first[0].addr as usize) as int, first[0].data),
                first.drop_first(),
                second,
            );
        }
    }
}

/// The only way for a write to fail is not to fit.
pub proof fn lemma_written_error(memory: Seq<u8>, writes: Seq<GuestWrite>)
    ensures
        written(memory, writes).1 matches Some(e) ==> e is GuestDataDoesNotFit,
    decreases writes.len(),
{
    if writes.len() > 0 && writes[0].fits(memory.len()) {
        lemma_written_error(
            bytes::overlay(memory, (writes[0].addr as usize) as int, writes[0].data),
            writes.drop_first(),
        );
    }
}

/// Two writes share no address.
pub open spec fn disjoint(a: GuestWrite, b: GuestWrite) -> bool {
    (a.addr as usize) + a.data.len() <= (b.addr as usize) || (b.addr as usize) + b.data.len() <= (
    a.addr as usize)
}

/// `memory` holds what `write` wrote.
pub open spec fn holds(memory: Seq<u8>, write: GuestWrite) -> bool {
    write.fits(memory.len()) && memory.subrange(
        (write.addr as usize) as int,
        (write.addr as usize) + write.data.len(),
    ) == write.data
}

/// Writes change nothing outside the addresses that they name.
pub proof fn law_writes_leave_the_rest(memory: Seq<u8>, writes: Seq<GuestWrite>, at: int)
    requires
        0 <= at < memory.len(),
        forall|k: int|
            0 <= k < writes.len() ==> !((#[trigger] writes[k]).addr as usize <= at < (
            writes[k].addr as usize) + writes[k].data.len()),
    ensures
        written(memory, writes).0[at] == memory[at],
        written(memory, writes).0.len() == memory.len(),
    decreases writes.len(),
{
    lemma_written_len(memory, writes);
    if writes.len() > 0 && writes[0].fits(memory.len()) {
        let next = bytes::overlay(memory, (writes[0].addr as usize) as int, writes[0].data);
        assert(next[at] == memory[at]);
        assert forall|k: int| 0 <= k < writes.drop_first().len() implies !((
        #[trigger] writes.drop_first()[k]).addr as usize <= at < (writes.drop_first()[k].addr
            as usize) + writes.drop_first()[k].data.len()) by {
            assert(writes.drop_first()[k] == writes[k + 1]);
        }
        law_writes_leave_the_rest(next, writes.drop_first(), at);
    }
}

/// What a write wrote is still there after the writes that follow it, where none of them shares an
/// address with it.
pub proof fn law_write_reads_back(memory: Seq<u8>, writes: Seq<GuestWrite>, k: int)
    requires
        0 <= k < writes.len(),
        written(memory, writes).1 is None,
        forall|j: int| k < j < writes.len() ==> disjoint(writes[k], #[trigger] writes[j]),
    ensures
        holds(written(memory, writes).0, writes[k]),
    decreases writes.len(),
{
    let next = bytes::overlay(memory, (writes[0].addr as usize) as int, writes[0].data);
    let rest = writes.drop_first();
    lemma_written_len(next, rest);
    if k > 0 {
        assert(rest[k - 1] == writes[k]);
        assert forall|j: int| k - 1 < j < rest.len() implies disjoint(
            rest[k - 1],
            #[trigger] rest[j],
        ) by {
            assert(rest[j] == writes[j + 1]);
        }
        law_write_reads_back(next, rest, k - 1);
    } else {
        let start = (writes[0].addr as usize) as int;
        let end = start + writes[0].data.len();
        let after = written(memory, writes).0;
        assert forall|at: int| start <= at < end implies #[trigger] after[at] == writes[0].data[at
            - start] by {
            assert forall|j: int| 0 <= j < rest.len() implies !((#[trigger] rest[j]).addr as usize
                <= at < (rest[j].addr as usize) + rest[j].data.len()) by {
                assert(rest[j] == writes[j + 1]);
            }
            law_writes_leave_the_rest(next, rest, at);
        }
        assert(after.subrange(start, end) =~= writes[0].data);
    }
}

/// Writes succeed exactly where each of them fits.
pub proof fn law_writes_succeed_where_all_fit(memory: Seq<u8>, writes: Seq<GuestWrite>)
    ensures
        written(memory, writes).1 is None <==> forall|k: int|
            0 <= k < writes.len() ==> (#[trigger] writes[k]).fits(memory.len()),
    decreases writes.len(),
{
    if writes.len() > 0 {
        let rest = writes.drop_first();
        if writes[0].fits(memory.len()) {
            law_writes_succeed_where_all_fit(
                bytes::overlay(memory, (writes[0].addr as usize) as int, writes[0].data),
                rest,
            );
            assert forall|k: int| 1 <= k < writes.len() implies #[trigger] writes[k] == rest[k
                - 1] by {}
            assert forall|k: int| 0 <= k < rest.len() implies #[trigger] rest[k] == writes[k
                + 1] by {}
        }
    }
}

} // verus!
