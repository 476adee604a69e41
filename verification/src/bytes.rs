//! Little-endian integers, byte layouts made of consecutive pieces, and writes into a byte buffer.
use vstd::prelude::*;

verus! {

/// `len` zero bytes.
pub open spec fn zeros(len: nat) -> Seq<u8> {
    Seq::new(len, |i: int| 0u8)
}

/// The `width` low-order base-256 digits of `value`, least significant first.
pub open spec fn le_bytes(value: nat, width: nat) -> Seq<u8>
    decreases width,
{
    if width == 0 {
        Seq::empty()
    } else {
        seq![(value % 256) as u8] + le_bytes(value / 256, (width - 1) as nat)
    }
}

/// The number whose base-256 digits, least significant first, are `bytes`.
pub open spec fn le_value(bytes: Seq<u8>) -> nat
    decreases bytes.len(),
{
    if bytes.len() == 0 {
        0
    } else {
        bytes[0] as nat + 256 * le_value(bytes.drop_first())
    }
}

/// `256` to the power `width`: how many values `width` bytes can hold.
pub open spec fn le_capacity(width: nat) -> nat
    decreases width,
{
    if width == 0 {
        1
    } else {
        256 * le_capacity((width - 1) as nat)
    }
}

/// A little-endian encoding has the width that was asked for.
pub broadcast proof fn lemma_le_bytes_len(value: nat, width: nat)
    ensures
        #[trigger] le_bytes(value, width).len() == width,
    decreases width,
{
    if width > 0 {
        lemma_le_bytes_len(value / 256, (width - 1) as nat);
    }
}

/// Decoding an encoded number gives the number back, as far as the width holds it.
pub proof fn lemma_le_value_of_bytes(value: nat, width: nat)
    ensures
        le_value(le_bytes(value, width)) == value % le_capacity(width),
        le_capacity(width) > 0,
    decreases width,
{
    if width > 0 {
        let rest = (width - 1) as nat;
        lemma_le_value_of_bytes(value / 256, rest);
        lemma_le_bytes_len(value / 256, rest);
        assert(le_bytes(value, width).drop_first() =~= le_bytes(value / 256, rest));
        let c = le_capacity(rest) as int;
        vstd::arithmetic::div_mod::lemma_mod_breakdown(value as int, 256, c);
    }
}

/// Encoding a decoded number gives the bytes back.
pub proof fn lemma_le_bytes_of_value(bytes: Seq<u8>)
    ensures
        le_bytes(le_value(bytes), bytes.len()) == bytes,
        le_value(bytes) < le_capacity(bytes.len()),
    decreases bytes.len(),
{
    if bytes.len() > 0 {
        let rest = bytes.drop_first();
        lemma_le_bytes_of_value(rest);
        let v = le_value(bytes);
        assert(v % 256 == bytes[0] as nat);
        assert(v / 256 == le_value(rest));
        assert(le_bytes(v, bytes.len()) =~= bytes);
    }
}

/// The capacities of the widths in use.
pub proof fn lemma_le_capacities()
    ensures
        le_capacity(1) == 0x100,
        le_capacity(2) == 0x1_0000,
        le_capacity(4) == 0x1_0000_0000,
        le_capacity(8) == 0x1_0000_0000_0000_0000,
{
    reveal_with_fuel(le_capacity, 9);
}

/// The two-byte number stored at `at`.
pub open spec fn u16_at(bytes: Seq<u8>, at: int) -> u16 {
    le_value(bytes.subrange(at, at + 2)) as u16
}

/// The four-byte number stored at `at`.
pub open spec fn u32_at(bytes: Seq<u8>, at: int) -> u32 {
    le_value(bytes.subrange(at, at + 4)) as u32
}

/// The eight-byte number stored at `at`.
pub open spec fn u64_at(bytes: Seq<u8>, at: int) -> u64 {
    le_value(bytes.subrange(at, at + 8)) as u64
}

/// Where the bytes of `value` lie, `value` is stored.
pub proof fn lemma_u16_at(data: Seq<u8>, at: int, value: u16)
    requires
        data.subrange(at, at + 2) == le_bytes(value as nat, 2),
    ensures
        u16_at(data, at) == value,
{
    lemma_le_capacities();
    lemma_le_value_of_bytes(value as nat, 2);
}

/// Where the bytes of `value` lie, `value` is stored.
pub proof fn lemma_u32_at(data: Seq<u8>, at: int, value: u32)
    requires
        data.subrange(at, at + 4) == le_bytes(value as nat, 4),
    ensures
        u32_at(data, at) == value,
{
    lemma_le_capacities();
    lemma_le_value_of_bytes(value as nat, 4);
}

/// Where the bytes of `value` lie, `value` is stored.
pub proof fn lemma_u64_at(data: Seq<u8>, at: int, value: u64)
    requires
        data.subrange(at, at + 8) == le_bytes(value as nat, 8),
    ensures
        u64_at(data, at) == value,
{
    lemma_le_capacities();
    lemma_le_value_of_bytes(value as nat, 8);
}

/// The byte at `offset` within a part of `data` is the one at that place of `data`.
pub proof fn lemma_byte_within(data: Seq<u8>, at: int, len: int, offset: int)
    requires
        0 <= at <= at + len <= data.len(),
        0 <= offset <= len - 1,
    ensures
        data[at + offset] == data.subrange(at, at + len)[offset],
{
}

/// The two-byte number at `offset` within a part of `data` is the one at that place of `data`.
pub proof fn lemma_u16_within(data: Seq<u8>, at: int, len: int, offset: int)
    requires
        0 <= at <= at + len <= data.len(),
        0 <= offset <= len - 2,
    ensures
        u16_at(data, at + offset) == u16_at(data.subrange(at, at + len), offset),
{
    assert(data.subrange(at + offset, at + offset + 2) =~= data.subrange(at, at + len).subrange(
        offset,
        offset + 2,
    ));
}

/// The four-byte number at `offset` within a part of `data` is the one at that place of `data`.
pub proof fn lemma_u32_within(data: Seq<u8>, at: int, len: int, offset: int)
    requires
        0 <= at <= at + len <= data.len(),
        0 <= offset <= len - 4,
    ensures
        u32_at(data, at + offset) == u32_at(data.subrange(at, at + len), offset),
{
    assert(data.subrange(at + offset, at + offset + 4) =~= data.subrange(at, at + len).subrange(
        offset,
        offset + 4,
    ));
}

/// The eight-byte number at `offset` within a part of `data` is the one at that place of `data`.
pub proof fn lemma_u64_within(data: Seq<u8>, at: int, len: int, offset: int)
    requires
        0 <= at <= at + len <= data.len(),
        0 <= offset <= len - 8,
    ensures
        u64_at(data, at + offset) == u64_at(data.subrange(at, at + len), offset),
{
    assert(data.subrange(at + offset, at + offset + 8) =~= data.subrange(at, at + len).subrange(
        offset,
        offset + 8,
    ));
}

/// Reads `width` bytes at `at` as one number.
fn read_le(bytes: &[u8], at: usize, width: usize) -> (value: u64)
    requires
        at + width <= bytes@.len(),
        width <= 8,
    ensures
        value as nat == le_value(bytes@.subrange(at as int, at + width)),
        value < le_capacity(width as nat),
{
    let mut value: u64 = 0;
    let mut i: usize = width;
    assert(bytes@.subrange(at + i, at + width).len() == 0);
    assert(bytes@.len() == bytes.len());
    while i > 0
        invariant
            i <= width <= 8,
            at + width <= bytes@.len() <= usize::MAX,
            value as nat == le_value(bytes@.subrange(at + i, at + width)),
        decreases i,
    {
        i = i - 1;
        let ghost tail = bytes@.subrange(at + i + 1, at + width);
        let ghost whole = bytes@.subrange(at + i, at + width);
        proof {
            assert(whole.drop_first() =~= tail);
            lemma_le_bytes_of_value(whole);
            lemma_le_capacity_monotonic(whole.len(), 8);
            lemma_le_capacities();
        }
        value = value * 256 + bytes[at + i] as u64;
    }
    proof {
        lemma_le_bytes_of_value(bytes@.subrange(at as int, at + width));
    }
    value
}

proof fn lemma_le_capacity_monotonic(a: nat, b: nat)
    requires
        a <= b,
    ensures
        le_capacity(a) <= le_capacity(b),
    decreases b,
{
    if a < b {
        lemma_le_capacity_monotonic(a, (b - 1) as nat);
    }
}

/// Reads the two-byte number at `at`.
pub fn read_u16(bytes: &[u8], at: usize) -> (value: u16)
    requires
        at + 2 <= bytes@.len(),
    ensures
        value == u16_at(bytes@, at as int),
{
    proof {
        lemma_le_capacities();
    }
    read_le(bytes, at, 2) as u16
}

/// Reads the four-byte number at `at`.
pub fn read_u32(bytes: &[u8], at: usize) -> (value: u32)
    requires
        at + 4 <= bytes@.len(),
    ensures
        value == u32_at(bytes@, at as int),
{
    proof {
        lemma_le_capacities();
    }
    read_le(bytes, at, 4) as u32
}

/// Reads the eight-byte number at `at`.
pub fn read_u64(bytes: &[u8], at: usize) -> (value: u64)
    requires
        at + 8 <= bytes@.len(),
    ensures
        value == u64_at(bytes@, at as int),
{
    read_le(bytes, at, 8)
}

/// Appends the `width` low-order bytes of `value`.
fn push_le(buf: &mut Vec<u8>, value: u64, width: usize)
    ensures
        final(buf)@ == old(buf)@ + le_bytes(value as nat, width as nat),
{
    let mut rest: u64 = value;
    let mut i: usize = 0;
    while i < width
        invariant
            i <= width,
            old(buf)@ + le_bytes(value as nat, width as nat) =~= buf@ + le_bytes(
                rest as nat,
                (width - i) as nat,
            ),
        decreases width - i,
    {
        let ghost before = buf@;
        let ghost n = (width - i) as nat;
        buf.push((rest % 256) as u8);
        proof {
            assert(before + le_bytes(rest as nat, n) =~= before.push((rest % 256) as u8)
                + le_bytes((rest / 256) as nat, (n - 1) as nat));
        }
        rest = rest / 256;
        i = i + 1;
    }
}

/// Appends `value` in two bytes.
pub fn push_u16(buf: &mut Vec<u8>, value: u16)
    ensures
        final(buf)@ == old(buf)@ + le_bytes(value as nat, 2),
{
    push_le(buf, value as u64, 2)
}

/// Appends `value` in four bytes.
pub fn push_u32(buf: &mut Vec<u8>, value: u32)
    ensures
        final(buf)@ == old(buf)@ + le_bytes(value as nat, 4),
{
    push_le(buf, value as u64, 4)
}

/// Appends `value` in eight bytes.
pub fn push_u64(buf: &mut Vec<u8>, value: u64)
    ensures
        final(buf)@ == old(buf)@ + le_bytes(value as nat, 8),
{
    push_le(buf, value, 8)
}

/// Appends `data`.
pub fn push_bytes(buf: &mut Vec<u8>, data: &[u8])
    ensures
        final(buf)@ == old(buf)@ + data@,
{
    let mut i: usize = 0;
    while i < data.len()
        invariant
            i <= data@.len(),
            buf@ == old(buf)@ + data@.take(i as int),
        decreases data@.len() - i,
    {
        buf.push(data[i]);
        i = i + 1;
        assert(data@.take(i as int) =~= data@.take(i - 1).push(data@[i - 1]));
    }
    assert(data@.take(i as int) =~= data@);
}

/// The concatenation of `pieces`.
pub open spec fn join(pieces: Seq<Seq<u8>>) -> Seq<u8>
    decreases pieces.len(),
{
    if pieces.len() == 0 {
        Seq::empty()
    } else {
        join(pieces.drop_last()) + pieces.last()
    }
}

/// Piece `k` of a layout starts where the pieces before it end.
pub proof fn lemma_piece(pieces: Seq<Seq<u8>>, k: int, at: int)
    requires
        0 <= k < pieces.len(),
        join(pieces.take(k)).len() == at,
    ensures
        join(pieces.take(k + 1)).len() == at + pieces[k].len(),
        at + pieces[k].len() <= join(pieces).len(),
        join(pieces).subrange(at, (at + pieces[k].len()) as int) == pieces[k],
    decreases pieces.len() - k,
{
    assert(pieces.take(k + 1).drop_last() =~= pieces.take(k));
    lemma_join_prefix(pieces, k + 1);
    let whole = join(pieces);
    let prefix = join(pieces.take(k + 1));
    assert(prefix =~= join(pieces.take(k)) + pieces[k]);
    assert(whole.subrange(at, at + pieces[k].len()) =~= prefix.subrange(at, at + pieces[k].len()));
    assert(prefix.subrange(at, at + pieces[k].len()) =~= pieces[k]);
}

proof fn lemma_join_prefix(pieces: Seq<Seq<u8>>, k: int)
    requires
        0 <= k <= pieces.len(),
    ensures
        join(pieces.take(k)).len() <= join(pieces).len(),
        join(pieces).take(join(pieces.take(k)).len() as int) == join(pieces.take(k)),
    decreases pieces.len(),
{
    if k == pieces.len() {
        assert(pieces.take(k) =~= pieces);
        assert(join(pieces).take(join(pieces).len() as int) =~= join(pieces));
    } else {
        let front = pieces.drop_last();
        lemma_join_prefix(front, k);
        assert(front.take(k) =~= pieces.take(k));
        assert(join(pieces).take(join(pieces.take(k)).len() as int) =~= join(front).take(
            join(pieces.take(k)).len() as int,
        ));
    }
}

/// Pieces that are consecutive parts of `data` join to what they cover of it.
pub proof fn lemma_join_parts(pieces: Seq<Seq<u8>>, data: Seq<u8>, k: int, at: int)
    requires
        0 <= k < pieces.len(),
        0 <= at <= at + pieces[k].len() <= data.len(),
        join(pieces.take(k)) == data.take(at),
        pieces[k] == data.subrange(at, at + pieces[k].len()),
    ensures
        join(pieces.take(k + 1)) == data.take(at + pieces[k].len()),
{
    assert(pieces.take(k + 1).drop_last() =~= pieces.take(k));
    assert(data.take(at) + data.subrange(at, at + pieces[k].len()) =~= data.take(
        at + pieces[k].len(),
    ));
}

/// Appending one piece to a layout appends its bytes.
pub proof fn lemma_join_push(pieces: Seq<Seq<u8>>, piece: Seq<u8>)
    ensures
        join(pieces.push(piece)) == join(pieces) + piece,
{
    assert(pieces.push(piece).drop_last() =~= pieces);
}

/// Builds a byte layout piece by piece.
pub struct Writer {
    bytes: Vec<u8>,
    pieces: Ghost<Seq<Seq<u8>>>,
}

impl Writer {
    /// The pieces written so far.
    pub closed spec fn pieces(&self) -> Seq<Seq<u8>> {
        self.pieces@
    }

    /// The buffer holds exactly the pieces.
    pub closed spec fn wf(&self) -> bool {
        self.bytes@ == join(self.pieces@)
    }

    /// An empty layout.
    pub fn new() -> (w: Self)
        ensures
            w.wf(),
            w.pieces() == Seq::<Seq<u8>>::empty(),
    {
        Writer { bytes: Vec::new(), pieces: Ghost(Seq::empty()) }
    }

    /// Adds one byte.
    pub fn u8(&mut self, value: u8)
        requires
            old(self).wf(),
        ensures
            final(self).wf(),
            final(self).pieces() == old(self).pieces().push(seq![value]),
    {
        proof {
            lemma_join_push(self.pieces@, seq![value]);
        }
        self.bytes.push(value);
        self.pieces = Ghost(self.pieces@.push(seq![value]));
        assert(self.bytes@ =~= join(self.pieces@));
    }

    /// Adds a two-byte number.
    pub fn u16(&mut self, value: u16)
        requires
            old(self).wf(),
        ensures
            final(self).wf(),
            final(self).pieces() == old(self).pieces().push(le_bytes(value as nat, 2)),
    {
        proof {
            lemma_join_push(self.pieces@, le_bytes(value as nat, 2));
        }
        push_u16(&mut self.bytes, value);
        self.pieces = Ghost(self.pieces@.push(le_bytes(value as nat, 2)));
    }

    /// Adds a four-byte number.
    pub fn u32(&mut self, value: u32)
        requires
            old(self).wf(),
        ensures
            final(self).wf(),
            final(self).pieces() == old(self).pieces().push(le_bytes(value as nat, 4)),
    {
        proof {
            lemma_join_push(self.pieces@, le_bytes(value as nat, 4));
        }
        push_u32(&mut self.bytes, value);
        self.pieces = Ghost(self.pieces@.push(le_bytes(value as nat, 4)));
    }

    /// Adds an eight-byte number.
    pub fn u64(&mut self, value: u64)
        requires
            old(self).wf(),
        ensures
            final(self).wf(),
            final(self).pieces() == old(self).pieces().push(le_bytes(value as nat, 8)),
    {
        proof {
            lemma_join_push(self.pieces@, le_bytes(value as nat, 8));
        }
        push_u64(&mut self.bytes, value);
        self.pieces = Ghost(self.pieces@.push(le_bytes(value as nat, 8)));
    }

    /// Adds `data` as one piece.
    pub fn raw(&mut self, data: &[u8])
        requires
            old(self).wf(),
        ensures
            final(self).wf(),
            final(self).pieces() == old(self).pieces().push(data@),
    {
        proof {
            lemma_join_push(self.pieces@, data@);
        }
        push_bytes(&mut self.bytes, data);
        self.pieces = Ghost(self.pieces@.push(data@));
    }

    /// The finished layout.
    pub fn finish(self) -> (bytes: Vec<u8>)
        requires
            self.wf(),
        ensures
            bytes@ == join(self.pieces()),
    {
        self.bytes
    }
}

/// `memory` with `data` written at `at`.
pub open spec fn overlay(memory: Seq<u8>, at: int, data: Seq<u8>) -> Seq<u8> {
    Seq::new(
        memory.len(),
        |i: int|
            if at <= i < at + data.len() {
                data[i - at]
            } else {
                memory[i]
            },
    )
}

/// Copies `data` into `memory` at `at`.
pub fn copy_into(memory: &mut [u8], at: usize, data: &[u8])
    requires
        at + data@.len() <= old(memory)@.len(),
    ensures
        final(memory)@ == overlay(old(memory)@, at as int, data@),
{
    let mut i: usize = 0;
    assert(memory@.len() == memory.len());
    while i < data.len()
        invariant
            i <= data@.len(),
            memory@.len() == old(memory)@.len(),
            at + data@.len() <= memory@.len() <= usize::MAX,
            memory@ =~= overlay(old(memory)@, at as int, data@.take(i as int)),
        decreases data@.len() - i,
    {
        memory[at + i] = data[i];
        i = i + 1;
    }
    assert(data@.take(i as int) =~= data@);
}

} // verus!
